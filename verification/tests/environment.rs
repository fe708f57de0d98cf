use log_checking::analysis::analyze;
use log_checking::environment::{
    detect_launcher, detect_loader, discover_mods, get_environment_info, read_mc_version, resolve_known,
    scan_mods, Launcher, MapStatus, ModLoader,
};
use log_checking::report::Severity;

fn ids(log: &str) -> Vec<(String, String)> {
    discover_mods(log).into_iter().map(|m| (m.0, m.1)).collect()
}

fn pair(a: &str, b: &str) -> (String, String) {
    (a.to_string(), b.to_string())
}

#[test]
fn fabric_boot_line_gives_version_and_loader() {
    let log = "[12:00:00] [main/INFO]: Loading Minecraft 1.20.1 with Fabric Loader 0.15.6\n";
    let env = get_environment_info(log, MapStatus::Unmapped);
    assert_eq!(env.mc_version.as_deref(), Some("1.20.1"));
    assert_eq!(env.loader, Some(ModLoader::Fabric(Some("0.15.6".to_string()))));
    assert_eq!(env.launcher, None);
    assert_eq!(env.map_status, MapStatus::Unmapped);
}

#[test]
fn log_without_markers_gives_empty_environment() {
    let analysis = analyze("nothing of interest happened here", MapStatus::NotRequired);
    assert_eq!(analysis.environment.launcher, None);
    assert_eq!(analysis.environment.mc_version, None);
    assert_eq!(analysis.environment.loader, None);
    assert!(analysis.environment.discovered_mods.is_empty());
    assert!(analysis.environment.known_mods.is_empty());
    assert_eq!(analysis.environment.map_status, MapStatus::NotRequired);
    assert!(analysis.findings.is_empty());
    assert_eq!(analysis.severity, Severity::Info);
}

#[test]
fn empty_log_gives_empty_environment() {
    let env = get_environment_info("", MapStatus::Unmapped);
    assert_eq!(env.launcher, None);
    assert_eq!(env.mc_version, None);
    assert_eq!(env.loader, None);
    assert!(env.discovered_mods.is_empty());
    assert!(env.known_mods.is_empty());
}

#[test]
fn launchers_are_told_by_their_marker() {
    assert_eq!(detect_launcher("Prism Launcher version: 8.0"), Some(Launcher::Prism));
    assert_eq!(detect_launcher("PolyMC version: 1.4.0"), Some(Launcher::PolyMC));
    assert_eq!(detect_launcher("MultiMC version: 0.7.0"), Some(Launcher::MultiMC));
    assert_eq!(
        detect_launcher("C:\\Users\\me\\AppData\\Roaming\\com.modrinth.theseus\\profiles"),
        Some(Launcher::Theseus)
    );
    assert_eq!(detect_launcher("/home/me/.config/com.modrinth.theseus/profiles"), Some(Launcher::Theseus));
    assert_eq!(detect_launcher("some launcher"), None);
}

#[test]
fn first_launcher_marker_in_the_list_wins() {
    assert_eq!(
        detect_launcher("MultiMC version: 0.7.0\nPrism Launcher version: 8.0"),
        Some(Launcher::Prism)
    );
    assert_eq!(detect_launcher("MultiMC version: 0.7.0\nPolyMC version: 1"), Some(Launcher::PolyMC));
}

#[test]
fn loaders_are_told_apart() {
    assert_eq!(detect_loader("at ne.mi.fm.lo.ModLoader.load"), Some(ModLoader::Forge));
    assert_eq!(
        detect_loader("Is Modded: Definitely; Client brand changed to 'forge'"),
        Some(ModLoader::Forge)
    );
    assert_eq!(detect_loader("at net.neoforged.fml.loading.FMLLoader"), Some(ModLoader::NeoForge));
    assert_eq!(
        detect_loader("Is Modded: Definitely; Server brand changed to 'neoforge'"),
        Some(ModLoader::NeoForge)
    );
    assert_eq!(
        detect_loader("Loading Minecraft 1.20.1 with Quilt Loader 0.23.1"),
        Some(ModLoader::Quilt(Some("0.23.1".to_string())))
    );
    assert_eq!(
        detect_loader("Is Modded: Definitely; Client brand changed to 'quilt'"),
        Some(ModLoader::Quilt(None))
    );
    assert_eq!(
        detect_loader("Is Modded: Definitely; Client brand changed to 'fabric'"),
        Some(ModLoader::Fabric(None))
    );
    assert_eq!(
        detect_loader("\tfabricloader: Fabric Loader 0.14.21"),
        Some(ModLoader::Fabric(Some("0.14.21".to_string())))
    );
    assert_eq!(detect_loader("vanilla"), None);
}

#[test]
fn loader_of_higher_priority_wins() {
    let both = "Loading Minecraft 1.20.1 with Quilt Loader 0.23.1\nfabricloader: Fabric Loader 0.15.0\n";
    assert_eq!(detect_loader(both), Some(ModLoader::Fabric(Some("0.15.0".to_string()))));
    let forge_and_quilt = "Loading Minecraft 1.20.1 with Quilt Loader 0.23.1\nne.mi.fm.lo\n";
    assert_eq!(detect_loader(forge_and_quilt), Some(ModLoader::Forge));
    let forge_and_neoforge = "net.neoforged.fml.loading and ne.mi.fm.lo";
    assert_eq!(detect_loader(forge_and_neoforge), Some(ModLoader::Forge));
}

#[test]
fn game_version_patterns_in_order() {
    assert_eq!(read_mc_version("Loading Minecraft 1.19.2 with Fabric").as_deref(), Some("1.19.2"));
    assert_eq!(read_mc_version("Starting minecraft server version 1.18.2").as_deref(), Some("1.18.2"));
    assert_eq!(read_mc_version("\tMinecraft Version: 1.16.5\n").as_deref(), Some("1.16.5"));
    assert_eq!(
        read_mc_version("Minecraft Version: 1.16.5\nLoading Minecraft 1.20.4 now").as_deref(),
        Some("1.20.4")
    );
    assert_eq!(read_mc_version("no version here"), None);
}

#[test]
fn long_version_is_clipped() {
    let log = "Loading Minecraft 0123456789012345678901234567890123456789 with Fabric Loader 0.15.6";
    assert_eq!(read_mc_version(log).as_deref(), Some("01234567890123456789012345678..."));
    let exact = "Loading Minecraft 01234567890123456789012345678901 now";
    assert_eq!(read_mc_version(exact).as_deref(), Some("01234567890123456789012345678901"));
}

#[test]
fn mods_are_discovered_once_each_in_order() {
    let log = "Loading 3 mods:\n\t- fabric-api 0.92.0\n\t- sodium 0.5.8\n\t- fabric-api 0.91.0\n";
    assert_eq!(ids(log), vec![pair("fabric-api", "0.92.0"), pair("sodium", "0.5.8")]);
}

#[test]
fn mods_are_discovered_in_all_four_shapes() {
    let listed = "\n  - owo 0.12.0";
    assert_eq!(ids(listed), vec![pair("owo", "0.12.0")]);
    let keyed = "\n\t\tcicada: CICADA 0.8.1";
    assert_eq!(ids(keyed), vec![pair("cicada", "0.8.1")]);
    let quoted = "requires mod 'Sodium' (sodium) 0.5.8!";
    assert_eq!(ids(quoted), vec![pair("sodium", "0.5.8!")]);
    let table = "| LCHIJA | minecraft | minecraft | 1.20.1 | 1.20.1 | DONE | Manifest | NOSIGNATURE |";
    assert_eq!(ids(table), vec![pair("minecraft", "1.20.1")]);
}

#[test]
fn list_lines_come_before_keyed_lines() {
    let log = "\n\tsodium: Sodium 0.5.8\n\t- owo 0.12.0\n\t- sodium 0.4.0";
    assert_eq!(ids(log), vec![pair("owo", "0.12.0"), pair("sodium", "0.4.0")]);
}

#[test]
fn known_mods_follow_discovery_order() {
    let log = "mods:\n\t- sodium 0.5.8\n\t- owo 0.12.0\n\t- bclib 3.0.0\n\t- fabric-api 0.92.0\n";
    let env = get_environment_info(log, MapStatus::Unmapped);
    let known: Vec<(&str, &str, &str)> =
        env.known_mods.iter().map(|k| (k.0 .0, k.1 .0.as_str(), k.1 .1.as_str())).collect();
    assert_eq!(
        known,
        vec![("owo", "owo", "0.12.0"), ("bclib", "bclib", "3.0.0"), ("fabric-api", "fabric-api", "0.92.0")]
    );
    assert_eq!(env.known_mods[0].0 .1, "<:owo:1246492160027656273> o\u{3c9}o");
    assert_eq!(env.discovered_mods.len(), 4);
}

#[test]
fn known_mods_are_among_the_discovered() {
    let log = "mods:\n\t- trickster 1.0\n\t- unknown-mod 2.0\n\t- zauber 3.0\n\t- trickster 9.9\n";
    let env = get_environment_info(log, MapStatus::Unmapped);
    assert!(env.known_mods.len() <= env.discovered_mods.len());
    for known in env.known_mods.iter() {
        assert_eq!(known.0 .0, known.1 .0);
        assert!(env.discovered_mods.iter().any(|d| d.0 == known.1 .0 && d.1 == known.1 .1));
    }
    let mut seen: Vec<&str> = env.discovered_mods.iter().map(|d| d.0.as_str()).collect();
    seen.sort();
    seen.dedup();
    assert_eq!(seen.len(), env.discovered_mods.len());
    assert_eq!(env.known_mods.len(), 2);
}

#[test]
fn catalog_has_its_entries() {
    let catalog = scan_mods();
    assert_eq!(catalog.len(), 33);
    assert_eq!(catalog[0].0, "fabric");
    assert_eq!(catalog[32].0, "feather");
    assert_eq!(catalog[14].1, "<:shork:1172685466676502559> Bl\u{e5}haj of Undying");
    let none = resolve_known(&catalog, &discover_mods("\n- sodium 1.0"));
    assert!(none.is_empty());
}

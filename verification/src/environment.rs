//! The runtime environment a log was written in: launcher, game version, mod
//! loader and the mods that the log mentions.

use crate::pattern::{all_captures, all_captures_of, first_of, grab, grab2, grab3, grab_of, is_match, pattern_matches, same_text, Groups};
use crate::text::{decimal, decimal_of};
use vstd::prelude::*;
use vstd::string::*;

verus! {

/// The component that loads mods into the game, with its version where the
/// log gives one.
#[derive(PartialEq, Eq, Debug)]
pub enum ModLoader {
    Fabric(Option<String>),
    Forge,
    NeoForge,
    Quilt(Option<String>),
}

/// A mod loader as plain text.
pub enum LoaderView {
    Fabric(Option<Seq<char>>),
    Forge,
    NeoForge,
    Quilt(Option<Seq<char>>),
}

impl DeepView for ModLoader {
    type V = LoaderView;

    open spec fn deep_view(&self) -> LoaderView {
        match *self {
            ModLoader::Fabric(version) => LoaderView::Fabric(version.deep_view()),
            ModLoader::Forge => LoaderView::Forge,
            ModLoader::NeoForge => LoaderView::NeoForge,
            ModLoader::Quilt(version) => LoaderView::Quilt(version.deep_view()),
        }
    }
}

/// The program that started the game.
#[derive(PartialEq, Eq, Clone, Copy, Debug, Structural)]
pub enum Launcher {
    Prism,
    PolyMC,
    MultiMC,
    Vanilla,
    CurseForge,
    Theseus,
}

/// Whether, and how, the identifiers of a log were turned into readable
/// names. `Mapped` holds the milliseconds that took.
#[derive(PartialEq, Eq, Clone, Copy, Debug, Structural)]
pub enum MapStatus {
    InvalidMcVersion,
    Unmapped,
    Mapped(u128),
    NotRequired,
}

/// A mod by id and a second text: its version in a log, or its label in the
/// catalog.
pub type ModView = (Seq<char>, Seq<char>);

/// An entry of the catalog of well-known mods: id and display label.
#[derive(Clone, Copy, Debug)]
pub struct ScanMod(pub &'static str, pub &'static str);

impl DeepView for ScanMod {
    type V = ModView;

    open spec fn deep_view(&self) -> ModView {
        (self.0@, self.1@)
    }
}

/// A mod that a log mentions: id and version. Two of them are the same mod
/// where their ids are equal.
#[derive(Debug)]
pub struct DiscoveredMod(pub String, pub String);

impl DeepView for DiscoveredMod {
    type V = ModView;

    open spec fn deep_view(&self) -> ModView {
        (self.0@, self.1@)
    }
}

impl DiscoveredMod {
    /// A copy of this mod.
    pub fn duplicate(&self) -> (r: DiscoveredMod)
        ensures
            r.deep_view() == self.deep_view(),
    {
        DiscoveredMod(self.0.clone(), self.1.clone())
    }
}

/// A discovered mod that the catalog knows, with its catalog entry.
pub struct KnownMod(pub ScanMod, pub DiscoveredMod);

impl DeepView for KnownMod {
    type V = (ModView, ModView);

    open spec fn deep_view(&self) -> (ModView, ModView) {
        (self.0.deep_view(), self.1.deep_view())
    }
}

/// What a log tells about where it was written.
pub struct EnvironmentContext {
    pub launcher: Option<Launcher>,
    pub mc_version: Option<String>,
    pub loader: Option<ModLoader>,
    pub discovered_mods: Vec<DiscoveredMod>,
    pub known_mods: Vec<KnownMod>,
    pub map_status: MapStatus,
}

/// An environment as plain values.
pub struct EnvironmentView {
    pub launcher: Option<Launcher>,
    pub mc_version: Option<Seq<char>>,
    pub loader: Option<LoaderView>,
    pub discovered_mods: Seq<ModView>,
    pub known_mods: Seq<(ModView, ModView)>,
    pub map_status: MapStatus,
}

impl DeepView for EnvironmentContext {
    type V = EnvironmentView;

    open spec fn deep_view(&self) -> EnvironmentView {
        EnvironmentView {
            launcher: self.launcher,
            mc_version: self.mc_version.deep_view(),
            loader: self.loader.deep_view(),
            discovered_mods: self.discovered_mods.deep_view(),
            known_mods: self.known_mods.deep_view(),
            map_status: self.map_status,
        }
    }
}

/// Whether some mod of `mods` has the id `id`.
pub open spec fn has_id(mods: Seq<ModView>, id: Seq<char>) -> bool {
    exists|i: int| 0 <= i < mods.len() && (#[trigger] mods[i]).0 == id
}

/// No two mods of `mods` share an id.
pub open spec fn distinct_ids(mods: Seq<ModView>) -> bool {
    forall|i: int, j: int| 0 <= i < j < mods.len() ==> (#[trigger] mods[i]).0 != (#[trigger] mods[j]).0
}

impl EnvironmentView {
    /// Every discovered id occurs once, and each known mod pairs a discovered
    /// mod with a catalog entry of the same id.
    pub open spec fn wf(self) -> bool {
        &&& distinct_ids(self.discovered_mods)
        &&& self.known_mods.len() <= self.discovered_mods.len()
        &&& forall|k: int|
            0 <= k < self.known_mods.len() ==> {
                &&& (#[trigger] self.known_mods[k]).0.0 == (self.known_mods[k].1).0
                &&& self.discovered_mods.contains(self.known_mods[k].1)
            }
    }
}

pub const PRISM_MARK: &'static str = r"Prism Launcher version:";

pub const POLYMC_MARK: &'static str = r"PolyMC version:";

pub const MULTIMC_MARK: &'static str = r"MultiMC version:";

pub const THESEUS_MARK: &'static str = r"[\\/]com\.modrinth\.theseus[\\/]";

pub const FABRIC_BOOT: &'static str = r"Loading Minecraft [^\s]+ with Fabric Loader ([^\s]+)";

pub const FABRIC_MOD_LINE: &'static str = r"fabricloader: Fabric Loader ([^\s]+)";

pub const FABRIC_BRAND: &'static str = r"Is Modded: Definitely; [^\s]+ brand changed to 'fabric'";

pub const FORGE_PACKAGE: &'static str = r"ne\.mi\.fm\.lo";

pub const FORGE_BRAND: &'static str = r"Is Modded: Definitely; [^\s]+ brand changed to 'forge'";

pub const NEOFORGE_PACKAGE: &'static str = r"net\.neoforged\.fml\.loading";

pub const NEOFORGE_BRAND: &'static str = r"Is Modded: Definitely; [^\s]+ brand changed to 'neoforge'";

pub const QUILT_BOOT: &'static str = r"Loading Minecraft [^\s]+ with Quilt Loader ([^\s]+)";

pub const QUILT_BRAND: &'static str = r"Is Modded: Definitely; [^\s]+ brand changed to 'quilt'";

pub const VERSION_BOOT: &'static str = r"Loading Minecraft ([^\s]+)";

pub const VERSION_SERVER: &'static str = r"minecraft server version ([^\s]+)";

pub const VERSION_CRASH: &'static str = r"Minecraft Version: ([^\s]+)";

pub const MODS_LISTED: &'static str = r"\n\s*- (\S+) (\S+)";

pub const MODS_KEYED: &'static str = r"\n\s*(\S+): .+ (\S+)";

pub const MODS_QUOTED: &'static str = r"mod '.+' \((\S+)\) (\S+)";

pub const MODS_TABLE: &'static str =
    r"\| \s*\w+ \| [^|]* \| (\S+)\s* \| (\S+)\s* \| [^|]* \| \w+\s* \| [^|]* \| [^|]* \|";

/// The longest loader or game version that is kept whole.
pub const VERSION_SIZE: usize = 32;

/// The launcher that the markers found speak for: the first in the order
/// Prism, PolyMC, MultiMC, Theseus.
pub open spec fn launcher_from(prism: bool, polymc: bool, multimc: bool, theseus: bool) -> Option<Launcher> {
    if prism {
        Some(Launcher::Prism)
    } else if polymc {
        Some(Launcher::PolyMC)
    } else if multimc {
        Some(Launcher::MultiMC)
    } else if theseus {
        Some(Launcher::Theseus)
    } else {
        None
    }
}

/// The launcher whose marker stands in the log; the markers are tried in a
/// fixed order and the first that is found decides.
pub open spec fn launcher_of(log: Seq<char>) -> Option<Launcher> {
    launcher_from(
        pattern_matches(PRISM_MARK@, log),
        pattern_matches(POLYMC_MARK@, log),
        pattern_matches(MULTIMC_MARK@, log),
        pattern_matches(THESEUS_MARK@, log),
    )
}

/// What the Fabric patterns grab from the log.
pub open spec fn fabric_evidence(log: Seq<char>) -> Option<Option<Seq<char>>> {
    first_of(
        first_of(
            grab_of(FABRIC_BOOT@, log, VERSION_SIZE as nat),
            grab_of(FABRIC_MOD_LINE@, log, VERSION_SIZE as nat),
        ),
        grab_of(FABRIC_BRAND@, log, VERSION_SIZE as nat),
    )
}

/// What the Quilt patterns grab from the log.
pub open spec fn quilt_evidence(log: Seq<char>) -> Option<Option<Seq<char>>> {
    first_of(grab_of(QUILT_BOOT@, log, VERSION_SIZE as nat), grab_of(QUILT_BRAND@, log, VERSION_SIZE as nat))
}

/// Whether the log holds a mark of Forge.
pub open spec fn forge_evidence(log: Seq<char>) -> bool {
    pattern_matches(FORGE_PACKAGE@, log) || pattern_matches(FORGE_BRAND@, log)
}

/// Whether the log holds a mark of NeoForge.
pub open spec fn neoforge_evidence(log: Seq<char>) -> bool {
    pattern_matches(NEOFORGE_PACKAGE@, log) || pattern_matches(NEOFORGE_BRAND@, log)
}

/// The loader that the evidence speaks for: Fabric before Forge before
/// NeoForge before Quilt, the first with evidence and no other. The
/// evidence of Fabric and of Quilt holds the loader's version where the log
/// gave one.
pub open spec fn loader_from(
    fabric: Option<Option<Seq<char>>>,
    forge: bool,
    neoforge: bool,
    quilt: Option<Option<Seq<char>>>,
) -> Option<LoaderView> {
    if fabric is Some {
        Some(LoaderView::Fabric(fabric->0))
    } else if forge {
        Some(LoaderView::Forge)
    } else if neoforge {
        Some(LoaderView::NeoForge)
    } else if quilt is Some {
        Some(LoaderView::Quilt(quilt->0))
    } else {
        None
    }
}

/// The loader that the log is attributed to.
pub open spec fn loader_of(log: Seq<char>) -> Option<LoaderView> {
    loader_from(fabric_evidence(log), forge_evidence(log), neoforge_evidence(log), quilt_evidence(log))
}

/// The game version that the log names: the boot line before the server
/// line before the crash-report header, clipped to `VERSION_SIZE`.
pub open spec fn mc_version_of(log: Seq<char>) -> Option<Seq<char>> {
    match first_of(
        first_of(
            grab_of(VERSION_BOOT@, log, VERSION_SIZE as nat),
            grab_of(VERSION_SERVER@, log, VERSION_SIZE as nat),
        ),
        grab_of(VERSION_CRASH@, log, VERSION_SIZE as nat),
    ) {
        Some(Some(version)) => Some(version),
        _ => None,
    }
}

/// The mod that one match names: groups 1 and 2 as id and version.
pub open spec fn mod_of(groups: Groups) -> Option<ModView> {
    if 2 < groups.len() && groups[1] is Some && groups[2] is Some {
        Some((groups[1]->0, groups[2]->0))
    } else {
        None
    }
}

/// `mods` with `found` added at the end, unless its id is already there.
pub open spec fn with_mod(mods: Seq<ModView>, found: Option<ModView>) -> Seq<ModView> {
    match found {
        Some(m) => if has_id(mods, m.0) {
            mods
        } else {
            mods.push(m)
        },
        None => mods,
    }
}

/// `mods` with the mods of `found` added one after the other; of two mods
/// with one id the earlier stays.
pub open spec fn merged_mods(mods: Seq<ModView>, found: Seq<Groups>) -> Seq<ModView>
    decreases found.len(),
{
    if found.len() == 0 {
        mods
    } else {
        with_mod(merged_mods(mods, found.drop_last()), mod_of(found.last()))
    }
}

/// Every mod that the log mentions, in the order of discovery: list lines,
/// then key-value lines, then dependency messages, then the rows of a
/// crash report's mod table.
pub open spec fn discovered_in(log: Seq<char>) -> Seq<ModView> {
    merged_mods(
        merged_mods(
            merged_mods(
                merged_mods(Seq::empty(), all_captures_of(MODS_LISTED@, log)),
                all_captures_of(MODS_KEYED@, log),
            ),
            all_captures_of(MODS_QUOTED@, log),
        ),
        all_captures_of(MODS_TABLE@, log),
    )
}

/// The first entry of `catalog` from index `from` on whose id is `id`.
pub open spec fn catalog_entry(catalog: Seq<ModView>, id: Seq<char>, from: int) -> Option<ModView>
    decreases catalog.len() - from,
{
    if from < 0 || from >= catalog.len() {
        None
    } else if catalog[from].0 == id {
        Some(catalog[from])
    } else {
        catalog_entry(catalog, id, from + 1)
    }
}

/// The mods of `discovered` that `catalog` knows, each with its entry, in
/// the order of `discovered`.
pub open spec fn known_among(catalog: Seq<ModView>, discovered: Seq<ModView>) -> Seq<(ModView, ModView)>
    decreases discovered.len(),
{
    if discovered.len() == 0 {
        Seq::empty()
    } else {
        let before = known_among(catalog, discovered.drop_last());
        match catalog_entry(catalog, discovered.last().0, 0) {
            Some(entry) => before.push((entry, discovered.last())),
            None => before,
        }
    }
}

/// An entry found from `from` on has the id that was looked for.
pub proof fn catalog_entry_has_id(catalog: Seq<ModView>, id: Seq<char>, from: int)
    ensures
        catalog_entry(catalog, id, from) is Some ==> (catalog_entry(catalog, id, from)->0).0 == id,
    decreases catalog.len() - from,
{
    if 0 <= from < catalog.len() && catalog[from].0 != id {
        catalog_entry_has_id(catalog, id, from + 1);
    }
}

/// Adding mods one by one keeps the ids distinct.
pub proof fn merged_mods_distinct(mods: Seq<ModView>, found: Seq<Groups>)
    requires
        distinct_ids(mods),
    ensures
        distinct_ids(merged_mods(mods, found)),
    decreases found.len(),
{
    if found.len() > 0 {
        merged_mods_distinct(mods, found.drop_last());
        let before = merged_mods(mods, found.drop_last());
        let after = with_mod(before, mod_of(found.last()));
        if after != before {
            let m = mod_of(found.last())->0;
            assert(after == before.push(m));
            assert forall|i: int, j: int| 0 <= i < j < after.len() implies (#[trigger] after[i]).0 != (
            #[trigger] after[j]).0 by {
                if j == before.len() {
                    assert(after[i] == before[i]);
                } else {
                    assert(after[i] == before[i]);
                    assert(after[j] == before[j]);
                }
            }
        }
    }
}

/// The known mods are among the discovered ones, id for id, and are no more
/// than they.
pub proof fn known_within_discovered(catalog: Seq<ModView>, discovered: Seq<ModView>)
    ensures
        known_among(catalog, discovered).len() <= discovered.len(),
        forall|k: int|
            0 <= k < known_among(catalog, discovered).len() ==> {
                &&& (#[trigger] known_among(catalog, discovered)[k]).0.0 == (known_among(
                    catalog,
                    discovered,
                )[k].1).0
                &&& discovered.contains(known_among(catalog, discovered)[k].1)
                &&& has_id(discovered, (known_among(catalog, discovered)[k].0).0)
            },
    decreases discovered.len(),
{
    if discovered.len() > 0 {
        let front = discovered.drop_last();
        known_within_discovered(catalog, front);
        catalog_entry_has_id(catalog, discovered.last().0, 0);
        let before = known_among(catalog, front);
        let all = known_among(catalog, discovered);
        assert forall|k: int| 0 <= k < all.len() implies {
            &&& (#[trigger] all[k]).0.0 == (all[k].1).0
            &&& discovered.contains(all[k].1)
            &&& has_id(discovered, (all[k].0).0)
        } by {
            if k < before.len() {
                assert(all[k] == before[k]);
                let d = choose|d: int| 0 <= d < front.len() && front[d] == before[k].1;
                assert(discovered[d] == front[d]);
            } else {
                assert(all[k].1 == discovered[discovered.len() - 1]);
            }
        }
    }
}

/// The catalog of well-known mods, as ids and labels.
pub open spec fn catalog() -> Seq<ModView> {
    seq![
        ("fabric"@, "<:fabric:1246103308842700831> Fabric API"@),
        ("fabric-api"@, "<:fabric:1246103308842700831> Fabric API"@),
        ("quilt_base"@, "<:quilt:1246170627652718653> Quilt Standard Libraries"@),
        ("quilted_fabric_api"@, "<:quilt:1246170627652718653> Quilted Fabric API"@),
        ("do_a_barrel_roll"@, "<:doabarrelroll:1107712867823792210> Do a Barrel Roll"@),
        ("showmeyourskin"@, "<:showmeyourskin:1107713046987686009> Show Me Your Skin"@),
        ("rolling_down_in_the_deep"@, "<:rollingdowninthedeep:1246194315580145734> Rolling Down in the Deep"@),
        ("mini_tardis"@, "<:minitardis:1246194819739549707> Mini Tardis"@),
        ("skinshuffle"@, "<:skinshuffle:1120649582502756392> SkinShuffle"@),
        ("omnihopper"@, "<:omnihopper:1107713581446873158> Omni-Hopper"@),
        ("recursiveresources"@, "<:recursiveresources:1107713344355442799> Recursive Resources"@),
        ("shared-resources"@, "<:sharedresources:1107713221063872532> Shared Resources"@),
        ("clientpaintings"@, "<:clientpaintings:1107713678712774778> Client Paintings"@),
        ("moderate-loading-screen"@, "<:moderateloadingscreen:1107713920271122462> Mod-erate Loading Screen"@),
        ("blahaj-totem"@, "<:shork:1172685466676502559> Blåhaj of Undying"@),
        ("restart_detector"@, "<:restartdetector:1172685600000847922> Restart Detector"@),
        ("trickster"@, "<:trickster:1254515857640394876> Trickster"@),
        ("headpats"@, "<:headpats:1282096343006838825> Headpat a Friend!"@),
        ("cicada"@, "<:cicada:1246197518807863367> CICADA"@),
        ("elytratrims"@, "<:elytratrims:1246408624423702558> Elytra Trims"@),
        ("soundboard"@, "<:soundboard:1246447385362698280> Voice Chat Soundboard"@),
        ("particular"@, "<:particular:1247196807688228876> Particular"@),
        ("inventory_sort"@, "<:chaiinventorysorter:1247198105745494086> Chai's Inventory Sorter"@),
        ("wowozela"@, "<:wowozela:1254516583032819732> Wowozela"@),
        ("flightassistant"@, "<:flightassistant:1248205945494966334> FlightAssistant"@),
        ("neruina"@, "<:neruina:1247198104017571900> Neruina"@),
        ("midnightlib"@, "<:midnightlib:1247198101018513569> MidnightLib"@),
        ("zauber"@, "<:zauber:1247198102230798516> Zauber"@),
        ("owo"@, "<:owo:1246492160027656273> oωo"@),
        ("yet_another_config_lib_v3"@, "<:yacl:1248028103775752212> Yet Another Config Lib"@),
        ("optifabric"@, "<:optifabric:1246484303110606978> OptiFabric"@),
        ("bclib"@, "<:bclib:1246585932379852901> BCLib"@),
        ("feather"@, "<:feather:1247213091591028756> Feather Client"@),
    ]
}

/// The catalog of well-known mods.
pub fn scan_mods() -> (r: Vec<ScanMod>)
    ensures
        r.deep_view() == catalog(),
{
    let r = vec![
        ScanMod("fabric", "<:fabric:1246103308842700831> Fabric API"),
        ScanMod("fabric-api", "<:fabric:1246103308842700831> Fabric API"),
        ScanMod("quilt_base", "<:quilt:1246170627652718653> Quilt Standard Libraries"),
        ScanMod("quilted_fabric_api", "<:quilt:1246170627652718653> Quilted Fabric API"),
        ScanMod("do_a_barrel_roll", "<:doabarrelroll:1107712867823792210> Do a Barrel Roll"),
        ScanMod("showmeyourskin", "<:showmeyourskin:1107713046987686009> Show Me Your Skin"),
        ScanMod("rolling_down_in_the_deep", "<:rollingdowninthedeep:1246194315580145734> Rolling Down in the Deep"),
        ScanMod("mini_tardis", "<:minitardis:1246194819739549707> Mini Tardis"),
        ScanMod("skinshuffle", "<:skinshuffle:1120649582502756392> SkinShuffle"),
        ScanMod("omnihopper", "<:omnihopper:1107713581446873158> Omni-Hopper"),
        ScanMod("recursiveresources", "<:recursiveresources:1107713344355442799> Recursive Resources"),
        ScanMod("shared-resources", "<:sharedresources:1107713221063872532> Shared Resources"),
        ScanMod("clientpaintings", "<:clientpaintings:1107713678712774778> Client Paintings"),
        ScanMod("moderate-loading-screen", "<:moderateloadingscreen:1107713920271122462> Mod-erate Loading Screen"),
        ScanMod("blahaj-totem", "<:shork:1172685466676502559> Blåhaj of Undying"),
        ScanMod("restart_detector", "<:restartdetector:1172685600000847922> Restart Detector"),
        ScanMod("trickster", "<:trickster:1254515857640394876> Trickster"),
        ScanMod("headpats", "<:headpats:1282096343006838825> Headpat a Friend!"),
        ScanMod("cicada", "<:cicada:1246197518807863367> CICADA"),
        ScanMod("elytratrims", "<:elytratrims:1246408624423702558> Elytra Trims"),
        ScanMod("soundboard", "<:soundboard:1246447385362698280> Voice Chat Soundboard"),
        ScanMod("particular", "<:particular:1247196807688228876> Particular"),
        ScanMod("inventory_sort", "<:chaiinventorysorter:1247198105745494086> Chai's Inventory Sorter"),
        ScanMod("wowozela", "<:wowozela:1254516583032819732> Wowozela"),
        ScanMod("flightassistant", "<:flightassistant:1248205945494966334> FlightAssistant"),
        ScanMod("neruina", "<:neruina:1247198104017571900> Neruina"),
        ScanMod("midnightlib", "<:midnightlib:1247198101018513569> MidnightLib"),
        ScanMod("zauber", "<:zauber:1247198102230798516> Zauber"),
        ScanMod("owo", "<:owo:1246492160027656273> oωo"),
        ScanMod("yet_another_config_lib_v3", "<:yacl:1248028103775752212> Yet Another Config Lib"),
        ScanMod("optifabric", "<:optifabric:1246484303110606978> OptiFabric"),
        ScanMod("bclib", "<:bclib:1246585932379852901> BCLib"),
        ScanMod("feather", "<:feather:1247213091591028756> Feather Client"),
    ];
    assert(r.deep_view() =~= catalog());
    r
}

/// Whether some mod of `mods` has the id `id`.
pub fn contains_id(mods: &Vec<DiscoveredMod>, id: &str) -> (r: bool)
    ensures
        r == has_id(mods.deep_view(), id@),
{
    let mut i: usize = 0;
    while i < mods.len()
        invariant
            i <= mods.len(),
            forall|k: int| 0 <= k < i ==> (#[trigger] mods.deep_view()[k]).0 != id@,
        decreases mods.len() - i,
    {
        if same_text(mods[i].0.as_str(), id) {
            assert(mods.deep_view()[i as int].0 == id@);
            return true;
        }
        i += 1;
    }
    false
}

/// Adds the mods that the matches `found` name to `mods`, each unless its
/// id is already there.
pub fn merge_mods(mods: &mut Vec<DiscoveredMod>, found: &Vec<Vec<Option<String>>>)
    ensures
        final(mods).deep_view() == merged_mods(old(mods).deep_view(), found.deep_view()),
{
    let ghost start = mods.deep_view();
    let ghost all = found.deep_view();
    let mut i: usize = 0;
    assert(all.take(0).len() == 0);
    while i < found.len()
        invariant
            i <= found.len(),
            all == found.deep_view(),
            mods.deep_view() == merged_mods(start, all.take(i as int)),
        decreases found.len() - i,
    {
        let groups = &found[i];
        proof {
            assert(all.take(i as int + 1).drop_last() =~= all.take(i as int));
            assert(all.take(i as int + 1).last() == groups.deep_view());
        }
        let ghost before = mods.deep_view();
        if 2 < groups.len() {
            match (&groups[1], &groups[2]) {
                (Some(id), Some(version)) => {
                    if !contains_id(mods, id.as_str()) {
                        mods.push(DiscoveredMod(id.clone(), version.clone()));
                        assert(mods.deep_view() =~= before.push((id@, version@)));
                    }
                },
                _ => {},
            }
        }
        i += 1;
    }
    assert(all.take(i as int) =~= all);
}

/// The entry of `catalog` with the id `id`, if it has one.
pub fn find_scan_mod(catalog: &Vec<ScanMod>, id: &str) -> (r: Option<ScanMod>)
    ensures
        r.deep_view() == catalog_entry(catalog.deep_view(), id@, 0),
{
    let mut i: usize = catalog.len();
    while i > 0
        invariant
            i <= catalog.len(),
            catalog_entry(catalog.deep_view(), id@, i as int) is None,
        decreases i,
    {
        i -= 1;
        if same_text(catalog[i].0, id) {
            let mut j: usize = i;
            let mut best: usize = i;
            while j > 0
                invariant
                    j <= best < catalog.len(),
                    catalog_entry(catalog.deep_view(), id@, j as int) == Some(
                        catalog.deep_view()[best as int],
                    ),
                decreases j,
            {
                j -= 1;
                if same_text(catalog[j].0, id) {
                    best = j;
                }
            }
            return Some(catalog[best]);
        }
    }
    None
}

/// Pairs each mod of `discovered` that `catalog` knows with its entry.
pub fn resolve_known(catalog: &Vec<ScanMod>, discovered: &Vec<DiscoveredMod>) -> (r: Vec<KnownMod>)
    ensures
        r.deep_view() == known_among(catalog.deep_view(), discovered.deep_view()),
{
    let ghost all = discovered.deep_view();
    let mut known: Vec<KnownMod> = Vec::new();
    let mut i: usize = 0;
    assert(known.deep_view() =~= known_among(catalog.deep_view(), all.take(0)));
    while i < discovered.len()
        invariant
            i <= discovered.len(),
            all == discovered.deep_view(),
            known.deep_view() == known_among(catalog.deep_view(), all.take(i as int)),
        decreases discovered.len() - i,
    {
        proof {
            assert(all.take(i as int + 1).drop_last() =~= all.take(i as int));
            assert(all.take(i as int + 1).last() == discovered[i as int].deep_view());
        }
        let ghost before = known.deep_view();
        match find_scan_mod(catalog, discovered[i].0.as_str()) {
            Some(entry) => {
                known.push(KnownMod(entry, discovered[i].duplicate()));
                assert(known.deep_view() =~= before.push(
                    (entry.deep_view(), discovered[i as int].deep_view()),
                ));
            },
            None => {},
        }
        i += 1;
    }
    assert(all.take(i as int) =~= all);
    known
}

/// The launcher that the markers found speak for.
pub fn decide_launcher(prism: bool, polymc: bool, multimc: bool, theseus: bool) -> (r: Option<Launcher>)
    ensures
        r == launcher_from(prism, polymc, multimc, theseus),
{
    if prism {
        Some(Launcher::Prism)
    } else if polymc {
        Some(Launcher::PolyMC)
    } else if multimc {
        Some(Launcher::MultiMC)
    } else if theseus {
        Some(Launcher::Theseus)
    } else {
        None
    }
}

/// The launcher that started the game, by the marker it leaves in the log.
pub fn detect_launcher(log: &str) -> (r: Option<Launcher>)
    ensures
        r == launcher_of(log@),
{
    decide_launcher(
        is_match(PRISM_MARK, log),
        is_match(POLYMC_MARK, log),
        is_match(MULTIMC_MARK, log),
        is_match(THESEUS_MARK, log),
    )
}

/// The one loader that the evidence speaks for.
pub fn decide_loader(
    fabric: Option<Option<String>>,
    forge: bool,
    neoforge: bool,
    quilt: Option<Option<String>>,
) -> (r: Option<ModLoader>)
    ensures
        r.deep_view() == loader_from(fabric.deep_view(), forge, neoforge, quilt.deep_view()),
{
    if let Some(version) = fabric {
        Some(ModLoader::Fabric(version))
    } else if forge {
        Some(ModLoader::Forge)
    } else if neoforge {
        Some(ModLoader::NeoForge)
    } else if let Some(version) = quilt {
        Some(ModLoader::Quilt(version))
    } else {
        None
    }
}

/// The one mod loader that the log is attributed to.
pub fn detect_loader(log: &str) -> (r: Option<ModLoader>)
    ensures
        r.deep_view() == loader_of(log@),
{
    decide_loader(
        grab3(FABRIC_BOOT, FABRIC_MOD_LINE, FABRIC_BRAND, log, VERSION_SIZE),
        is_match(FORGE_PACKAGE, log) || is_match(FORGE_BRAND, log),
        is_match(NEOFORGE_PACKAGE, log) || is_match(NEOFORGE_BRAND, log),
        grab2(QUILT_BOOT, QUILT_BRAND, log, VERSION_SIZE),
    )
}

/// The game version that the log names.
pub fn read_mc_version(log: &str) -> (r: Option<String>)
    ensures
        r.deep_view() == mc_version_of(log@),
{
    match grab3(VERSION_BOOT, VERSION_SERVER, VERSION_CRASH, log, VERSION_SIZE) {
        Some(Some(version)) => Some(version),
        _ => None,
    }
}

/// Every mod that the log mentions, each id once, in the order of discovery.
pub fn discover_mods(log: &str) -> (r: Vec<DiscoveredMod>)
    ensures
        r.deep_view() == discovered_in(log@),
        distinct_ids(r.deep_view()),
{
    let mut mods: Vec<DiscoveredMod> = Vec::new();
    assert(mods.deep_view() =~= Seq::<ModView>::empty());
    merge_mods(&mut mods, &all_captures(MODS_LISTED, log));
    merge_mods(&mut mods, &all_captures(MODS_KEYED, log));
    merge_mods(&mut mods, &all_captures(MODS_QUOTED, log));
    merge_mods(&mut mods, &all_captures(MODS_TABLE, log));
    proof {
        let a = merged_mods(Seq::empty(), all_captures_of(MODS_LISTED@, log@));
        let b = merged_mods(a, all_captures_of(MODS_KEYED@, log@));
        let c = merged_mods(b, all_captures_of(MODS_QUOTED@, log@));
        merged_mods_distinct(Seq::empty(), all_captures_of(MODS_LISTED@, log@));
        merged_mods_distinct(a, all_captures_of(MODS_KEYED@, log@));
        merged_mods_distinct(b, all_captures_of(MODS_QUOTED@, log@));
        merged_mods_distinct(c, all_captures_of(MODS_TABLE@, log@));
    }
    mods
}

/// The environment that the log describes.
pub open spec fn environment_of(log: Seq<char>, map_status: MapStatus) -> EnvironmentView {
    EnvironmentView {
        launcher: launcher_of(log),
        mc_version: mc_version_of(log),
        loader: loader_of(log),
        discovered_mods: discovered_in(log),
        known_mods: known_among(catalog(), discovered_in(log)),
        map_status,
    }
}

/// Reads the environment out of a log. Nothing is an error: what the log
/// does not tell stays empty.
pub fn get_environment_info(log: &str, map_status: MapStatus) -> (r: EnvironmentContext)
    ensures
        r.deep_view() == environment_of(log@, map_status),
        r.deep_view().wf(),
{
    let launcher = detect_launcher(log);
    let loader = detect_loader(log);
    let mc_version = read_mc_version(log);
    let discovered_mods = discover_mods(log);
    let entries = scan_mods();
    let known_mods = resolve_known(&entries, &discovered_mods);
    proof {
        known_within_discovered(catalog(), discovered_in(log@));
    }
    EnvironmentContext { launcher, mc_version, loader, discovered_mods, known_mods, map_status }
}

/// The number of loaders that an environment is attributed to.
pub open spec fn loaders_set(loader: Option<LoaderView>) -> nat {
    let fabric: nat = if loader is Some && loader->0 is Fabric { 1 } else { 0 };
    let forge: nat = if loader is Some && loader->0 is Forge { 1 } else { 0 };
    let neoforge: nat = if loader is Some && loader->0 is NeoForge { 1 } else { 0 };
    let quilt: nat = if loader is Some && loader->0 is Quilt { 1 } else { 0 };
    fabric + forge + neoforge + quilt
}

/// Whatever the evidence, an environment is attributed to at most one
/// loader: to none where there is no evidence, and to a loader of lower
/// priority only where none of higher priority left evidence.
pub proof fn loader_is_exclusive(
    fabric: Option<Option<Seq<char>>>,
    forge: bool,
    neoforge: bool,
    quilt: Option<Option<Seq<char>>>,
)
    ensures
        loaders_set(loader_from(fabric, forge, neoforge, quilt)) <= 1,
        loader_from(fabric, forge, neoforge, quilt) is None <==> loaders_set(
            loader_from(fabric, forge, neoforge, quilt),
        ) == 0,
        loader_from(fabric, forge, neoforge, quilt) is None <==> fabric is None && !forge && !neoforge
            && quilt is None,
        fabric is Some <==> loader_from(fabric, forge, neoforge, quilt) == Some(
            LoaderView::Fabric(fabric->0),
        ),
        loader_from(fabric, forge, neoforge, quilt) == Some(LoaderView::Forge) <==> fabric is None
            && forge,
        loader_from(fabric, forge, neoforge, quilt) == Some(LoaderView::NeoForge) <==> fabric is None
            && !forge && neoforge,
        quilt is Some && fabric is None && !forge && !neoforge <==> loader_from(
            fabric,
            forge,
            neoforge,
            quilt,
        ) == Some(LoaderView::Quilt(quilt->0)) && quilt is Some,
{
}

/// The loader of a log is the one its evidence speaks for, so every log is
/// attributed to at most one loader.
pub proof fn loader_of_log_is_exclusive(log: Seq<char>)
    ensures
        loaders_set(loader_of(log)) <= 1,
{
    loader_is_exclusive(fabric_evidence(log), forge_evidence(log), neoforge_evidence(log), quilt_evidence(log));
}

pub const PRISM_EMOJI: &'static str = "<:prism:1246451647677468714>";

pub const POLYMC_EMOJI: &'static str = "<:polymc:1246451649212448860>";

pub const MULTIMC_EMOJI: &'static str = "<:multimc:1246451644342865992>";

pub const VANILLA_EMOJI: &'static str = "<:minecraft:1246451645441642496>";

pub const CURSEFORGE_EMOJI: &'static str = "<:curseforge:1246451646909911141>";

pub const THESEUS_EMOJI: &'static str = "<:modrinth:1255163992658149376>";

pub const FABRIC_EMOJI: &'static str = "<:fabric:1246103308842700831>";

pub const FORGE_EMOJI: &'static str = "<:forge:1246170624364380221>";

pub const NEOFORGE_EMOJI: &'static str = "<:neoforge:1246170626159415326>";

pub const QUILT_EMOJI: &'static str = "<:quilt:1246170627652718653>";

impl Launcher {
    /// The emoji tag that stands for a launcher.
    pub open spec fn emoji(self) -> Seq<char> {
        match self {
            Launcher::Prism => PRISM_EMOJI@,
            Launcher::PolyMC => POLYMC_EMOJI@,
            Launcher::MultiMC => MULTIMC_EMOJI@,
            Launcher::Vanilla => VANILLA_EMOJI@,
            Launcher::CurseForge => CURSEFORGE_EMOJI@,
            Launcher::Theseus => THESEUS_EMOJI@,
        }
    }

    /// The emoji tag that stands for this launcher.
    pub fn label(&self) -> (r: &'static str)
        ensures
            r@ == self.emoji(),
    {
        match self {
            Launcher::Prism => PRISM_EMOJI,
            Launcher::PolyMC => POLYMC_EMOJI,
            Launcher::MultiMC => MULTIMC_EMOJI,
            Launcher::Vanilla => VANILLA_EMOJI,
            Launcher::CurseForge => CURSEFORGE_EMOJI,
            Launcher::Theseus => THESEUS_EMOJI,
        }
    }
}

/// An emoji tag, followed by the version between backticks where there is
/// one.
pub open spec fn tagged(emoji: Seq<char>, version: Option<Seq<char>>) -> Seq<char> {
    match version {
        Some(v) => emoji + " `"@ + v + "`"@,
        None => emoji,
    }
}

/// How a loader is shown: its emoji tag, and its version where it is known.
pub open spec fn loader_label(loader: LoaderView) -> Seq<char> {
    match loader {
        LoaderView::Fabric(version) => tagged(FABRIC_EMOJI@, version),
        LoaderView::Forge => FORGE_EMOJI@,
        LoaderView::NeoForge => NEOFORGE_EMOJI@,
        LoaderView::Quilt(version) => tagged(QUILT_EMOJI@, version),
    }
}

/// Writes an emoji tag and, where there is one, the version behind it.
fn tag(emoji: &str, version: &Option<String>) -> (r: String)
    ensures
        r@ == tagged(emoji@, version.deep_view()),
{
    match version {
        Some(v) => String::from_str(emoji).concat(" `").concat(v.as_str()).concat("`"),
        None => String::from_str(emoji),
    }
}

impl ModLoader {
    /// How this loader is shown.
    pub fn label(&self) -> (r: String)
        ensures
            r@ == loader_label(self.deep_view()),
    {
        match self {
            ModLoader::Fabric(version) => tag(FABRIC_EMOJI, version),
            ModLoader::Forge => String::from_str(FORGE_EMOJI),
            ModLoader::NeoForge => String::from_str(NEOFORGE_EMOJI),
            ModLoader::Quilt(version) => tag(QUILT_EMOJI, version),
        }
    }
}

/// The line on the launcher, where it is known.
pub open spec fn launcher_line(launcher: Option<Launcher>) -> Seq<char> {
    match launcher {
        Some(l) => "**Launcher:** "@ + l.emoji() + "\n"@,
        None => Seq::empty(),
    }
}

/// The line on the game version, where it is known.
pub open spec fn version_line(version: Option<Seq<char>>) -> Seq<char> {
    match version {
        Some(v) => "**Minecraft:** `"@ + v + "`\n"@,
        None => Seq::empty(),
    }
}

/// The line on the loader, where it is known.
pub open spec fn loader_line(loader: Option<LoaderView>) -> Seq<char> {
    match loader {
        Some(l) => "**Loader:** "@ + loader_label(l) + "\n"@,
        None => Seq::empty(),
    }
}

/// The line on remapping, where the log was remapped.
pub open spec fn remap_line(status: MapStatus) -> Seq<char> {
    match status {
        MapStatus::Mapped(took) => "**Remapped in:** `"@ + decimal_of(took as nat) + "ms`\n"@,
        _ => Seq::empty(),
    }
}

/// One line for each known mod: its label and, between backticks, the
/// version that was discovered.
pub open spec fn known_lines(known: Seq<(ModView, ModView)>) -> Seq<char>
    decreases known.len(),
{
    if known.len() == 0 {
        Seq::empty()
    } else {
        known_lines(known.drop_last()) + "- "@ + (known.last().0).1 + " `"@ + (known.last().1).1 + "`\n"@
    }
}

/// The block on the mods, where some are known: a heading, the known mods,
/// and the number of discovered mods that are not known.
pub open spec fn mods_block(discovered: nat, known: Seq<(ModView, ModView)>) -> Seq<char> {
    if known.len() > 0 {
        "\n**Detected Mods:**\n"@ + known_lines(known) + "- and "@ + decimal_of(
            (discovered - known.len()) as nat,
        ) + " more...\n"@
    } else {
        Seq::empty()
    }
}

/// The summary of an environment, line by line.
pub open spec fn summary_of(env: EnvironmentView) -> Seq<char> {
    launcher_line(env.launcher) + version_line(env.mc_version) + loader_line(env.loader) + remap_line(
        env.map_status,
    ) + mods_block(env.discovered_mods.len(), env.known_mods)
}

impl EnvironmentContext {
    /// The line on the launcher.
    fn launcher_text(&self) -> (r: String)
        ensures
            r@ == launcher_line(self.launcher),
    {
        match &self.launcher {
            Some(l) => String::from_str("**Launcher:** ").concat(l.label()).concat("\n"),
            None => String::new(),
        }
    }

    /// The line on the game version.
    fn version_text(&self) -> (r: String)
        ensures
            r@ == version_line(self.mc_version.deep_view()),
    {
        match &self.mc_version {
            Some(v) => String::from_str("**Minecraft:** `").concat(v.as_str()).concat("`\n"),
            None => String::new(),
        }
    }

    /// The line on the loader.
    fn loader_text(&self) -> (r: String)
        ensures
            r@ == loader_line(self.loader.deep_view()),
    {
        match &self.loader {
            Some(l) => String::from_str("**Loader:** ").concat(l.label().as_str()).concat("\n"),
            None => String::new(),
        }
    }

    /// The line on remapping.
    fn remap_text(&self) -> (r: String)
        ensures
            r@ == remap_line(self.map_status),
    {
        match self.map_status {
            MapStatus::Mapped(took) => String::from_str("**Remapped in:** `").concat(
                decimal(took).as_str(),
            ).concat("ms`\n"),
            _ => String::new(),
        }
    }

    /// One line for each known mod.
    fn known_text(&self) -> (r: String)
        ensures
            r@ == known_lines(self.known_mods.deep_view()),
    {
        let ghost all = self.known_mods.deep_view();
        let mut text = String::new();
        let mut i: usize = 0;
        assert(all.take(0).len() == 0);
        while i < self.known_mods.len()
            invariant
                i <= self.known_mods.len(),
                all == self.known_mods.deep_view(),
                text@ == known_lines(all.take(i as int)),
            decreases self.known_mods.len() - i,
        {
            proof {
                assert(all.take(i as int + 1).drop_last() =~= all.take(i as int));
                assert(all.take(i as int + 1).last() == self.known_mods[i as int].deep_view());
            }
            let known = &self.known_mods[i];
            text = text.concat("- ").concat(known.0.1).concat(" `").concat(known.1.1.as_str()).concat("`\n");
            i += 1;
        }
        assert(all.take(i as int) =~= all);
        text
    }

    /// The block on the mods.
    fn mods_text(&self) -> (r: String)
        requires
            self.known_mods.len() <= self.discovered_mods.len(),
        ensures
            r@ == mods_block(self.discovered_mods.deep_view().len(), self.known_mods.deep_view()),
    {
        if self.known_mods.len() > 0 {
            let more: usize = self.discovered_mods.len() - self.known_mods.len();
            String::from_str("\n**Detected Mods:**\n").concat(self.known_text().as_str()).concat(
                "- and ",
            ).concat(decimal(more as u128).as_str()).concat(" more...\n")
        } else {
            String::new()
        }
    }

    /// The summary of the environment as it is shown: a line each for
    /// launcher, game version, loader and remapping, as far as they are
    /// known, and the known mods with the number of the others.
    pub fn summary(&self) -> (r: String)
        requires
            self.known_mods.len() <= self.discovered_mods.len(),
        ensures
            r@ == summary_of(self.deep_view()),
    {
        self.launcher_text().concat(self.version_text().as_str()).concat(self.loader_text().as_str()).concat(
            self.remap_text().as_str(),
        ).concat(self.mods_text().as_str())
    }
}

} // verus!

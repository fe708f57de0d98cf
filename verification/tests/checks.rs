use log_checking::checks::{
    bclib, broken_cicada_config, broken_modmenu, check_checks, class_missing_generic, crash_generic,
    crash_report_analysis, datapacks_failed, dependency_generic, disk_full, duck_fail, failed_registry,
    feather, frozen_registry, indium, java, jdk, match_java_classfile_version, mcreator, missing_field,
    mixin_conflicts, optifabric, polymc, quilt, resource_files,
};
use log_checking::environment::{get_environment_info, EnvironmentContext, Launcher, MapStatus, ModLoader};
use log_checking::report::{CheckReport, Severity};

fn env(log: &str) -> EnvironmentContext {
    get_environment_info(log, MapStatus::Unmapped)
}

fn bare() -> EnvironmentContext {
    env("")
}

fn check(found: Option<CheckReport>, title: &str, description: &str, severity: Severity) {
    let report = found.expect("a finding");
    assert_eq!(report.title, title);
    assert_eq!(report.description, description);
    assert_eq!(report.severity, severity);
}

#[test]
fn out_of_memory_gives_one_high_finding() {
    let log = "Exception in thread \"main\" java.lang.OutOfMemoryError: Java heap space\n";
    let found = check_checks(log, &env(log));
    assert_eq!(found.len(), 1);
    assert_eq!(found[0].title, "Out of memory");
    assert_eq!(found[0].severity, Severity::High);
    assert_eq!(
        found[0].description,
        "The game crashed because it ran out of memory. Consider allocating extra memory to the game or removing big content mods to save on memory usage."
    );
}

#[test]
fn crash_report_head_is_summarised() {
    let log = "---- Minecraft Crash Report ----\n// Oops.\n\nTime: 2024-01-01 10:00:00\nDescription: Ticking entity\n\njava.lang.NullPointerException: boom\n\tat a.b.c(Unknown Source)\n";
    check(
        crash_report_analysis(log, &bare()),
        "Crash report analysis",
        "Context: `Ticking entity`\n```\njava.lang.NullPointerException: boom\n```",
        Severity::High,
    );
}

#[test]
fn crash_banner_gives_its_next_line() {
    let log = "Minecraft has crashed!\njava.lang.IllegalStateException: bad\nmore\n";
    check(
        crash_report_analysis(log, &bare()),
        "Crash detected",
        "```java.lang.IllegalStateException: bad```",
        Severity::High,
    );
    let other = "Unreported exception thrown!\njava.lang.Error: worse\n";
    check(crash_report_analysis(other, &bare()), "Crash detected", "```java.lang.Error: worse```", Severity::High);
}

#[test]
fn saved_crash_report_without_details() {
    let log = "#@!@# Game crashed! Crash report saved to: x\nThis crash report has been saved to: /tmp/x.txt";
    check(
        crash_report_analysis(log, &bare()),
        "Crash detected",
        "No details could be determined automatically.",
        Severity::High,
    );
    assert!(crash_report_analysis("all is well", &bare()).is_none());
}

#[test]
fn long_crash_line_is_clipped() {
    let line = "x".repeat(600);
    let log = format!("Minecraft has crashed!\n{}\n", line);
    let report = crash_report_analysis(&log, &bare()).expect("a finding");
    assert_eq!(report.description, format!("```{}...```", "x".repeat(509)));
}

#[test]
fn missing_dependency_in_three_phrasings() {
    let between = "Mod 'Sodium Extra' (sodium-extra) 0.5.4 requires any version between 0.5.0 and 0.6.0 of sodium, which is missing!";
    check(
        dependency_generic(between, &bare()),
        "Missing dependency",
        "The `Sodium Extra` mod needs `sodium` to be installed, but it is missing.",
        Severity::High,
    );
    let later = "Mod 'Iris' (iris) 1.6.4 requires version 0.5.0 or later of sodium, which is missing!";
    check(
        dependency_generic(later, &bare()),
        "Missing dependency",
        "The `Iris` mod needs `sodium` to be installed, but it is missing.",
        Severity::High,
    );
    let any = "Mod 'Mod Menu' (modmenu) 7.0.0 requires any version of fabric-api, which is missing!";
    check(
        dependency_generic(any, &bare()),
        "Missing dependency",
        "The `Mod Menu` mod needs `fabric-api` to be installed, but it is missing.",
        Severity::High,
    );
}

#[test]
fn explicit_incompatibility_is_reported() {
    let log = "Mod 'Alpha' (alpha) 1.0.0 is incompatible with any 2.x version of mod 'Beta' (beta), but a matching version is present: 2.1.0!";
    check(
        dependency_generic(log, &bare()),
        "Explicit incompatibility",
        "The `Alpha` mod is incompatible with version `2.1.0` of the `Beta` mod. Remove either mod, or try updating `Beta` if possible.",
        Severity::High,
    );
    assert!(dependency_generic("Mod 'Alpha' is fine", &bare()).is_none());
}

#[test]
fn watchdog_comes_before_out_of_memory() {
    let log = "java.lang.OutOfMemoryError: heap\njava.lang.Error: Watchdog\n";
    let report = crash_generic(log, &bare()).expect("a finding");
    assert_eq!(report.title, "Watchdog crash");
    assert_eq!(report.severity, Severity::High);
}

#[test]
fn mixin_findings_of_crash_generic() {
    let config = "java.lang.RuntimeException: Error creating Mixin config broken.mixins.json for mod brokenmod";
    check(
        crash_generic(config, &bare()),
        "Invalid mixin config",
        "The mod `brokenmod` is providing an invalid mixin config and cannot load in its current state, consider removing or updating it.",
        Severity::High,
    );
    let accessor = "InvalidAccessorException: No candidates were found matching foo in bar for some.mixins.json:FooAccessor from mod examplemod";
    check(
        crash_generic(accessor, &bare()),
        "Mixin inject failed",
        "Mixin `FooAccessor` from mod `examplemod` has failed to apply. It is possible that `examplemod` is not compatible with this Minecraft version, consider double-checking its version.",
        Severity::High,
    );
    let apply = "MixinApplyError: Mixin [a.mixins.json:FooMixin from mod amod] from phase [DEFAULT] in config [a.mixins.json] FAILED during APPLY";
    check(
        crash_generic(apply, &bare()),
        "Mixin error",
        "The mod `amod` has encountered a mixin error, this may be caused by a mismatch in Minecraft version or a mod incompatibility. Further investigation is required.",
        Severity::High,
    );
    let entry = "java.lang.RuntimeException: Could not execute entrypoint stage 'main' due to errors, provided by 'somemod'!";
    check(
        crash_generic(entry, &bare()),
        "Entrypoint error",
        "The mod `somemod` has encountered an error in it's entrypoint, though it may not have caused it. Further investigation is required.",
        Severity::High,
    );
    assert!(crash_generic("a quiet log", &bare()).is_none());
}

#[test]
fn mixin_collision_names_both_mods() {
    let log = "InvalidInjectionException: @Inject on foo with priority 1000 cannot inject into bar merged by com.first.mixin.FooMixin with priority 1000 [PREINJECT Applicator Phase -> second.mixins.json:BarMixin from mod second ->";
    check(
        crash_generic(log, &bare()),
        "Mixin conflict",
        "A mixin from the mod `second` collided with one from `com.first`, these mods may be incompatible.",
        Severity::High,
    );
}

#[test]
fn redirect_conflicts_are_listed_once_each() {
    let line = "@Redirect conflict. Skipping a.mixins.json:AMixin from mod alpha->@Redirect::x()V with priority 1000, already redirected by b.mixins.json:BMixin from mod beta->@Redirect::x()V with priority 1000";
    let other = "@Redirect conflict. Skipping c.mixins.json:CMixin from mod gamma->@Redirect::y()V with priority 1000, already redirected by b.mixins.json:BMixin from mod beta->@Redirect::y()V with priority 1000";
    let log = format!("{}\n{}\n{}\n", line, other, line);
    check(
        mixin_conflicts(&log, &bare()),
        "Mixin conflicts",
        "Mixins from the mods below are conflicting, this may cause unintentional behaviour or broken features.\n- `alpha` <-> `beta`\n- `gamma` <-> `beta`\n",
        Severity::Medium,
    );
    assert!(mixin_conflicts("no conflict", &bare()).is_none());
}

#[test]
fn only_the_first_seven_redirect_conflicts_count() {
    let mut log = String::new();
    for i in 0..9 {
        log.push_str(&format!("@Redirect conflict. Skipping a.mixins.json:AMixin from mod m{}->@Redirect::x()V with priority 1000, already redirected by b.mixins.json:BMixin from mod beta->@Redirect::x()V with priority 1000\n", i));
    }
    let report = mixin_conflicts(&log, &bare()).expect("a finding");
    assert_eq!(report.description.matches("<->").count(), 7);
    assert!(report.description.contains("- `m6` <-> `beta`\n"));
    assert!(!report.description.contains("`m7`"));
}

#[test]
fn duck_interface_failure() {
    let log = "java.lang.AbstractMethodError: Receiver class net.minecraft.class_1 does not define or inherit an implementation of the resolved method 'void foo()' of interface com.example.duck.FooDuck.";
    check(
        duck_fail(log, &bare()),
        "Duck interface failed",
        "A duck interface from the `com.example.duck` package has failed to properly inject, this may indicate a broken mod or compatibility issue.",
        Severity::High,
    );
    assert!(duck_fail("fine", &bare()).is_none());
}

#[test]
fn missing_classes_are_listed_by_package() {
    let log = "java.lang.ClassNotFoundException: com.a.Foo\njava.lang.ClassNotFoundException: com.b.Bar\njava.lang.ClassNotFoundException: com.a.Baz\n";
    check(
        class_missing_generic(log, &bare()),
        "Missing classes",
        "Classes from the packages below failed to load, this may be an indicator of missing dependencies or outdated mods.\n- `com.a`\n- `com.b`\n",
        Severity::Medium,
    );
    assert!(class_missing_generic("fine", &bare()).is_none());
}

#[test]
fn only_the_first_fifteen_missing_classes_count() {
    let mut log = String::new();
    for i in 0..20 {
        log.push_str(&format!("java.lang.ClassNotFoundException: pkg{}.Foo\n", i));
    }
    let report = class_missing_generic(&log, &bare()).expect("a finding");
    assert_eq!(report.description.matches("- `").count(), 15);
    assert!(report.description.contains("- `pkg14`\n"));
    assert!(!report.description.contains("pkg15"));
}

#[test]
fn broken_config_screens_are_listed() {
    let log = "Mod foo provides a broken implementation of ModMenuApi\nMod bar provides a broken implementation of ModMenuApi\n";
    check(
        broken_modmenu(log, &bare()),
        "Broken config screens",
        "The mods below have broken config screen implementations. You may need to install an additional dependency such as [Cloth Config](https://modrinth.com/mod/cloth-config) or [YACL](https://modrinth.com/mod/yacl) to be able to change their settings.\n- `foo`\n- `bar`\n",
        Severity::Medium,
    );
}

#[test]
fn registry_findings() {
    let frozen = "java.lang.IllegalStateException: Registry is already frozen (trying to add key ResourceKey[minecraft:item / examplemod:thing])";
    check(
        frozen_registry(frozen, &bare()),
        "Frozen registry accessed",
        "A mod with the `examplemod` namespace tried to modify a frozen registry. This may indicate a broken mod or conflict.",
        Severity::High,
    );
    check(
        failed_registry("Failed to load registries due to above errors", &bare()),
        "Critical registry failure",
        "One or more registries experienced critical loading failures, this may be related to broken resource files.",
        Severity::High,
    );
    assert!(failed_registry("fine", &bare()).is_none());
}

#[test]
fn class_file_versions_map_to_releases() {
    assert_eq!(match_java_classfile_version("49.0"), Some("5"));
    assert_eq!(match_java_classfile_version("52.0"), Some("8"));
    assert_eq!(match_java_classfile_version("61.0"), Some("17"));
    assert_eq!(match_java_classfile_version("65.0"), Some("21"));
    assert_eq!(match_java_classfile_version("66.0"), None);
    assert_eq!(match_java_classfile_version("48.0"), None);
    assert_eq!(match_java_classfile_version("52"), None);
    assert_eq!(match_java_classfile_version(""), None);
}

#[test]
fn java_release_by_the_loaders_advice() {
    let log = "\t - Replace 'Java' (java) 17 with version 21 or later.";
    check(
        java(log, &bare()),
        "Incorrect Java version",
        "A mod or Minecraft itself requires Java 21 to be used, but an older version, Java 17 is being used instead. You may have to [download](https://adoptium.net/temurin/releases/?version=21) a newer Java version and/or select it in your launcher.",
        Severity::High,
    );
}

#[test]
fn java_release_by_class_file_version() {
    let log = "java.lang.UnsupportedClassVersionError: com/example/Foo has been compiled by a more recent version of the Java Runtime (class file version 61.0), this version of the Java Runtime only recognizes class file versions up to 52.0";
    check(
        java(log, &bare()),
        "Incorrect Java version",
        "A mod or Minecraft itself requires Java 17 to be used, but an older version, Java 8 is being used instead. You may have to [download](https://adoptium.net/temurin/releases/?version=17) a newer Java version and/or select it in your launcher.",
        Severity::High,
    );
    let unknown = "java.lang.UnsupportedClassVersionError: com/example/Foo has been compiled by a more recent version of the Java Runtime (class file version 99.0), this version of the Java Runtime only recognizes class file versions up to 52.0";
    check(
        java(unknown, &bare()),
        "Incorrect Java version",
        "A mod or Minecraft itself requires a different version of Java from the one that is available. You may have to [download](https://adoptium.net/temurin/releases/) a newer Java version and/or select it in your launcher.",
        Severity::High,
    );
    assert!(java("fine", &bare()).is_none());
}

#[test]
fn jre_in_place_of_jdk() {
    let log = "java.lang.IllegalStateException: No compatible attachment provider is available\n\t- java 17\n";
    check(
        jdk(log, &env(log)),
        "JRE used instead of JDK",
        "A mod or Minecraft itself requires the use of a JDK type distribution of Java instead of the used JRE type. You may have to [download](https://adoptium.net/temurin/releases/?version=17) a JDK type Java version and/or select it in your launcher.",
        Severity::High,
    );
    let plain = "java.lang.IllegalStateException: No compatible attachment provider is available";
    check(
        jdk(plain, &env(plain)),
        "JRE used instead of JDK",
        "A mod or Minecraft itself requires the use of a JDK type distribution of Java instead of the used JRE type. You may have to [download](https://adoptium.net/temurin/releases/) a JDK type Java version and/or select it in your launcher.",
        Severity::High,
    );
    assert!(jdk("\n\t- java 17\n", &env("\n\t- java 17\n")).is_none());
}

#[test]
fn simple_markers() {
    check(
        broken_cicada_config(
            "[cicada] Failed to parse config file, backing up and overwriting with default config: config/foo.json",
            &bare(),
        ),
        "Broken config file",
        "The config file below has failed to load. It has been backed up and reverted to its original state.\n```config/foo.json```",
        Severity::Medium,
    );
    let field = missing_field("java.lang.NoSuchFieldError: field_1234", &bare()).expect("a finding");
    assert_eq!(field.title, "Field missing error");
    assert_eq!(field.severity, Severity::High);
    check(
        datapacks_failed(
            "Failed to load datapacks, can't proceed with server load. You can either fix your datapacks or reset to vanilla",
            &bare(),
        ),
        "Datapack loading failed",
        "The server couldn't load datapack resources, further investigation is required.",
        Severity::High,
    );
    check(
        disk_full("java.io.IOException: No space left on device", &bare()),
        "Full storage",
        "The game cannot save certain data, your storage drive might be full.",
        Severity::High,
    );
    let renderer = "Cannot invoke \"x\" because the return value of \"net.fabricmc.fabric.api.renderer.v1.RendererAccess.getRenderer()\" is null";
    let found = indium(renderer, &bare()).expect("a finding");
    assert_eq!(found.title, "Missing Indium");
    assert_eq!(found.severity, Severity::High);
    assert!(indium("fine", &bare()).is_none());
    assert!(disk_full("fine", &bare()).is_none());
    assert!(missing_field("fine", &bare()).is_none());
}

#[test]
fn broken_resource_files_are_listed() {
    let log = "Failed to parse examplemod:recipes/a.json from pack examplemod\nFailed to parse other:tags/b.json from pack other\n";
    check(
        resource_files(log, &bare()),
        "Broken resource files",
        "The resource or datapack files below failed to load. The mods they originate from might be out of date.\n- `examplemod:recipes/a.json`\n- `other:tags/b.json`\n",
        Severity::Medium,
    );
}

#[test]
fn mcreator_mods_are_named() {
    let log = "\tat net.mcreator.coolmod.procedures.Foo.execute(Foo.java:10)";
    let found = mcreator(log, &bare()).expect("a finding");
    assert_eq!(found.title, "MCreator mod issue");
    assert_eq!(found.severity, Severity::Medium);
    assert!(found.description.starts_with("The mod `coolmod` is being mentioned in an error message."));
    assert!(found.description.ends_with("Consider removing this mod to alleviate potential issues."));
}

#[test]
fn advisories_from_the_environment() {
    let mut ctx = bare();
    assert!(quilt("", &ctx).is_none());
    assert!(polymc("", &ctx).is_none());
    ctx.loader = Some(ModLoader::Quilt(None));
    ctx.launcher = Some(Launcher::PolyMC);
    let q = quilt("", &ctx).expect("a finding");
    assert_eq!(q.title, "Quilt detected");
    assert_eq!(q.severity, Severity::Info);
    let p = polymc("", &ctx).expect("a finding");
    assert_eq!(p.title, "PolyMC detected");
    assert_eq!(p.severity, Severity::Medium);
    ctx.loader = Some(ModLoader::Fabric(None));
    ctx.launcher = Some(Launcher::Prism);
    assert!(quilt("", &ctx).is_none());
    assert!(polymc("", &ctx).is_none());
}

#[test]
fn advisories_from_known_mods() {
    let log = "mods:\n\t- optifabric 1.13\n\t- bclib 3.0\n\t- feather 1.0\n";
    let ctx = env(log);
    let o = optifabric(log, &ctx).expect("a finding");
    assert_eq!(o.title, "OptiFabric detected");
    assert_eq!(o.severity, Severity::High);
    let b = bclib(log, &ctx).expect("a finding");
    assert_eq!(b.title, "BCLib detected");
    assert_eq!(b.severity, Severity::Medium);
    let f = feather(log, &ctx).expect("a finding");
    assert_eq!(f.title, "Feather Client detected");
    assert_eq!(f.severity, Severity::Medium);
    assert!(optifabric("", &bare()).is_none());
    assert!(bclib("", &bare()).is_none());
    assert!(feather("", &bare()).is_none());
    let by_text = "at me.modmuss50.optifabric.mod.Foo";
    assert!(optifabric(by_text, &bare()).is_some());
}

#[test]
fn findings_come_in_declared_order() {
    let log = "java.lang.NoSuchFieldError: x\njava.io.IOException: No space left on device\njava.lang.Error: Watchdog\nLoading Minecraft 1.20.1 with Quilt Loader 0.23.1\n";
    let found = check_checks(log, &env(log));
    let titles: Vec<&str> = found.iter().map(|r| r.title.as_str()).collect();
    assert_eq!(titles, vec!["Watchdog crash", "Field missing error", "Full storage", "Quilt detected"]);
}

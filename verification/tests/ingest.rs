use log_checking::cache::MappingsCache;
use log_checking::environment::MapStatus;
use log_checking::ingest::{
    admit_attachment, fetched_log_labels, find_urls, has_suffix, is_gzip, is_valid_log, map_status,
    plan_reupload, try_remap, Disposition, IngestError, LogType, RemapOutcome, MAX_LOG_SIZE, MCLOGS_LINK,
    PASTEBIN_LINK, PASTE_GG_LINK,
};
use log_checking::mappings::parse_mappings;
use log_checking::text::decimal;

fn link(a: &str, b: &str) -> (String, String) {
    (a.to_string(), b.to_string())
}

#[test]
fn numbers_in_decimal() {
    assert_eq!(decimal(0), "0");
    assert_eq!(decimal(7), "7");
    assert_eq!(decimal(10), "10");
    assert_eq!(decimal(1234567890), "1234567890");
    assert_eq!(decimal(u128::MAX), "340282366920938463463374607431768211455");
}

#[test]
fn titles_name_the_log_and_the_time() {
    assert_eq!(LogType::Uploaded.title_format("latest.log", 12), "Uploaded latest.log in 12ms");
    assert_eq!(LogType::Reuploaded.title_format("abc", 0), "Reuploaded abc in 0ms");
    assert_eq!(LogType::Downloaded.title_format("x", 1500), "Scanned x in 1500ms");
}

#[test]
fn oversized_attachments_are_rejected() {
    assert_eq!(admit_attachment(0), Ok(()));
    assert_eq!(admit_attachment(MAX_LOG_SIZE), Ok(()));
    assert_eq!(
        admit_attachment(MAX_LOG_SIZE + 1),
        Err(IngestError::TooLarge { size: 8_000_001, limit: 8_000_000 })
    );
    assert_eq!(
        admit_attachment(u32::MAX),
        Err(IngestError::TooLarge { size: u32::MAX, limit: 8_000_000 })
    );
}

#[test]
fn logs_are_taken_by_size_and_extension() {
    let allowed = vec![".log".to_string(), ".txt".to_string()];
    assert!(is_valid_log(10, "latest.log", &allowed));
    assert!(is_valid_log(999_999, "crash.txt", &allowed));
    assert!(!is_valid_log(1_000_000, "crash.txt", &allowed));
    assert!(!is_valid_log(10, "image.png", &allowed));
    assert!(!is_valid_log(10, "log", &allowed));
    assert!(!is_valid_log(10, "latest.log", &vec![]));
    assert!(has_suffix("abc", ""));
    assert!(has_suffix("abc", "abc"));
    assert!(!has_suffix("bc", "abc"));
    assert!(!has_suffix("abd", "bc"));
}

#[test]
fn gzip_is_told_by_the_extension() {
    assert!(is_gzip("latest.log.gz"));
    assert!(is_gzip("2024-01-01-1.log.GZ"));
    assert!(is_gzip("a.Gz"));
    assert!(is_gzip("dir.d/a.gz"));
    assert!(!is_gzip("latest.log"));
    assert!(!is_gzip("gz"));
    assert!(!is_gzip(".gz"));
    assert!(!is_gzip("dir/.gz"));
    assert!(!is_gzip("a.gz/b"));
    assert!(!is_gzip("a.gzip"));
    assert!(!is_gzip("a.g"));
    assert!(!is_gzip(""));
}

#[test]
fn paste_links_are_found() {
    let message = "see https://mclo.gs/AbC123 and https://mclo.gs/zzz9, also https://pastebin.com/Qwerty1 or https://paste.gg/p/someone/0a1b2c";
    assert_eq!(
        find_urls(MCLOGS_LINK, message),
        vec![link("https://mclo.gs/AbC123", "AbC123"), link("https://mclo.gs/zzz9", "zzz9")]
    );
    assert_eq!(find_urls(PASTEBIN_LINK, message), vec![link("https://pastebin.com/Qwerty1", "Qwerty1")]);
    assert_eq!(find_urls(PASTE_GG_LINK, message), vec![link("https://paste.gg/p/someone/0a1b2c", "0a1b2c")]);
    assert!(find_urls(MCLOGS_LINK, "no links").is_empty());
    assert_eq!(find_urls(r"\d+", "a1b22"), vec![link("1", ""), link("22", "")]);
}

#[test]
fn remap_needs_a_version_and_tables() {
    let mut cache = MappingsCache::create();
    let no_version = try_remap(&mut cache, "class_1 crashed", None);
    assert!(matches!(no_version, RemapOutcome::NoVersion));
    assert_eq!(map_status(&no_version, 5), MapStatus::Unmapped);
    assert_eq!(cache.len(), 0);

    let log = "Loading Minecraft 1.20.1 with Fabric Loader 0.15.6\nat net.minecraft.class_1.method_2\n";
    let no_tables = try_remap(&mut cache, log, None);
    assert!(matches!(no_tables, RemapOutcome::NoMappings));
    assert_eq!(map_status(&no_tables, 5), MapStatus::InvalidMcVersion);
    assert_eq!(cache.len(), 0);

    let tables = parse_mappings("c\tnet/minecraft/class_1\tnet/minecraft/Foo\n\tm\t()V\tmethod_2\tbar\n");
    let mapped = try_remap(&mut cache, log, Some(tables));
    assert_eq!(map_status(&mapped, 7), MapStatus::Mapped(7));
    match mapped {
        RemapOutcome::Remapped(text) => assert_eq!(
            text,
            "Loading Minecraft 1.20.1 with Fabric Loader 0.15.6\nat net.minecraft.Foo.bar\n"
        ),
        _ => panic!("the log should have been remapped"),
    }
    assert_eq!(cache.cached_keys(), vec!["1.20.1"]);
    assert_eq!(cache.get_hits("1.20.1"), 1);

    let again = try_remap(&mut cache, log, None);
    assert!(matches!(again, RemapOutcome::Remapped(_)));
    assert_eq!(cache.get_hits("1.20.1"), 2);
}

#[test]
fn fetched_logs_keep_their_address_unless_changed() {
    assert_eq!(plan_reupload("same", "same", true), Disposition::Keep);
    assert_eq!(plan_reupload("same", "same", false), Disposition::Reupload);
    assert_eq!(plan_reupload("old", "new", true), Disposition::Reupload);
    assert_eq!(plan_reupload("old", "new", false), Disposition::Reupload);
    assert_eq!(
        fetched_log_labels(Disposition::Keep, MapStatus::Mapped(3)),
        (LogType::Downloaded, MapStatus::NotRequired)
    );
    assert_eq!(
        fetched_log_labels(Disposition::Reupload, MapStatus::Mapped(3)),
        (LogType::Reuploaded, MapStatus::Mapped(3))
    );
    assert_eq!(
        fetched_log_labels(Disposition::Reupload, MapStatus::Unmapped),
        (LogType::Reuploaded, MapStatus::Unmapped)
    );
}

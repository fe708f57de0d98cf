use log_checking::cache::{MappingsCache, MAPPINGS_CACHE_LIMIT, MAPPINGS_CACHE_PURGE_SIZE};
use log_checking::mappings::{parse_mappings, remap_pass, replacement, Mappings};
use log_checking::text::{exchange, is_whitespace, split_chars, trim_chars};

const TINY: &str = "tiny\t2\t0\tintermediary\tnamed\nc\tnet/minecraft/class_1\tnet/minecraft/util/Foo\n\tm\t(I)V\tmethod_10\tdoThing\n\tf\tI\tfield_20\tsomeData\nc\tnet/minecraft/class_2\tnet/minecraft/world/Bar\n\tc\tjust a comment\nc\tshort\n\tm\t()V\tmethod_11\nbogus line\n\n";

fn chars(s: &str) -> Vec<char> {
    s.chars().collect()
}

fn text(v: &Vec<char>) -> String {
    v.iter().collect()
}

fn tables() -> Mappings {
    parse_mappings(TINY)
}

fn tables_of(version: &str) -> Mappings {
    parse_mappings(&format!("c\tnet/minecraft/class_9\tnet/minecraft/V{}\n", version))
}

#[test]
fn symbol_table_is_parsed_line_by_line() {
    let m = tables();
    assert_eq!(m.full_classes.len(), 2);
    assert_eq!(m.partial_classes.len(), 2);
    assert_eq!(m.methods.len(), 1);
    assert_eq!(m.fields.len(), 1);
    assert_eq!(m.full_classes.get("class_1").map(|s| s.as_str()), Some("net.minecraft.util.Foo"));
    assert_eq!(m.partial_classes.get("class_1").map(|s| s.as_str()), Some("Foo"));
    assert_eq!(m.full_classes.get("class_2").map(|s| s.as_str()), Some("net.minecraft.world.Bar"));
    assert_eq!(m.partial_classes.get("class_2").map(|s| s.as_str()), Some("Bar"));
    assert_eq!(m.methods.get("method_10").map(|s| s.as_str()), Some("doThing"));
    assert_eq!(m.fields.get("field_20").map(|s| s.as_str()), Some("someData"));
    assert!(m.methods.get("method_11").is_none());
}

#[test]
fn later_line_for_one_identifier_counts() {
    let m = parse_mappings("c\ta/b/class_1\tx/Old\r\nc\ta/b/class_1\ty/New\r\n");
    assert_eq!(m.full_classes.len(), 1);
    assert_eq!(m.full_classes.get("class_1").map(|s| s.as_str()), Some("y.New"));
    assert_eq!(m.partial_classes.get("class_1").map(|s| s.as_str()), Some("New"));
}

#[test]
fn empty_and_malformed_tables_give_nothing() {
    for source in ["", "\n\n", "c", "c\tnet/minecraft/class_1", "m\t()V\tmethod_1", "x\ta\tb\tc", "cc\ta/b/c\td"] {
        let m = parse_mappings(source);
        assert!(m.full_classes.is_empty());
        assert!(m.partial_classes.is_empty());
        assert!(m.methods.is_empty());
        assert!(m.fields.is_empty());
    }
}

#[test]
fn class_without_package_in_its_name() {
    let m = parse_mappings("c\tnet/minecraft/class_5\tPlain");
    assert_eq!(m.full_classes.get("class_5").map(|s| s.as_str()), Some("Plain"));
    assert_eq!(m.partial_classes.get("class_5").map(|s| s.as_str()), Some("Plain"));
}

#[test]
fn remap_rewrites_known_identifiers() {
    let m = tables();
    let log = "at net.minecraft.class_1.method_10(class_1.java)\nnet/minecraft/class_2 has field_20 and class_2\n";
    assert_eq!(
        m.remap_log(log),
        "at net.minecraft.util.Foo.doThing(Foo.java)\nnet/minecraft/world/Bar has someData and Bar\n"
    );
}

#[test]
fn remap_leaves_unknown_identifiers() {
    let m = tables();
    let log = "net.minecraft.class_777 method_888 field_999 net/minecraft/class_777";
    assert_eq!(m.remap_log(log), log);
}

#[test]
fn remap_keeps_a_log_without_identifiers() {
    let m = tables();
    for log in ["", "plain text, no identifiers", "classes methods fields class_ method_x field-1"] {
        assert_eq!(m.remap_log(log), log);
    }
    let none = parse_mappings("");
    assert_eq!(none.remap_log("class_1 method_10"), "class_1 method_10");
}

#[test]
fn one_pass_of_replacement() {
    let m = tables();
    assert_eq!(remap_pass(r"(class_[0-9]+)", "class_1 class_3", &m.partial_classes, false), "Foo class_3");
    assert_eq!(remap_pass(r"(class_[0-9]+", "class_1", &m.partial_classes, false), "class_1");
    assert_eq!(replacement(&m.full_classes, "class_1", "net/minecraft/class_1", true), "net/minecraft/util/Foo");
    assert_eq!(replacement(&m.full_classes, "class_1", "net.minecraft.class_1", false), "net.minecraft.util.Foo");
    assert_eq!(replacement(&m.full_classes, "class_8", "net.minecraft.class_8", false), "net.minecraft.class_8");
}

#[test]
fn texts_are_cut_and_trimmed() {
    let pieces: Vec<String> = split_chars(&chars("a\t\tb\t"), '\t').iter().map(text).collect();
    assert_eq!(pieces, vec!["a", "", "b", ""]);
    let one: Vec<String> = split_chars(&chars(""), '/').iter().map(text).collect();
    assert_eq!(one, vec![""]);
    assert_eq!(text(&trim_chars(&chars(" \t a b \r\n"))), "a b");
    assert_eq!(text(&trim_chars(&chars("   "))), "");
    assert_eq!(text(&trim_chars(&chars("\u{3000}x\u{a0}"))), "x");
    assert_eq!(text(&exchange(&chars("a/b/c"), '/', '.')), "a.b.c");
    for c in ['\t', '\n', '\u{b}', '\u{c}', '\r', ' ', '\u{85}', '\u{a0}', '\u{1680}', '\u{2000}', '\u{200a}', '\u{2028}', '\u{2029}', '\u{202f}', '\u{205f}', '\u{3000}', 'a', '\u{200b}', '\u{8}', '\u{e}'] {
        assert_eq!(is_whitespace(c), c.is_whitespace());
    }
}

#[test]
fn cache_starts_empty() {
    let cache = MappingsCache::create();
    assert_eq!(cache.len(), 0);
    assert!(cache.cached_keys().is_empty());
    assert_eq!(cache.get_hits("1.20.1"), 0);
    assert!(!cache.is_cached("1.20.1"));
    assert!(cache.peek("1.20.1").is_none());
    assert_eq!(MAPPINGS_CACHE_LIMIT, 5);
    assert_eq!(MAPPINGS_CACHE_PURGE_SIZE, 3);
}

#[test]
fn version_without_tables_leaves_the_cache_alone() {
    let mut cache = MappingsCache::create();
    assert!(cache.get_or_download("1.20.1", Some(tables())).is_some());
    assert!(cache.get_or_download("0.0.0", None).is_none());
    assert_eq!(cache.len(), 1);
    assert_eq!(cache.cached_keys(), vec!["1.20.1"]);
    assert_eq!(cache.get_hits("1.20.1"), 1);
    assert_eq!(cache.get_hits("0.0.0"), 0);
    assert!(cache.get_or_download("0.0.0", None).is_none());
    assert_eq!(cache.len(), 1);
}

#[test]
fn requests_are_counted() {
    let mut cache = MappingsCache::create();
    assert!(cache.get_or_download("1.20.1", Some(tables_of("a"))).is_some());
    assert_eq!(cache.get_hits("1.20.1"), 1);
    assert!(cache.get_or_download("1.20.1", None).is_some());
    assert!(cache.get_or_download("1.20.1", Some(tables_of("b"))).is_some());
    assert_eq!(cache.get_hits("1.20.1"), 3);
    assert_eq!(cache.len(), 1);
    let kept = cache.peek("1.20.1").expect("resident");
    assert_eq!(kept.full_classes.get("class_9").map(|s| s.as_str()), Some("net.minecraft.Va"));
    assert_eq!(cache.get_hits("1.20.1"), 3);
}

#[test]
fn insert_at_the_limit_purges_the_least_asked_for() {
    let mut cache = MappingsCache::create();
    for version in ["1", "2", "3", "4", "5"] {
        assert!(cache.get_or_download(version, Some(tables_of(version))).is_some());
    }
    assert_eq!(cache.len(), 5);
    assert!(cache.get_or_download("2", None).is_some());
    assert!(cache.get_or_download("4", None).is_some());
    assert!(cache.get_or_download("4", None).is_some());
    let fresh = cache.get_or_download("6", Some(tables_of("6"))).expect("the fresh tables");
    assert_eq!(fresh.full_classes.get("class_9").map(|s| s.as_str()), Some("net.minecraft.V6"));
    assert_eq!(cache.len(), 3);
    assert_eq!(cache.cached_keys(), vec!["2", "4", "6"]);
    assert_eq!(cache.get_hits("2"), 2);
    assert_eq!(cache.get_hits("4"), 3);
    assert_eq!(cache.get_hits("6"), 1);
    assert_eq!(cache.get_hits("1"), 0);
}

#[test]
fn equal_counts_drop_the_oldest_first() {
    let mut cache = MappingsCache::create();
    for version in ["a", "b", "c", "d", "e", "f"] {
        assert!(cache.get_or_download(version, Some(tables_of(version))).is_some());
    }
    assert_eq!(cache.cached_keys(), vec!["d", "e", "f"]);
}

#[test]
fn cache_never_grows_over_its_limit() {
    let mut cache = MappingsCache::create();
    for i in 0..40 {
        let version = format!("1.{}", i % 11);
        let cached = cache.is_cached(&version);
        let downloaded = if cached { None } else { Some(tables_of(&version)) };
        assert!(cache.get_or_download(&version, downloaded).is_some());
        assert!(cache.len() <= MAPPINGS_CACHE_LIMIT);
        cache.try_invalidate();
        assert!(cache.len() <= MAPPINGS_CACHE_LIMIT);
    }
}

#[test]
fn limits_of_the_callers_choice() {
    assert!(MappingsCache::with_limits(2, 0).is_none());
    assert!(MappingsCache::with_limits(2, 3).is_none());
    let mut cache = MappingsCache::with_limits(2, 1).expect("a cache");
    assert!(cache.get_or_download("a", Some(tables_of("a"))).is_some());
    assert!(cache.get_or_download("b", Some(tables_of("b"))).is_some());
    assert!(cache.get_or_download("b", None).is_some());
    assert_eq!(cache.len(), 2);
    assert!(cache.get_or_download("c", Some(tables_of("c"))).is_some());
    assert_eq!(cache.cached_keys(), vec!["c"]);
    let mut same = MappingsCache::with_limits(3, 3).expect("a cache");
    for version in ["a", "b", "c", "d"] {
        assert!(same.get_or_download(version, Some(tables_of(version))).is_some());
    }
    assert_eq!(same.cached_keys(), vec!["b", "c", "d"]);
}

//! Symbol tables: from the obfuscated identifiers that a log holds to the
//! names that people gave them.

use crate::pattern::{is_match, pattern_matches, regex_is_match};
use crate::text::{chars_of, exchange, exchanged, split_chars, split_on, string_of, trim_chars, trimmed};
use regex::{Captures, Regex};
use vstd::hash_map::StringHashMap;
use vstd::prelude::*;
use vstd::string::*;

verus! {

/// The symbol tables of one game version.
pub struct Mappings {
    /// `class_23232` to `net.minecraft.something.Something`.
    pub full_classes: StringHashMap<String>,
    /// `class_23232` to `Something`.
    pub partial_classes: StringHashMap<String>,
    /// `method_23232` to `doSomething`.
    pub methods: StringHashMap<String>,
    /// `field_23232` to `somethingData`.
    pub fields: StringHashMap<String>,
}

/// Symbol tables as plain maps from text to text.
pub struct MappingsView {
    pub full_classes: Map<Seq<char>, Seq<char>>,
    pub partial_classes: Map<Seq<char>, Seq<char>>,
    pub methods: Map<Seq<char>, Seq<char>>,
    pub fields: Map<Seq<char>, Seq<char>>,
}

/// What a table holds, as a map from text to text.
pub open spec fn names_of(table: &StringHashMap<String>) -> Map<Seq<char>, Seq<char>> {
    table@.map_values(|name: String| name@)
}

impl View for Mappings {
    type V = MappingsView;

    open spec fn view(&self) -> MappingsView {
        MappingsView {
            full_classes: names_of(&self.full_classes),
            partial_classes: names_of(&self.partial_classes),
            methods: names_of(&self.methods),
            fields: names_of(&self.fields),
        }
    }
}

/// Tables that hold nothing.
pub open spec fn no_mappings() -> MappingsView {
    MappingsView {
        full_classes: Map::empty(),
        partial_classes: Map::empty(),
        methods: Map::empty(),
        fields: Map::empty(),
    }
}

/// Whether `field` is the one character `tag`.
pub open spec fn is_tag(field: Seq<char>, tag: char) -> bool {
    field.len() == 1 && field[0] == tag
}

/// The tables after one line of a symbol table was read. The line is
/// trimmed and cut at tabs. A `c` line names a class: its third path segment
/// is the obfuscated name, the next field its full name. An `m` or `f` line
/// names a method or a field, in its third and fourth field. Every other
/// line, and one with too few fields, changes nothing.
pub open spec fn with_line(m: MappingsView, line: Seq<char>) -> MappingsView {
    let fields = split_on(trimmed(line), '\t');
    if is_tag(fields[0], 'c') {
        if fields.len() >= 3 && split_on(fields[1], '/').len() >= 3 {
            let obfuscated = split_on(fields[1], '/')[2];
            MappingsView {
                full_classes: m.full_classes.insert(obfuscated, exchanged(fields[2], '/', '.')),
                partial_classes: m.partial_classes.insert(obfuscated, split_on(fields[2], '/').last()),
                ..m
            }
        } else {
            m
        }
    } else if is_tag(fields[0], 'm') {
        if fields.len() >= 4 {
            MappingsView { methods: m.methods.insert(fields[2], fields[3]), ..m }
        } else {
            m
        }
    } else if is_tag(fields[0], 'f') {
        if fields.len() >= 4 {
            MappingsView { fields: m.fields.insert(fields[2], fields[3]), ..m }
        } else {
            m
        }
    } else {
        m
    }
}

/// The tables that the given lines build, read in order from empty tables:
/// of two lines for one identifier the later counts.
pub open spec fn parsed_lines(lines: Seq<Seq<char>>) -> MappingsView
    decreases lines.len(),
{
    if lines.len() == 0 {
        no_mappings()
    } else {
        with_line(parsed_lines(lines.drop_last()), lines.last())
    }
}

/// The tables that a symbol table in text form builds.
pub open spec fn parsed(text: Seq<char>) -> MappingsView {
    parsed_lines(split_on(text, '\n'))
}

/// Puts `name` under `key`.
fn put(table: &mut StringHashMap<String>, key: &Vec<char>, name: &Vec<char>)
    ensures
        names_of(final(table)) == names_of(old(table)).insert(key@, name@),
{
    table.insert(string_of(key), string_of(name));
    assert(names_of(table) =~= names_of(old(table)).insert(key@, name@));
}

impl Mappings {
    /// Tables that hold nothing.
    pub fn empty() -> (r: Mappings)
        ensures
            r@ == no_mappings(),
    {
        let r = Mappings {
            full_classes: StringHashMap::new(),
            partial_classes: StringHashMap::new(),
            methods: StringHashMap::new(),
            fields: StringHashMap::new(),
        };
        assert(names_of(&r.full_classes) =~= Map::empty());
        assert(names_of(&r.partial_classes) =~= Map::empty());
        assert(names_of(&r.methods) =~= Map::empty());
        assert(names_of(&r.fields) =~= Map::empty());
        r
    }

    /// Reads one line of a symbol table into the tables.
    pub fn add_line(&mut self, line: &Vec<char>)
        ensures
            final(self)@ == with_line(old(self)@, line@),
    {
        let fields = split_chars(&trim_chars(line), '\t');
        let ghost parts = split_on(trimmed(line@), '\t');
        assert(forall|k: int| 0 <= k < fields.len() ==> (#[trigger] fields[k])@ =~= parts[k]);
        let tag = &fields[0];
        if tag.len() != 1 {
            return ;
        }
        if tag[0] == 'c' {
            if fields.len() >= 3 {
                let path = split_chars(&fields[1], '/');
                let named = split_chars(&fields[2], '/');
                assert(forall|k: int| 0 <= k < path.len() ==> (#[trigger] path[k])@ =~= split_on(parts[1], '/')[k]);
                assert(named[named.len() - 1]@ =~= split_on(parts[2], '/').last());
                if path.len() >= 3 {
                    let full = exchange(&fields[2], '/', '.');
                    put(&mut self.full_classes, &path[2], &full);
                    put(&mut self.partial_classes, &path[2], &named[named.len() - 1]);
                }
            }
        } else if tag[0] == 'm' {
            if fields.len() >= 4 {
                put(&mut self.methods, &fields[2], &fields[3]);
            }
        } else if tag[0] == 'f' {
            if fields.len() >= 4 {
                put(&mut self.fields, &fields[2], &fields[3]);
            }
        }
    }

    /// The name of one obfuscated class, method or field.
    pub fn yarn_name(&self, name: &str) -> (r: Option<&String>)
        ensures
            r.deep_view() == yarn_name_of(self@, name@),
    {
        if is_match(CLASS_NAME, name) {
            self.full_classes.get(name)
        } else if is_match(METHOD_NAME, name) {
            self.methods.get(name)
        } else if is_match(FIELD_NAME, name) {
            self.fields.get(name)
        } else {
            None
        }
    }

    /// Rewrites the obfuscated identifiers of a log to their names: classes
    /// with their package first, in dotted and in slashed form, then bare
    /// class names, then methods, then fields. A log in which no pass finds
    /// an identifier comes back as it is.
    pub fn remap_log(&self, log: &str) -> (r: String)
        ensures
            r@ == remapped(self@, log@),
            unmarked(log@) ==> r@ == log@,
    {
        let dotted = remap_pass(DOTTED_CLASS, log, &self.full_classes, false);
        let slashed = remap_pass(SLASHED_CLASS, dotted.as_str(), &self.full_classes, true);
        let classes = remap_pass(BARE_CLASS, slashed.as_str(), &self.partial_classes, false);
        let methods = remap_pass(BARE_METHOD, classes.as_str(), &self.methods, false);
        remap_pass(BARE_FIELD, methods.as_str(), &self.fields, false)
    }
}

/// Builds the tables from a symbol table in text form. Lines that do not
/// fit are passed over.
pub fn parse_mappings(text: &str) -> (r: Mappings)
    ensures
        r@ == parsed(text@),
{
    let lines = split_chars(&chars_of(text), '\n');
    let ghost all = split_on(text@, '\n');
    let mut tables = Mappings::empty();
    let mut i: usize = 0;
    assert(all.take(0).len() == 0);
    while i < lines.len()
        invariant
            i <= lines.len(),
            lines.deep_view() == all,
            tables@ == parsed_lines(all.take(i as int)),
        decreases lines.len() - i,
    {
        proof {
            assert(all.take(i as int + 1).drop_last() =~= all.take(i as int));
            assert(all.take(i as int + 1).last() =~= lines[i as int]@);
        }
        tables.add_line(&lines[i]);
        i += 1;
    }
    assert(all.take(i as int) =~= all);
    tables
}

pub const CLASS_NAME: &'static str = r"^class_[0-9]+$";

pub const METHOD_NAME: &'static str = r"^method_[0-9]+$";

pub const FIELD_NAME: &'static str = r"^field_[0-9]+$";

/// What `names` has under `key`.
pub open spec fn looked_up(names: Map<Seq<char>, Seq<char>>, key: Seq<char>) -> Option<Seq<char>> {
    if names.contains_key(key) {
        Some(names[key])
    } else {
        None
    }
}

/// The name of an obfuscated identifier: a class is looked up by its full
/// name, a method and a field in their own tables, and what has none of
/// the three shapes has no name.
pub open spec fn yarn_name_of(m: MappingsView, name: Seq<char>) -> Option<Seq<char>> {
    if pattern_matches(CLASS_NAME@, name) {
        looked_up(m.full_classes, name)
    } else if pattern_matches(METHOD_NAME@, name) {
        looked_up(m.methods, name)
    } else if pattern_matches(FIELD_NAME@, name) {
        looked_up(m.fields, name)
    } else {
        None
    }
}

pub const DOTTED_CLASS: &'static str = r"net\.minecraft\.(class_[0-9]+)";

pub const SLASHED_CLASS: &'static str = r"net\/minecraft\/(class_[0-9]+)";

pub const BARE_CLASS: &'static str = r"(class_[0-9]+)";

pub const BARE_METHOD: &'static str = r"(method_[0-9]+)";

pub const BARE_FIELD: &'static str = r"(field_[0-9]+)";

/// What stands in place of one match: the name that `names` has for `key`,
/// with slashes for its dots where `slashed`, or the matched text `whole`
/// itself where `names` does not know `key`.
pub open spec fn replaced(names: Map<Seq<char>, Seq<char>>, key: Seq<char>, whole: Seq<char>, slashed: bool) -> Seq<char> {
    if names.contains_key(key) {
        if slashed {
            exchanged(names[key], '.', '/')
        } else {
            names[key]
        }
    } else {
        whole
    }
}

/// What stands in place of one match of an identifier.
pub fn replacement(table: &StringHashMap<String>, key: &str, whole: &str, slashed: bool) -> (r: String)
    ensures
        r@ == replaced(names_of(table), key@, whole@, slashed),
{
    match table.get(key) {
        Some(name) => {
            if slashed {
                string_of(&exchange(&chars_of(name.as_str()), '.', '/'))
            } else {
                name.clone()
            }
        },
        None => String::from_str(whole),
    }
}

/// What `Regex::new(pattern)` followed by `Regex::replace_all` gives on
/// `text`, where each match is replaced by `replaced(names, group 1, whole
/// match, slashed)`: `None` where the pattern does not compile.
pub uninterp spec fn regex_replace_all(
    pattern: Seq<char>,
    text: Seq<char>,
    names: Map<Seq<char>, Seq<char>>,
    slashed: bool,
) -> Option<Seq<char>>;

/// Calls `regex::Regex::new` and, on the compiled expression,
/// `regex::Regex::replace_all` with a replacer that hands group 1 and the
/// whole match to `replacement`. The result is exactly the named value
/// `regex_replace_all`; and, as the crate documents, a text in which the
/// expression finds no match is returned unchanged.
#[verifier::external_body]
pub(crate) fn search_replace_all(pattern: &str, text: &str, table: &StringHashMap<String>, slashed: bool) -> (r:
    Option<String>)
    ensures
        r.deep_view() == regex_replace_all(pattern@, text@, names_of(table), slashed),
        regex_is_match(pattern@, text@) == Some(false) ==> r.deep_view() == Some(text@),
{
    match Regex::new(pattern) {
        Ok(re) => Some(
            re.replace_all(text, |found: &Captures| {
                let key = found.get(1).map_or("", |m| m.as_str());
                let whole = found.get(0).map_or("", |m| m.as_str());
                replacement(table, key, whole, slashed)
            }).into_owned(),
        ),
        Err(_) => None,
    }
}

/// `text` after one pass of replacement; `text` itself where the pattern
/// does not compile.
pub open spec fn pass_of(pattern: Seq<char>, text: Seq<char>, names: Map<Seq<char>, Seq<char>>, slashed: bool) -> Seq<char> {
    match regex_replace_all(pattern, text, names, slashed) {
        Some(rewritten) => rewritten,
        None => text,
    }
}

/// A log after the five passes of replacement.
pub open spec fn remapped(m: MappingsView, log: Seq<char>) -> Seq<char> {
    let dotted = pass_of(DOTTED_CLASS@, log, m.full_classes, false);
    let slashed = pass_of(SLASHED_CLASS@, dotted, m.full_classes, true);
    let classes = pass_of(BARE_CLASS@, slashed, m.partial_classes, false);
    let methods = pass_of(BARE_METHOD@, classes, m.methods, false);
    pass_of(BARE_FIELD@, methods, m.fields, false)
}

/// No pass finds an obfuscated identifier in the log.
pub open spec fn unmarked(log: Seq<char>) -> bool {
    &&& regex_is_match(DOTTED_CLASS@, log) == Some(false)
    &&& regex_is_match(SLASHED_CLASS@, log) == Some(false)
    &&& regex_is_match(BARE_CLASS@, log) == Some(false)
    &&& regex_is_match(BARE_METHOD@, log) == Some(false)
    &&& regex_is_match(BARE_FIELD@, log) == Some(false)
}

/// One pass of replacement over `text`.
pub fn remap_pass(pattern: &str, text: &str, table: &StringHashMap<String>, slashed: bool) -> (r: String)
    ensures
        r@ == pass_of(pattern@, text@, names_of(table), slashed),
        regex_is_match(pattern@, text@) == Some(false) ==> r@ == text@,
{
    match search_replace_all(pattern, text, table, slashed) {
        Some(rewritten) => rewritten,
        None => String::from_str(text),
    }
}

} // verus!

//! The cache of symbol tables, one entry for each game version, bounded in
//! size: when it grows over its limit, the entries that were asked for least
//! are dropped.

use crate::mappings::{Mappings, MappingsView};
use crate::pattern::same_text;
use vstd::prelude::*;
use vstd::string::*;

verus! {

/// The most entries that the cache holds.
pub const MAPPINGS_CACHE_LIMIT: usize = 5;

/// The number of entries that are left when the cache was purged.
pub const MAPPINGS_CACHE_PURGE_SIZE: usize = 3;

/// The symbol tables of one game version, with the number of times they
/// were asked for.
pub struct CacheEntry {
    pub version: String,
    pub mappings: Mappings,
    pub hits: u32,
}

/// A cache entry as plain values.
pub struct EntryView {
    pub version: Seq<char>,
    pub mappings: MappingsView,
    pub hits: u32,
}

impl DeepView for CacheEntry {
    type V = EntryView;

    open spec fn deep_view(&self) -> EntryView {
        EntryView { version: self.version@, mappings: self.mappings@, hits: self.hits }
    }
}

/// The cache: its entries in the order in which they were inserted.
pub struct MappingsCache {
    entries: Vec<CacheEntry>,
    limit: usize,
    purge_size: usize,
}

/// No two entries are for one version.
pub open spec fn distinct_versions(entries: Seq<EntryView>) -> bool {
    forall|i: int, j: int|
        0 <= i < j < entries.len() ==> (#[trigger] entries[i]).version != (#[trigger] entries[j]).version
}

/// The index of the first entry from `from` on that is for `version`; the
/// number of entries where there is none.
pub open spec fn slot_from(entries: Seq<EntryView>, version: Seq<char>, from: int) -> int
    decreases entries.len() - from,
{
    if 0 <= from < entries.len() && entries[from].version != version {
        slot_from(entries, version, from + 1)
    } else {
        from
    }
}

/// The index of the entry for `version`; the number of entries where there
/// is none.
pub open spec fn slot_of(entries: Seq<EntryView>, version: Seq<char>) -> int {
    slot_from(entries, version, 0)
}

/// The index of the entry among the first `n` that was asked for least; of
/// several such, the one that was inserted first.
pub open spec fn lowest(entries: Seq<EntryView>, n: int) -> int
    decreases n,
{
    if n <= 1 {
        0
    } else {
        let best = lowest(entries, n - 1);
        if 0 <= best < entries.len() && n <= entries.len() && entries[n - 1].hits < entries[best].hits {
            n - 1
        } else {
            best
        }
    }
}

/// The entries that are left when, `count` times, the entry that was asked
/// for least has been dropped.
pub open spec fn evicted(entries: Seq<EntryView>, count: nat) -> Seq<EntryView>
    decreases count,
{
    if count == 0 || entries.len() == 0 {
        entries
    } else {
        evicted(entries.remove(lowest(entries, entries.len() as int)), (count - 1) as nat)
    }
}

/// The entries after a purge: where there are more than `limit`, the ones
/// asked for least are dropped until `purge_size` are left.
pub open spec fn purged(entries: Seq<EntryView>, limit: nat, purge_size: nat) -> Seq<EntryView> {
    if entries.len() > limit && entries.len() >= purge_size {
        evicted(entries, (entries.len() - purge_size) as nat)
    } else {
        entries
    }
}

/// An entry after one more request for it. The count stops at the greatest
/// number it can hold.
pub open spec fn hit(entry: EntryView) -> EntryView {
    EntryView {
        hits: if entry.hits < u32::MAX {
            (entry.hits + 1) as u32
        } else {
            entry.hits
        },
        ..entry
    }
}

/// The entries after `fresh` was let in: where it would take the cache over
/// `limit`, the entries asked for least make room first, so that with
/// `fresh` there are `purge_size`.
pub open spec fn admitted(entries: Seq<EntryView>, fresh: EntryView, limit: nat, purge_size: nat) -> Seq<
    EntryView,
> {
    if entries.len() + 1 > limit && entries.len() + 1 >= purge_size && purge_size >= 1 {
        evicted(entries, (entries.len() + 1 - purge_size) as nat).push(fresh)
    } else {
        entries.push(fresh)
    }
}

/// The entries after a request for `version`, where `downloaded` is what a
/// download gave, if one was made. A resident entry is counted as hit and
/// the download is not looked at. Else tables that were downloaded are let
/// in, counted as hit once. Else nothing changes.
pub open spec fn after_request(
    entries: Seq<EntryView>,
    version: Seq<char>,
    downloaded: Option<MappingsView>,
    limit: nat,
    purge_size: nat,
) -> Seq<EntryView> {
    let at = slot_of(entries, version);
    if at < entries.len() {
        entries.update(at, hit(entries[at]))
    } else {
        match downloaded {
            Some(mappings) => admitted(entries, EntryView { version, mappings, hits: 1 }, limit, purge_size),
            None => entries,
        }
    }
}

/// The tables that a request for `version` hands out.
pub open spec fn requested(entries: Seq<EntryView>, version: Seq<char>, downloaded: Option<MappingsView>) -> Option<
    MappingsView,
> {
    let at = slot_of(entries, version);
    if at < entries.len() {
        Some(entries[at].mappings)
    } else {
        downloaded
    }
}

/// The slot of a version lies within the entries or just behind them, and
/// no entry before it is for that version.
pub proof fn slot_from_finds(entries: Seq<EntryView>, version: Seq<char>, from: int)
    requires
        0 <= from <= entries.len(),
    ensures
        from <= slot_from(entries, version, from) <= entries.len(),
        slot_from(entries, version, from) < entries.len() ==> entries[slot_from(
            entries,
            version,
            from,
        )].version == version,
        forall|i: int| from <= i < slot_from(entries, version, from) ==> (#[trigger] entries[i]).version != version,
    decreases entries.len() - from,
{
    if from < entries.len() && entries[from].version != version {
        slot_from_finds(entries, version, from + 1);
    }
}

/// The entry asked for least is one of the entries.
pub proof fn lowest_in_bounds(entries: Seq<EntryView>, n: int)
    requires
        1 <= n <= entries.len(),
    ensures
        0 <= lowest(entries, n) < n,
        forall|i: int| 0 <= i < n ==> entries[lowest(entries, n)].hits <= (#[trigger] entries[i]).hits,
    decreases n,
{
    if n > 1 {
        lowest_in_bounds(entries, n - 1);
    }
}

/// Dropping entries leaves as many as were not dropped, each one of those
/// that were there, and no version twice.
pub proof fn evicted_keeps(entries: Seq<EntryView>, count: nat)
    requires
        distinct_versions(entries),
        count <= entries.len(),
    ensures
        evicted(entries, count).len() == entries.len() - count,
        distinct_versions(evicted(entries, count)),
        forall|i: int| 0 <= i < evicted(entries, count).len() ==> entries.contains(#[trigger] evicted(entries, count)[i]),
    decreases count,
{
    if count > 0 && entries.len() > 0 {
        let at = lowest(entries, entries.len() as int);
        lowest_in_bounds(entries, entries.len() as int);
        let rest = entries.remove(at);
        assert forall|i: int, j: int| 0 <= i < j < rest.len() implies (#[trigger] rest[i]).version != (
        #[trigger] rest[j]).version by {
            let a = if i < at { i } else { i + 1 };
            let b = if j < at { j } else { j + 1 };
            assert(rest[i] == entries[a]);
            assert(rest[j] == entries[b]);
        }
        evicted_keeps(rest, (count - 1) as nat);
        let last = evicted(rest, (count - 1) as nat);
        assert forall|i: int| 0 <= i < last.len() implies entries.contains(#[trigger] last[i]) by {
            let k = choose|k: int| 0 <= k < rest.len() && rest[k] == last[i];
            let a = if k < at { k } else { k + 1 };
            assert(entries[a] == rest[k]);
        }
    }
}

impl MappingsCache {
    /// The entries, in the order in which they were inserted.
    pub closed spec fn view(&self) -> Seq<EntryView> {
        self.entries.deep_view()
    }

    /// The most entries that the cache holds.
    pub closed spec fn limit(&self) -> nat {
        self.limit as nat
    }

    /// The number of entries that are left when the cache was purged.
    pub closed spec fn purge_size(&self) -> nat {
        self.purge_size as nat
    }

    /// No version has two entries, the entries are no more than the limit,
    /// and a purge leaves at least one entry and no more than the limit.
    pub open spec fn wf(&self) -> bool {
        &&& distinct_versions(self@)
        &&& self@.len() <= self.limit()
        &&& 1 <= self.purge_size() <= self.limit()
    }

    /// An empty cache with the limits `MAPPINGS_CACHE_LIMIT` and
    /// `MAPPINGS_CACHE_PURGE_SIZE`.
    pub fn create() -> (r: MappingsCache)
        ensures
            r.wf(),
            r@.len() == 0,
            r.limit() == MAPPINGS_CACHE_LIMIT,
            r.purge_size() == MAPPINGS_CACHE_PURGE_SIZE,
    {
        MappingsCache { entries: Vec::new(), limit: MAPPINGS_CACHE_LIMIT, purge_size: MAPPINGS_CACHE_PURGE_SIZE }
    }

    /// An empty cache with limits of the caller's choice; `None` where
    /// `purge_size` is 0 or greater than `limit`.
    pub fn with_limits(limit: usize, purge_size: usize) -> (r: Option<MappingsCache>)
        ensures
            r is Some <==> 1 <= purge_size <= limit,
            r is Some ==> r->0.wf() && r->0@.len() == 0 && r->0.limit() == limit && r->0.purge_size()
                == purge_size,
    {
        if 1 <= purge_size && purge_size <= limit {
            Some(MappingsCache { entries: Vec::new(), limit, purge_size })
        } else {
            None
        }
    }

    /// Whether the cache is as `wf` asks. A cache that was made by `create`
    /// or `with_limits` and changed by its own methods always is.
    pub fn is_well_formed(&self) -> (r: bool)
        ensures
            r == self.wf(),
    {
        if self.purge_size < 1 || self.purge_size > self.limit || self.entries.len() > self.limit {
            return false;
        }
        let mut j: usize = 0;
        while j < self.entries.len()
            invariant
                j <= self.entries.len(),
                1 <= self.purge_size() <= self.limit(),
                self@.len() <= self.limit(),
                forall|a: int, b: int| 0 <= a < b < j ==> (#[trigger] self@[a]).version != (#[trigger] self@[b]).version,
            decreases self.entries.len() - j,
        {
            let mut i: usize = 0;
            while i < j
                invariant
                    i <= j < self.entries.len(),
                    forall|a: int| 0 <= a < i ==> (#[trigger] self@[a]).version != self@[j as int].version,
                decreases j - i,
            {
                if same_text(self.entries[i].version.as_str(), self.entries[j].version.as_str()) {
                    assert(self@[i as int].version == self@[j as int].version);
                    return false;
                }
                i += 1;
            }
            j += 1;
        }
        true
    }

    /// The number of entries.
    pub fn len(&self) -> (r: usize)
        ensures
            r == self@.len(),
    {
        self.entries.len()
    }

    /// The index of the entry for `version`.
    fn find(&self, version: &str) -> (r: usize)
        ensures
            r == slot_of(self@, version@),
            r <= self.entries.len(),
    {
        let mut i: usize = 0;
        while i < self.entries.len() && !same_text(self.entries[i].version.as_str(), version)
            invariant
                i <= self.entries.len(),
                slot_from(self@, version@, i as int) == slot_of(self@, version@),
            decreases self.entries.len() - i,
        {
            i += 1;
        }
        i
    }

    /// Whether the tables of `version` are resident, so that a request for
    /// them needs no download.
    pub fn is_cached(&self, version: &str) -> (r: bool)
        ensures
            r == (slot_of(self@, version@) < self@.len()),
    {
        self.find(version) < self.entries.len()
    }

    /// The index of the entry that was asked for least.
    fn lowest_hit(&self) -> (r: usize)
        requires
            self.entries.len() > 0,
        ensures
            r == lowest(self@, self@.len() as int),
            r < self.entries.len(),
    {
        let mut best: usize = 0;
        let mut i: usize = 1;
        while i < self.entries.len()
            invariant
                1 <= i <= self.entries.len(),
                best < i,
                best == lowest(self@, i as int),
            decreases self.entries.len() - i,
        {
            if self.entries[i].hits < self.entries[best].hits {
                best = i;
            }
            i += 1;
        }
        best
    }

    /// Drops, `count` times, the entry that was asked for least.
    fn evict(&mut self, count: usize)
        requires
            count <= old(self)@.len(),
        ensures
            final(self)@ == evicted(old(self)@, count as nat),
            final(self).limit() == old(self).limit(),
            final(self).purge_size() == old(self).purge_size(),
    {
        let mut done: usize = 0;
        while done < count
            invariant
                done <= count,
                count - done <= self.entries.len(),
                evicted(self@, (count - done) as nat) == evicted(old(self)@, count as nat),
                self.limit() == old(self).limit(),
                self.purge_size() == old(self).purge_size(),
            decreases count - done,
        {
            let ghost before = self@;
            let at = self.lowest_hit();
            self.entries.remove(at);
            assert(self@ =~= before.remove(at as int));
            done += 1;
        }
    }

    /// Purges the cache where it holds more entries than its limit: the
    /// entries asked for least are dropped, the oldest first among equals,
    /// until as many are left as a purge leaves.
    pub fn try_invalidate(&mut self)
        ensures
            final(self)@ == purged(old(self)@, old(self).limit(), old(self).purge_size()),
            final(self).limit() == old(self).limit(),
            final(self).purge_size() == old(self).purge_size(),
            old(self).wf() ==> final(self)@ == old(self)@,
    {
        if self.entries.len() > self.limit && self.entries.len() >= self.purge_size {
            self.evict(self.entries.len() - self.purge_size);
        }
    }

    /// Answers a request for the tables of `version`. `downloaded` is what
    /// the download gave where the caller made one, which it does where
    /// `is_cached` is false. Resident tables are counted as hit. Tables that
    /// were downloaded are let in and counted as hit once; where the cache
    /// is full, the entries asked for least make room first. Where there
    /// are no tables the cache stays as it is.
    pub fn get_or_download(&mut self, mc_version: &str, downloaded: Option<Mappings>) -> (r: Option<&Mappings>)
        requires
            old(self).wf(),
        ensures
            final(self)@ == after_request(
                old(self)@,
                mc_version@,
                view_of(downloaded),
                old(self).limit(),
                old(self).purge_size(),
            ),
            view_of_ref(r) == requested(old(self)@, mc_version@, view_of(downloaded)),
            final(self).wf(),
            final(self).limit() == old(self).limit(),
            final(self).purge_size() == old(self).purge_size(),
            final(self)@.len() <= final(self).limit(),
    {
        let ghost before = self@;
        let at = self.find(mc_version);
        proof {
            slot_from_finds(before, mc_version@, 0);
        }
        if at < self.entries.len() {
            let mut entry = self.entries.remove(at);
            if entry.hits < u32::MAX {
                entry.hits = entry.hits + 1;
            }
            self.entries.insert(at, entry);
            assert(self@ =~= before.update(at as int, hit(before[at as int])));
            assert(distinct_versions(self@)) by {
                assert forall|i: int, j: int| 0 <= i < j < self@.len() implies (#[trigger] self@[i]).version != (
                #[trigger] self@[j]).version by {
                    assert(self@[i].version == before[i].version);
                    assert(self@[j].version == before[j].version);
                }
            }
            Some(&self.entries[at].mappings)
        } else {
            match downloaded {
                Some(mappings) => {
                    if self.entries.len() >= self.limit {
                        let count: usize = self.entries.len() - (self.purge_size - 1);
                        proof {
                            evicted_keeps(before, count as nat);
                        }
                        self.evict(count);
                    }
                    let ghost kept = self@;
                    let entry = CacheEntry { version: String::from_str(mc_version), mappings, hits: 1 };
                    self.entries.push(entry);
                    assert(self@ =~= kept.push(EntryView { version: mc_version@, mappings: mappings@, hits: 1 }));
                    assert(distinct_versions(self@)) by {
                        assert forall|i: int, j: int| 0 <= i < j < self@.len() implies (
                        #[trigger] self@[i]).version != (#[trigger] self@[j]).version by {
                            assert(self@[i] == kept[i]);
                            assert(before.contains(kept[i]));
                            if j < kept.len() {
                                assert(self@[j] == kept[j]);
                            }
                        }
                    }
                    let last: usize = self.entries.len() - 1;
                    Some(&self.entries[last].mappings)
                },
                None => None,
            }
        }
    }

    /// The tables of `version`, where they are resident. The request is not
    /// counted.
    pub fn peek(&self, version: &str) -> (r: Option<&Mappings>)
        ensures
            view_of_ref(r) == requested(self@, version@, None),
    {
        let at = self.find(version);
        if at < self.entries.len() {
            Some(&self.entries[at].mappings)
        } else {
            None
        }
    }

    /// The versions whose tables are resident, in the order in which they
    /// were inserted.
    pub fn cached_keys(&self) -> (r: Vec<&String>)
        ensures
            r.len() == self@.len(),
            forall|i: int| 0 <= i < r.len() ==> (#[trigger] r[i])@ == self@[i].version,
    {
        let mut keys: Vec<&String> = Vec::new();
        let mut i: usize = 0;
        while i < self.entries.len()
            invariant
                i <= self.entries.len(),
                keys.len() == i,
                forall|k: int| 0 <= k < i ==> (#[trigger] keys[k])@ == self@[k].version,
            decreases self.entries.len() - i,
        {
            keys.push(&self.entries[i].version);
            i += 1;
        }
        keys
    }

    /// The number of times that the tables of `key` were asked for; 0
    /// where they are not resident.
    pub fn get_hits(&self, key: &str) -> (r: u32)
        ensures
            r == if slot_of(self@, key@) < self@.len() {
                self@[slot_of(self@, key@)].hits
            } else {
                0
            },
    {
        let at = self.find(key);
        if at < self.entries.len() {
            self.entries[at].hits
        } else {
            0
        }
    }
}

/// The view of tables that may be there.
pub open spec fn view_of(mappings: Option<Mappings>) -> Option<MappingsView> {
    match mappings {
        Some(m) => Some(m@),
        None => None,
    }
}

/// The view of tables that may be there, by reference.
pub open spec fn view_of_ref(mappings: Option<&Mappings>) -> Option<MappingsView> {
    match mappings {
        Some(m) => Some(m@),
        None => None,
    }
}

/// Letting tables into a cache that is at its limit leaves as many entries
/// as a purge leaves, the fresh one last; below the limit it adds one.
pub proof fn admitted_at_limit(entries: Seq<EntryView>, fresh: EntryView, limit: nat, purge_size: nat)
    requires
        distinct_versions(entries),
        entries.len() <= limit,
        1 <= purge_size <= limit,
    ensures
        entries.len() == limit ==> admitted(entries, fresh, limit, purge_size).len() == purge_size,
        entries.len() < limit ==> admitted(entries, fresh, limit, purge_size) == entries.push(fresh),
        admitted(entries, fresh, limit, purge_size).len() <= limit,
        admitted(entries, fresh, limit, purge_size).last() == fresh,
        forall|i: int|
            0 <= i < admitted(entries, fresh, limit, purge_size).len() - 1 ==> entries.contains(
                #[trigger] admitted(entries, fresh, limit, purge_size)[i],
            ),
{
    if entries.len() + 1 > limit {
        evicted_keeps(entries, (entries.len() + 1 - purge_size) as nat);
    }
}

/// Whatever is requested, and whatever a download gave, a cache that was
/// within its limit with one entry for each version is so afterwards.
pub proof fn request_keeps_bounds(
    entries: Seq<EntryView>,
    version: Seq<char>,
    downloaded: Option<MappingsView>,
    limit: nat,
    purge_size: nat,
)
    requires
        distinct_versions(entries),
        entries.len() <= limit,
        1 <= purge_size <= limit,
    ensures
        distinct_versions(after_request(entries, version, downloaded, limit, purge_size)),
        after_request(entries, version, downloaded, limit, purge_size).len() <= limit,
        downloaded is None && slot_of(entries, version) == entries.len() ==> after_request(
            entries,
            version,
            downloaded,
            limit,
            purge_size,
        ) == entries,
{
    let after = after_request(entries, version, downloaded, limit, purge_size);
    let at = slot_of(entries, version);
    slot_from_finds(entries, version, 0);
    if at < entries.len() {
        assert forall|i: int, j: int| 0 <= i < j < after.len() implies (#[trigger] after[i]).version != (
        #[trigger] after[j]).version by {
            assert(after[i].version == entries[i].version);
            assert(after[j].version == entries[j].version);
        }
    } else if downloaded is Some {
        let fresh = EntryView { version, mappings: downloaded->0, hits: 1 };
        admitted_at_limit(entries, fresh, limit, purge_size);
        assert forall|i: int, j: int| 0 <= i < j < after.len() implies (#[trigger] after[i]).version != (
        #[trigger] after[j]).version by {
            let kept = after.drop_last();
            if entries.len() + 1 > limit {
                evicted_keeps(entries, (entries.len() + 1 - purge_size) as nat);
            }
            assert(after[i] == kept[i]);
            assert(entries.contains(after[i]));
            if j < after.len() - 1 {
                assert(after[j] == kept[j]);
            }
        }
    }
}

} // verus!

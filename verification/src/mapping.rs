//! The identifier mapping index: the four lookup tables that are derived from
//! one snapshot of the mapping dataset, and the point lookups on them.

use crate::season::{earliest_season, min_season, season_key, season_key_text};
use crate::text::{chars_of, option_text, parse_i64, parse_i64_chars};
use std::collections::HashMap;
use vstd::prelude::*;

verus! {

broadcast use vstd::std_specs::hash::group_hash_axioms;

/// The TMDB movie id of a dataset record: one id, or a list of which the first
/// counts.
#[derive(Debug, Clone)]
pub enum TmdbMovieId {
    Single(i64),
    Multiple(Vec<i64>),
}

impl TmdbMovieId {
    /// The id that counts: the single one, or the first of the list.
    pub open spec fn first(self) -> Option<i64> {
        match self {
            TmdbMovieId::Single(id) => Some(id),
            TmdbMovieId::Multiple(ids) => if ids@.len() > 0 {
                Some(ids@[0])
            } else {
                None
            },
        }
    }

    pub fn into_first(self) -> (r: Option<i64>)
        ensures
            r == self.first(),
    {
        match self {
            TmdbMovieId::Single(id) => Some(id),
            TmdbMovieId::Multiple(ids) => if ids.len() > 0 {
                Some(ids[0])
            } else {
                None
            },
        }
    }
}

/// One record of the mapping dataset, as it stands in the source document
/// under its AniList id.
#[derive(Debug, Clone)]
pub struct RawMappingRecord {
    pub tvdb_id: Option<i64>,
    pub tmdb_movie_id: Option<TmdbMovieId>,
    /// The keys of the record's per-season marker table.
    pub tvdb_mappings: Vec<String>,
}

/// What the index reads of one dataset record.
pub struct SourceRecord {
    /// The key of the record in the source document.
    pub key: Seq<char>,
    pub tvdb_id: Option<i64>,
    pub tmdb_id: Option<i64>,
    pub seasons: Seq<Seq<char>>,
}

impl SourceRecord {
    /// The AniList id that the record's key spells, if it spells one.
    pub open spec fn anilist_id(self) -> Option<i64> {
        parse_i64(self.key)
    }

    /// The record links its AniList id to the TVDB id `tvdb_id`: it names that
    /// id and lists at least one season.
    pub open spec fn links_tvdb(self, tvdb_id: i64) -> bool {
        self.anilist_id() is Some && self.tvdb_id == Some(tvdb_id) && self.seasons.len() > 0
    }

    /// The record links its AniList id to some TVDB id.
    pub open spec fn links_some_tvdb(self) -> bool {
        self.anilist_id() is Some && self.tvdb_id is Some && self.seasons.len() > 0
    }

    /// The record links its AniList id to the TMDB id `tmdb_id`.
    pub open spec fn links_tmdb(self, tmdb_id: i64) -> bool {
        self.anilist_id() is Some && self.tmdb_id == Some(tmdb_id)
    }
}

/// The source record that a key and its raw record stand for.
pub open spec fn source_record(key: Seq<char>, record: RawMappingRecord) -> SourceRecord {
    SourceRecord {
        key,
        tvdb_id: record.tvdb_id,
        tmdb_id: match record.tmdb_movie_id {
            Some(id) => id.first(),
            None => None,
        },
        seasons: record.tvdb_mappings.deep_view(),
    }
}

/// The source records of a dataset, in the order of the dataset.
pub open spec fn source_records(raw: Seq<(String, RawMappingRecord)>) -> Seq<SourceRecord> {
    Seq::new(raw.len(), |i: int| source_record(raw[i].0@, raw[i].1))
}

/// An AniList id under a TVDB id, with the seasons it covers there.
#[derive(Debug, Clone)]
pub struct MappingEntry {
    pub anilist_id: i64,
    pub seasons: Vec<String>,
}

pub struct MappingEntryView {
    pub anilist_id: i64,
    pub seasons: Seq<Seq<char>>,
}

impl View for MappingEntry {
    type V = MappingEntryView;

    open spec fn view(&self) -> MappingEntryView {
        MappingEntryView { anilist_id: self.anilist_id, seasons: self.seasons.deep_view() }
    }
}

impl DeepView for MappingEntry {
    type V = MappingEntryView;

    open spec fn deep_view(&self) -> MappingEntryView {
        self@
    }
}

/// A TVDB id under an AniList id, with the seasons covered.
#[derive(Debug, Clone)]
pub struct ReverseMappingEntry {
    pub tvdb_id: i64,
    pub seasons: Vec<String>,
}

/// A TVDB id with the seasons that an AniList id covers of it.
#[derive(Debug, Clone)]
pub struct TvdbMapping {
    pub tvdb_id: i64,
    pub seasons: Vec<String>,
}

pub struct TvdbMappingView {
    pub tvdb_id: i64,
    pub seasons: Seq<Seq<char>>,
}

impl View for ReverseMappingEntry {
    type V = TvdbMappingView;

    open spec fn view(&self) -> TvdbMappingView {
        TvdbMappingView { tvdb_id: self.tvdb_id, seasons: self.seasons.deep_view() }
    }
}

impl DeepView for ReverseMappingEntry {
    type V = TvdbMappingView;

    open spec fn deep_view(&self) -> TvdbMappingView {
        self@
    }
}

impl View for TvdbMapping {
    type V = TvdbMappingView;

    open spec fn view(&self) -> TvdbMappingView {
        TvdbMappingView { tvdb_id: self.tvdb_id, seasons: self.seasons.deep_view() }
    }
}

impl DeepView for TvdbMapping {
    type V = TvdbMappingView;

    open spec fn deep_view(&self) -> TvdbMappingView {
        self@
    }
}

/// The entries listed under a TVDB id: one for each record that links to it,
/// in the order of the dataset.
pub open spec fn tvdb_entries(records: Seq<SourceRecord>, tvdb_id: i64) -> Seq<MappingEntryView>
    decreases records.len(),
{
    if records.len() == 0 {
        Seq::empty()
    } else {
        let earlier = tvdb_entries(records.drop_last(), tvdb_id);
        let record = records.last();
        if record.links_tvdb(tvdb_id) {
            earlier.push(
                MappingEntryView {
                    anilist_id: record.anilist_id().unwrap(),
                    seasons: record.seasons,
                },
            )
        } else {
            earlier
        }
    }
}

/// The TVDB ids listed under an AniList id: one for each record that spells
/// the id and links it to a TVDB id, in the order of the dataset.
pub open spec fn anilist_entries(records: Seq<SourceRecord>, anilist_id: i64) -> Seq<
    TvdbMappingView,
>
    decreases records.len(),
{
    if records.len() == 0 {
        Seq::empty()
    } else {
        let earlier = anilist_entries(records.drop_last(), anilist_id);
        let record = records.last();
        if record.links_some_tvdb() && record.anilist_id() == Some(anilist_id) {
            earlier.push(
                TvdbMappingView { tvdb_id: record.tvdb_id.unwrap(), seasons: record.seasons },
            )
        } else {
            earlier
        }
    }
}

/// The AniList id that a TMDB id stands for: that of the last record that
/// links to it.
pub open spec fn anilist_of_tmdb(records: Seq<SourceRecord>, tmdb_id: i64) -> Option<i64>
    decreases records.len(),
{
    if records.len() == 0 {
        None
    } else if records.last().links_tmdb(tmdb_id) {
        records.last().anilist_id()
    } else {
        anilist_of_tmdb(records.drop_last(), tmdb_id)
    }
}

/// The TMDB id of an AniList id: that of the last record that spells the
/// AniList id and names a TMDB id.
pub open spec fn tmdb_of_anilist(records: Seq<SourceRecord>, anilist_id: i64) -> Option<i64>
    decreases records.len(),
{
    if records.len() == 0 {
        None
    } else if records.last().anilist_id() == Some(anilist_id) && records.last().tmdb_id is Some {
        records.last().tmdb_id
    } else {
        tmdb_of_anilist(records.drop_last(), anilist_id)
    }
}

/// The four tables of the index, as mathematical maps.
pub struct IndexView {
    pub by_tvdb: Map<i64, Seq<MappingEntryView>>,
    pub by_anilist: Map<i64, Seq<TvdbMappingView>>,
    pub tmdb_to_anilist: Map<i64, i64>,
    pub anilist_to_tmdb: Map<i64, i64>,
}

/// The index of a dataset: every table derived from the same records.
pub open spec fn index_of(records: Seq<SourceRecord>) -> IndexView {
    IndexView {
        by_tvdb: Map::new(
            |t: i64| tvdb_entries(records, t).len() > 0,
            |t: i64| tvdb_entries(records, t),
        ),
        by_anilist: Map::new(
            |a: i64| anilist_entries(records, a).len() > 0,
            |a: i64| anilist_entries(records, a),
        ),
        tmdb_to_anilist: Map::new(
            |m: i64| anilist_of_tmdb(records, m) is Some,
            |m: i64| anilist_of_tmdb(records, m).unwrap(),
        ),
        anilist_to_tmdb: Map::new(
            |a: i64| tmdb_of_anilist(records, a) is Some,
            |a: i64| tmdb_of_anilist(records, a).unwrap(),
        ),
    }
}

/// The lookup tables derived from one snapshot of the mapping dataset.
#[derive(Debug)]
pub struct MappingIndex {
    tvdb_to_entries: HashMap<i64, Vec<MappingEntry>>,
    anilist_to_entries: HashMap<i64, Vec<ReverseMappingEntry>>,
    tmdb_to_anilist: HashMap<i64, i64>,
    anilist_to_tmdb: HashMap<i64, i64>,
}

impl View for MappingIndex {
    type V = IndexView;

    closed spec fn view(&self) -> IndexView {
        IndexView {
            by_tvdb: Map::new(
                |t: i64| self.tvdb_to_entries@.contains_key(t),
                |t: i64| self.tvdb_to_entries@[t].deep_view(),
            ),
            by_anilist: Map::new(
                |a: i64| self.anilist_to_entries@.contains_key(a),
                |a: i64| self.anilist_to_entries@[a].deep_view(),
            ),
            tmdb_to_anilist: self.tmdb_to_anilist@,
            anilist_to_tmdb: self.anilist_to_tmdb@,
        }
    }
}

/// Copies a list of strings.
pub fn clone_strings(source: &Vec<String>) -> (copy: Vec<String>)
    ensures
        copy.deep_view() == source.deep_view(),
{
    let mut copy: Vec<String> = Vec::new();
    let mut i: usize = 0;
    while i < source.len()
        invariant
            i <= source.len(),
            copy@.len() == i,
            forall|j: int| 0 <= j < i ==> (#[trigger] copy@[j])@ == source@[j]@,
        decreases source.len() - i,
    {
        let item = source[i].clone();
        copy.push(item);
        i += 1;
    }
    assert(copy.deep_view() =~= source.deep_view());
    copy
}

impl MappingIndex {
    /// The index that holds nothing.
    pub fn empty() -> (index: MappingIndex)
        ensures
            index@ == index_of(Seq::empty()),
    {
        let index = MappingIndex {
            tvdb_to_entries: HashMap::new(),
            anilist_to_entries: HashMap::new(),
            tmdb_to_anilist: HashMap::new(),
            anilist_to_tmdb: HashMap::new(),
        };
        proof {
            let target = index_of(Seq::empty());
            assert(index@.by_tvdb =~= target.by_tvdb);
            assert(index@.by_anilist =~= target.by_anilist);
            assert(index@.tmdb_to_anilist =~= target.tmdb_to_anilist);
            assert(index@.anilist_to_tmdb =~= target.anilist_to_tmdb);
        }
        index
    }

    /// Takes one more record into the index.
    fn absorb(&mut self, key: &String, record: &RawMappingRecord, Ghost(earlier): Ghost<Seq<SourceRecord>>)
        requires
            old(self)@ == index_of(earlier),
        ensures
            final(self)@ == index_of(earlier.push(source_record(key@, *record))),
    {
        let ghost added = source_record(key@, *record);
        let ghost records = earlier.push(added);
        proof {
            assert(records.drop_last() =~= earlier);
            assert(records.last() == added);
        }
        let key_chars = chars_of(key.as_str());
        let anilist_id = match parse_i64_chars(&key_chars) {
            Some(id) => id,
            None => {
                proof {
                    let target = index_of(records);
                    assert(self@.by_tvdb =~= target.by_tvdb);
                    assert(self@.by_anilist =~= target.by_anilist);
                    assert(self@.tmdb_to_anilist =~= target.tmdb_to_anilist);
                    assert(self@.anilist_to_tmdb =~= target.anilist_to_tmdb);
                }
                return ;
            },
        };
        if let Some(tvdb_id) = record.tvdb_id {
            if record.tvdb_mappings.len() > 0 {
                let forward = MappingEntry {
                    anilist_id,
                    seasons: clone_strings(&record.tvdb_mappings),
                };
                let backward = ReverseMappingEntry {
                    tvdb_id,
                    seasons: clone_strings(&record.tvdb_mappings),
                };
                proof {
                    let known = index_of(earlier);
                    assert(old(self)@.by_tvdb.contains_key(tvdb_id) == known.by_tvdb.contains_key(
                        tvdb_id,
                    ));
                    assert(old(self)@.by_tvdb.contains_key(tvdb_id) ==> old(self)@.by_tvdb[tvdb_id]
                        == known.by_tvdb[tvdb_id]);
                    assert(old(self)@.by_anilist.contains_key(anilist_id)
                        == known.by_anilist.contains_key(anilist_id));
                    assert(old(self)@.by_anilist.contains_key(anilist_id)
                        ==> old(self)@.by_anilist[anilist_id] == known.by_anilist[anilist_id]);
                }
                let mut listed = match self.tvdb_to_entries.remove(&tvdb_id) {
                    Some(listed) => listed,
                    None => Vec::new(),
                };
                assert(listed.deep_view() =~= tvdb_entries(earlier, tvdb_id));
                listed.push(forward);
                assert(listed.deep_view() =~= tvdb_entries(records, tvdb_id));
                self.tvdb_to_entries.insert(tvdb_id, listed);
                let mut reverse = match self.anilist_to_entries.remove(&anilist_id) {
                    Some(reverse) => reverse,
                    None => Vec::new(),
                };
                assert(reverse.deep_view() =~= anilist_entries(earlier, anilist_id));
                reverse.push(backward);
                assert(reverse.deep_view() =~= anilist_entries(records, anilist_id));
                self.anilist_to_entries.insert(anilist_id, reverse);
            }
        }
        let tmdb = match &record.tmdb_movie_id {
            Some(TmdbMovieId::Single(id)) => Some(*id),
            Some(TmdbMovieId::Multiple(ids)) => if ids.len() > 0 {
                Some(ids[0])
            } else {
                None
            },
            None => None,
        };
        if let Some(tmdb_id) = tmdb {
            self.tmdb_to_anilist.insert(tmdb_id, anilist_id);
            self.anilist_to_tmdb.insert(anilist_id, tmdb_id);
        }
        proof {
            let target = index_of(records);
            let known = index_of(earlier);
            assert forall|t: i64|
                #![trigger self@.by_tvdb.contains_key(t)]
                #![trigger target.by_tvdb.contains_key(t)]
                self@.by_tvdb.contains_key(t) == target.by_tvdb.contains_key(t) && (
                self@.by_tvdb.contains_key(t) ==> self@.by_tvdb[t] == target.by_tvdb[t]) by {
                assert(old(self)@.by_tvdb.contains_key(t) == known.by_tvdb.contains_key(t));
                assert(old(self)@.by_tvdb.contains_key(t) ==> old(self)@.by_tvdb[t]
                    == known.by_tvdb[t]);
            }
            assert(self@.by_tvdb =~= target.by_tvdb);
            assert forall|a: i64|
                #![trigger self@.by_anilist.contains_key(a)]
                #![trigger target.by_anilist.contains_key(a)]
                self@.by_anilist.contains_key(a) == target.by_anilist.contains_key(a) && (
                self@.by_anilist.contains_key(a) ==> self@.by_anilist[a] == target.by_anilist[a]) by {
                assert(old(self)@.by_anilist.contains_key(a) == known.by_anilist.contains_key(a));
                assert(old(self)@.by_anilist.contains_key(a) ==> old(self)@.by_anilist[a]
                    == known.by_anilist[a]);
            }
            assert(self@.by_anilist =~= target.by_anilist);
            assert(self@.tmdb_to_anilist =~= target.tmdb_to_anilist);
            assert(self@.anilist_to_tmdb =~= target.anilist_to_tmdb);
        }
    }
}

/// The entries that an index lists under a TVDB id; none where it does not
/// know the id.
pub open spec fn entries_under(index: IndexView, tvdb_id: i64) -> Seq<MappingEntryView> {
    if index.by_tvdb.contains_key(tvdb_id) {
        index.by_tvdb[tvdb_id]
    } else {
        Seq::empty()
    }
}

/// The TVDB ids that an index lists under an AniList id; none where it does
/// not know the id.
pub open spec fn mappings_under(index: IndexView, anilist_id: i64) -> Seq<TvdbMappingView> {
    if index.by_anilist.contains_key(anilist_id) {
        index.by_anilist[anilist_id]
    } else {
        Seq::empty()
    }
}

/// Entry `k` is the first of `entries` that lists the season key `key`.
pub open spec fn is_first_with_key(entries: Seq<MappingEntryView>, key: Seq<char>, k: int) -> bool {
    &&& 0 <= k < entries.len()
    &&& entries[k].seasons.contains(key)
    &&& forall|j: int| 0 <= j < k ==> !(#[trigger] entries[j]).seasons.contains(key)
}

/// The rank of an entry that names no season: above that of every season.
pub const NO_SEASON_RANK: u64 = 0x1_0000_0000;

/// The rank of an entry when only the TVDB id is known: its earliest season,
/// an entry that names no season ranking after every entry that names one.
pub open spec fn season_rank(seasons: Seq<Seq<char>>) -> u64 {
    match min_season(seasons) {
        Some(n) => n as u64,
        None => NO_SEASON_RANK,
    }
}

/// The rank of an entry with the given season keys.
pub fn rank_of(seasons: &Vec<String>) -> (r: u64)
    ensures
        r == season_rank(seasons.deep_view()),
{
    match earliest_season(seasons) {
        Some(n) => n as u64,
        None => NO_SEASON_RANK,
    }
}

/// Entry `k` is the best of `entries`: none ranks lower, and all that come
/// before it rank higher.
pub open spec fn is_best_entry(entries: Seq<MappingEntryView>, k: int) -> bool {
    &&& 0 <= k < entries.len()
    &&& forall|j: int|
        0 <= j < entries.len() ==> season_rank(entries[k].seasons) <= season_rank(
            (#[trigger] entries[j]).seasons,
        )
    &&& forall|j: int|
        0 <= j < k ==> season_rank((#[trigger] entries[j]).seasons) > season_rank(
            entries[k].seasons,
        )
}

/// At most one entry is the first that lists a key.
pub proof fn lemma_first_with_key_unique(
    entries: Seq<MappingEntryView>,
    key: Seq<char>,
    a: int,
    b: int,
)
    requires
        is_first_with_key(entries, key, a),
        is_first_with_key(entries, key, b),
    ensures
        a == b,
{
    if a < b {
        assert(!entries[a].seasons.contains(key));
    } else if b < a {
        assert(!entries[b].seasons.contains(key));
    }
}

/// At most one entry is the best.
pub proof fn lemma_best_entry_unique(entries: Seq<MappingEntryView>, a: int, b: int)
    requires
        is_best_entry(entries, a),
        is_best_entry(entries, b),
    ensures
        a == b,
{
    if a < b {
        assert(season_rank(entries[a].seasons) > season_rank(entries[b].seasons));
        assert(season_rank(entries[a].seasons) <= season_rank(entries[b].seasons));
    } else if b < a {
        assert(season_rank(entries[b].seasons) > season_rank(entries[a].seasons));
        assert(season_rank(entries[b].seasons) <= season_rank(entries[a].seasons));
    }
}

/// The best entry names a season whenever any entry does, and then none
/// names an earlier one: an entry without a season is only ever the best
/// where no entry names a season.
pub proof fn lemma_best_entry_has_least_season(entries: Seq<MappingEntryView>, k: int, j: int)
    requires
        is_best_entry(entries, k),
        0 <= j < entries.len(),
        min_season(entries[j].seasons) is Some,
    ensures
        min_season(entries[k].seasons) is Some,
        min_season(entries[k].seasons).unwrap() <= min_season(entries[j].seasons).unwrap(),
{
    assert(season_rank(entries[k].seasons) <= season_rank(entries[j].seasons));
}

/// Tells whether `keys` holds the string `key`.
pub fn holds_key(keys: &Vec<String>, key: &String) -> (r: bool)
    ensures
        r == keys.deep_view().contains(key@),
{
    let mut i: usize = 0;
    while i < keys.len()
        invariant
            i <= keys.len(),
            forall|j: int| 0 <= j < i ==> keys.deep_view()[j] != key@,
        decreases keys.len() - i,
    {
        if keys[i] == *key {
            assert(keys.deep_view()[i as int] == key@);
            return true;
        }
        i += 1;
    }
    false
}

impl MappingIndex {
    /// Builds the index of a dataset, given as the records of the source
    /// document under their keys, in the order in which they are to count.
    pub fn build(raw: &Vec<(String, RawMappingRecord)>) -> (index: MappingIndex)
        ensures
            index@ == index_of(source_records(raw@)),
    {
        let mut index = MappingIndex::empty();
        let ghost records = source_records(raw@);
        assert(records.take(0) =~= Seq::<SourceRecord>::empty());
        let mut i: usize = 0;
        while i < raw.len()
            invariant
                i <= raw.len(),
                records == source_records(raw@),
                index@ == index_of(records.take(i as int)),
            decreases raw.len() - i,
        {
            index.absorb(&raw[i].0, &raw[i].1, Ghost(records.take(i as int)));
            assert(records.take(i + 1) =~= records.take(i as int).push(records[i as int]));
            i += 1;
        }
        assert(records.take(raw.len() as int) =~= records);
        index
    }

    /// The AniList id of a season of a TVDB series: that of the first entry
    /// under the TVDB id that lists the season's key, exactly as written.
    pub fn lookup_by_tvdb_season(&self, tvdb_id: i64, season: u32) -> (r: Option<i64>)
        ensures
            match r {
                Some(id) => exists|k: int|
                    is_first_with_key(entries_under(self@, tvdb_id), season_key_text(season), k)
                        && (#[trigger] entries_under(self@, tvdb_id)[k]).anilist_id == id,
                None => forall|k: int|
                    0 <= k < entries_under(self@, tvdb_id).len() ==> !(#[trigger] entries_under(
                        self@,
                        tvdb_id,
                    )[k]).seasons.contains(season_key_text(season)),
            },
    {
        let key = season_key(season);
        match self.tvdb_to_entries.get(&tvdb_id) {
            Some(entries) => {
                let ghost listed = entries_under(self@, tvdb_id);
                assert(listed == entries.deep_view());
                let mut i: usize = 0;
                while i < entries.len()
                    invariant
                        i <= entries.len(),
                        listed == entries.deep_view(),
                        listed == entries_under(self@, tvdb_id),
                        key@ == season_key_text(season),
                        forall|j: int| 0 <= j < i ==> !(#[trigger] listed[j]).seasons.contains(key@),
                    decreases entries.len() - i,
                {
                    if holds_key(&entries[i].seasons, &key) {
                        assert(listed[i as int].seasons == entries@[i as int].seasons.deep_view());
                        assert(is_first_with_key(listed, key@, i as int));
                        assert(entries_under(self@, tvdb_id)[i as int].anilist_id
                            == entries@[i as int].anilist_id);
                        return Some(entries[i].anilist_id);
                    }
                    assert(listed[i as int].seasons == entries@[i as int].seasons.deep_view());
                    i += 1;
                }
                None
            },
            None => None,
        }
    }

    /// The AniList id that stands for a TVDB series as a whole: that of the
    /// entry with the earliest season, the first such entry where several
    /// share it. An entry that names no season ranks after every entry that
    /// names one, whatever the season.
    pub fn lookup_best_for_tvdb(&self, tvdb_id: i64) -> (r: Option<i64>)
        ensures
            match r {
                Some(id) => exists|k: int|
                    is_best_entry(entries_under(self@, tvdb_id), k) && (#[trigger] entries_under(
                        self@,
                        tvdb_id,
                    )[k]).anilist_id == id,
                None => entries_under(self@, tvdb_id).len() == 0,
            },
    {
        match self.tvdb_to_entries.get(&tvdb_id) {
            Some(entries) => {
                let ghost listed = entries_under(self@, tvdb_id);
                assert(listed == entries.deep_view());
                if entries.len() == 0 {
                    return None;
                }
                let mut best: usize = 0;
                let mut best_rank: u64 = rank_of(&entries[0].seasons);
                assert(listed[0].seasons == entries@[0].seasons.deep_view());
                let mut i: usize = 1;
                while i < entries.len()
                    invariant
                        1 <= i <= entries.len(),
                        listed == entries.deep_view(),
                        best < i,
                        best_rank == season_rank(listed[best as int].seasons),
                        forall|j: int|
                            0 <= j < i ==> best_rank <= season_rank((#[trigger] listed[j]).seasons),
                        forall|j: int|
                            0 <= j < best ==> season_rank((#[trigger] listed[j]).seasons)
                                > best_rank,
                    decreases entries.len() - i,
                {
                    let rank: u64 = rank_of(&entries[i].seasons);
                    assert(listed[i as int].seasons == entries@[i as int].seasons.deep_view());
                    if rank < best_rank {
                        best = i;
                        best_rank = rank;
                    }
                    i += 1;
                }
                assert(is_best_entry(listed, best as int));
                Some(entries[best].anilist_id)
            },
            None => None,
        }
    }

    /// The AniList id that a TMDB id stands for.
    pub fn lookup_anilist_for_tmdb(&self, tmdb_id: i64) -> (r: Option<i64>)
        ensures
            r == (if self@.tmdb_to_anilist.contains_key(tmdb_id) {
                Some(self@.tmdb_to_anilist[tmdb_id])
            } else {
                None
            }),
    {
        match self.tmdb_to_anilist.get(&tmdb_id) {
            Some(id) => Some(*id),
            None => None,
        }
    }

    /// The TMDB id of an AniList id.
    pub fn lookup_tmdb_for_anilist(&self, anilist_id: i64) -> (r: Option<i64>)
        ensures
            r == (if self@.anilist_to_tmdb.contains_key(anilist_id) {
                Some(self@.anilist_to_tmdb[anilist_id])
            } else {
                None
            }),
    {
        match self.anilist_to_tmdb.get(&anilist_id) {
            Some(id) => Some(*id),
            None => None,
        }
    }

    /// The TVDB ids of an AniList id, each with the seasons covered, in the
    /// order of the dataset.
    pub fn lookup_tvdb_mappings_for_anilist(&self, anilist_id: i64) -> (r: Vec<TvdbMapping>)
        ensures
            r.deep_view() == mappings_under(self@, anilist_id),
    {
        let mut result: Vec<TvdbMapping> = Vec::new();
        match self.anilist_to_entries.get(&anilist_id) {
            Some(entries) => {
                let mut i: usize = 0;
                while i < entries.len()
                    invariant
                        i <= entries.len(),
                        result@.len() == i,
                        forall|j: int| 0 <= j < i ==> (#[trigger] result@[j])@ == entries@[j]@,
                    decreases entries.len() - i,
                {
                    result.push(
                        TvdbMapping {
                            tvdb_id: entries[i].tvdb_id,
                            seasons: clone_strings(&entries[i].seasons),
                        },
                    );
                    i += 1;
                }
                assert(result.deep_view() =~= entries.deep_view());
            },
            None => {
                assert(result.deep_view() =~= Seq::<TvdbMappingView>::empty());
            },
        }
        result
    }
}

/// Record `i` is the first of the dataset that links the TVDB id and lists
/// the season key.
pub open spec fn is_first_record_with_key(
    records: Seq<SourceRecord>,
    tvdb_id: i64,
    key: Seq<char>,
    i: int,
) -> bool {
    &&& 0 <= i < records.len()
    &&& records[i].links_tvdb(tvdb_id)
    &&& records[i].seasons.contains(key)
    &&& forall|j: int|
        0 <= j < i ==> !((#[trigger] records[j]).links_tvdb(tvdb_id) && records[j].seasons.contains(
            key,
        ))
}

/// The entries under a TVDB id follow the dataset: there are as many as there
/// are records that link the id, and the first entry that lists a key stands
/// for the first such record that lists it.
proof fn lemma_entries_follow_records(records: Seq<SourceRecord>, tvdb_id: i64, key: Seq<char>)
    ensures
        forall|k: int|
            is_first_with_key(tvdb_entries(records, tvdb_id), key, k) ==> exists|i: int|
                is_first_record_with_key(records, tvdb_id, key, i) && (
                #[trigger] records[i]).anilist_id() == Some(
                    tvdb_entries(records, tvdb_id)[k].anilist_id,
                ),
        (forall|k: int|
            0 <= k < tvdb_entries(records, tvdb_id).len() ==> !(#[trigger] tvdb_entries(
                records,
                tvdb_id,
            )[k]).seasons.contains(key)) ==> (forall|i: int|
            0 <= i < records.len() ==> !((#[trigger] records[i]).links_tvdb(tvdb_id)
                && records[i].seasons.contains(key))),
    decreases records.len(),
{
    let entries = tvdb_entries(records, tvdb_id);
    if records.len() > 0 {
        let front = records.drop_last();
        let last = records.last();
        let earlier = tvdb_entries(front, tvdb_id);
        lemma_entries_follow_records(front, tvdb_id, key);
        assert(forall|i: int| 0 <= i < front.len() ==> front[i] == records[i]);
        assert forall|k: int| is_first_with_key(entries, key, k) implies exists|i: int|
            is_first_record_with_key(records, tvdb_id, key, i) && (#[trigger] records[i]).anilist_id()
                == Some(entries[k].anilist_id) by {
            if k < earlier.len() {
                assert(entries[k] == earlier[k]);
                assert forall|j: int| 0 <= j < k implies !(#[trigger] earlier[j]).seasons.contains(
                    key,
                ) by {
                    assert(entries[j] == earlier[j]);
                }
                assert(is_first_with_key(earlier, key, k));
                let i = choose|i: int|
                    is_first_record_with_key(front, tvdb_id, key, i) && (#[trigger] front[i]).anilist_id()
                        == Some(earlier[k].anilist_id);
                assert forall|j: int| 0 <= j < i implies !((#[trigger] records[j]).links_tvdb(tvdb_id)
                    && records[j].seasons.contains(key)) by {
                    assert(front[j] == records[j]);
                }
                assert(is_first_record_with_key(records, tvdb_id, key, i));
                assert(records[i].anilist_id() == Some(entries[k].anilist_id));
            } else {
                assert(last.links_tvdb(tvdb_id));
                assert(entries[k].seasons == last.seasons);
                assert forall|j: int| 0 <= j < earlier.len() implies !(#[trigger] earlier[j]).seasons.contains(
                    key,
                ) by {
                    assert(entries[j] == earlier[j]);
                }
                let i = records.len() - 1;
                assert forall|j: int| 0 <= j < i implies !((#[trigger] records[j]).links_tvdb(tvdb_id)
                    && records[j].seasons.contains(key)) by {
                    assert(front[j] == records[j]);
                }
                assert(is_first_record_with_key(records, tvdb_id, key, i));
                assert(records[i].anilist_id() == Some(entries[k].anilist_id));
            }
        }
        if forall|k: int| 0 <= k < entries.len() ==> !(#[trigger] entries[k]).seasons.contains(key) {
            assert forall|k: int| 0 <= k < earlier.len() implies !(#[trigger] earlier[k]).seasons.contains(
                key,
            ) by {
                assert(entries[k] == earlier[k]);
            }
            assert forall|i: int| 0 <= i < records.len() implies !((#[trigger] records[i]).links_tvdb(
                tvdb_id,
            ) && records[i].seasons.contains(key)) by {
                if i < front.len() {
                    assert(front[i] == records[i]);
                } else if last.links_tvdb(tvdb_id) {
                    assert(entries[earlier.len() as int].seasons == last.seasons);
                }
            }
        }
    }
}

/// A season lookup answers from the dataset. Where the index of a dataset
/// holds a first entry under a TVDB id that lists a season key, that entry
/// carries the AniList id of the first record of the dataset that links the
/// TVDB id and lists the key; where no entry under the TVDB id lists the key,
/// no record that links the TVDB id lists it.
pub proof fn lemma_season_lookup_follows_dataset(
    records: Seq<SourceRecord>,
    tvdb_id: i64,
    key: Seq<char>,
)
    ensures
        forall|k: int|
            is_first_with_key(entries_under(index_of(records), tvdb_id), key, k) ==> exists|i: int|
                is_first_record_with_key(records, tvdb_id, key, i) && (
                #[trigger] records[i]).anilist_id() == Some(
                    entries_under(index_of(records), tvdb_id)[k].anilist_id,
                ),
        (forall|k: int|
            0 <= k < entries_under(index_of(records), tvdb_id).len() ==> !(#[trigger] entries_under(
                index_of(records),
                tvdb_id,
            )[k]).seasons.contains(key)) ==> (forall|i: int|
            0 <= i < records.len() ==> !((#[trigger] records[i]).links_tvdb(tvdb_id)
                && records[i].seasons.contains(key))),
{
    lemma_entries_follow_records(records, tvdb_id, key);
    assert(entries_under(index_of(records), tvdb_id) =~= tvdb_entries(records, tvdb_id));
}

/// The record links the AniList id `anilist_id` to the TVDB id `tvdb_id` for
/// the seasons `seasons`.
pub open spec fn record_links(
    record: SourceRecord,
    tvdb_id: i64,
    anilist_id: i64,
    seasons: Seq<Seq<char>>,
) -> bool {
    record.links_tvdb(tvdb_id) && record.anilist_id() == Some(anilist_id) && record.seasons
        == seasons
}

proof fn lemma_forward_entries(
    records: Seq<SourceRecord>,
    tvdb_id: i64,
    anilist_id: i64,
    seasons: Seq<Seq<char>>,
)
    ensures
        (exists|k: int|
            0 <= k < tvdb_entries(records, tvdb_id).len() && #[trigger] tvdb_entries(
                records,
                tvdb_id,
            )[k] == (MappingEntryView { anilist_id, seasons })) <==> (exists|i: int|
            0 <= i < records.len() && record_links(
                #[trigger] records[i],
                tvdb_id,
                anilist_id,
                seasons,
            )),
    decreases records.len(),
{
    let entries = tvdb_entries(records, tvdb_id);
    let wanted = MappingEntryView { anilist_id, seasons };
    if records.len() > 0 {
        let front = records.drop_last();
        let earlier = tvdb_entries(front, tvdb_id);
        lemma_forward_entries(front, tvdb_id, anilist_id, seasons);
        if exists|k: int| 0 <= k < entries.len() && #[trigger] entries[k] == wanted {
            let k = choose|k: int| 0 <= k < entries.len() && #[trigger] entries[k] == wanted;
            if k < earlier.len() {
                assert(earlier[k] == wanted);
                let i = choose|i: int|
                    0 <= i < front.len() && record_links(
                        #[trigger] front[i],
                        tvdb_id,
                        anilist_id,
                        seasons,
                    );
                assert(record_links(records[i], tvdb_id, anilist_id, seasons));
            } else {
                assert(record_links(records[records.len() - 1], tvdb_id, anilist_id, seasons));
            }
        }
        if exists|i: int|
            0 <= i < records.len() && record_links(
                #[trigger] records[i],
                tvdb_id,
                anilist_id,
                seasons,
            ) {
            let i = choose|i: int|
                0 <= i < records.len() && record_links(
                    #[trigger] records[i],
                    tvdb_id,
                    anilist_id,
                    seasons,
                );
            if i < front.len() {
                assert(record_links(front[i], tvdb_id, anilist_id, seasons));
                let k = choose|k: int| 0 <= k < earlier.len() && #[trigger] earlier[k] == wanted;
                assert(entries[k] == wanted);
            } else {
                assert(entries[earlier.len() as int] == wanted);
            }
        }
    }
}

proof fn lemma_reverse_entries(
    records: Seq<SourceRecord>,
    tvdb_id: i64,
    anilist_id: i64,
    seasons: Seq<Seq<char>>,
)
    ensures
        (exists|k: int|
            0 <= k < anilist_entries(records, anilist_id).len() && #[trigger] anilist_entries(
                records,
                anilist_id,
            )[k] == (TvdbMappingView { tvdb_id, seasons })) <==> (exists|i: int|
            0 <= i < records.len() && record_links(
                #[trigger] records[i],
                tvdb_id,
                anilist_id,
                seasons,
            )),
    decreases records.len(),
{
    let entries = anilist_entries(records, anilist_id);
    let wanted = TvdbMappingView { tvdb_id, seasons };
    if records.len() > 0 {
        let front = records.drop_last();
        let earlier = anilist_entries(front, anilist_id);
        lemma_reverse_entries(front, tvdb_id, anilist_id, seasons);
        if exists|k: int| 0 <= k < entries.len() && #[trigger] entries[k] == wanted {
            let k = choose|k: int| 0 <= k < entries.len() && #[trigger] entries[k] == wanted;
            if k < earlier.len() {
                assert(earlier[k] == wanted);
                let i = choose|i: int|
                    0 <= i < front.len() && record_links(
                        #[trigger] front[i],
                        tvdb_id,
                        anilist_id,
                        seasons,
                    );
                assert(record_links(records[i], tvdb_id, anilist_id, seasons));
            } else {
                assert(record_links(records[records.len() - 1], tvdb_id, anilist_id, seasons));
            }
        }
        if exists|i: int|
            0 <= i < records.len() && record_links(
                #[trigger] records[i],
                tvdb_id,
                anilist_id,
                seasons,
            ) {
            let i = choose|i: int|
                0 <= i < records.len() && record_links(
                    #[trigger] records[i],
                    tvdb_id,
                    anilist_id,
                    seasons,
                );
            if i < front.len() {
                assert(record_links(front[i], tvdb_id, anilist_id, seasons));
                let k = choose|k: int| 0 <= k < earlier.len() && #[trigger] earlier[k] == wanted;
                assert(entries[k] == wanted);
            } else {
                assert(entries[earlier.len() as int] == wanted);
            }
        }
    }
}

/// The two tables between TVDB ids and AniList ids mirror each other: an
/// AniList id is listed under a TVDB id with some seasons exactly when the
/// TVDB id is listed under the AniList id with the same seasons, and that is
/// exactly when a record of the dataset links the two for those seasons.
pub proof fn lemma_reverse_table_mirrors_forward(
    records: Seq<SourceRecord>,
    tvdb_id: i64,
    anilist_id: i64,
    seasons: Seq<Seq<char>>,
)
    ensures
        (exists|k: int|
            0 <= k < entries_under(index_of(records), tvdb_id).len() && #[trigger] entries_under(
                index_of(records),
                tvdb_id,
            )[k] == (MappingEntryView { anilist_id, seasons })) <==> (exists|k: int|
            0 <= k < mappings_under(index_of(records), anilist_id).len()
                && #[trigger] mappings_under(index_of(records), anilist_id)[k] == (TvdbMappingView {
                tvdb_id,
                seasons,
            })),
        (exists|k: int|
            0 <= k < entries_under(index_of(records), tvdb_id).len() && #[trigger] entries_under(
                index_of(records),
                tvdb_id,
            )[k] == (MappingEntryView { anilist_id, seasons })) <==> (exists|i: int|
            0 <= i < records.len() && record_links(
                #[trigger] records[i],
                tvdb_id,
                anilist_id,
                seasons,
            )),
{
    lemma_forward_entries(records, tvdb_id, anilist_id, seasons);
    lemma_reverse_entries(records, tvdb_id, anilist_id, seasons);
    assert(entries_under(index_of(records), tvdb_id) =~= tvdb_entries(records, tvdb_id));
    assert(mappings_under(index_of(records), anilist_id) =~= anilist_entries(records, anilist_id));
}

/// The index is a function of the dataset alone: two datasets that hold the
/// same records in the same order have the same index, whenever and however
/// often it is built.
pub proof fn lemma_index_determined_by_records(
    first: Seq<(String, RawMappingRecord)>,
    second: Seq<(String, RawMappingRecord)>,
)
    requires
        source_records(first) == source_records(second),
    ensures
        index_of(source_records(first)) == index_of(source_records(second)),
{
}

/// When a file was last modified, as seconds and nanoseconds since the Unix
/// epoch.
#[derive(Debug, Clone, Copy, PartialEq, Eq, Structural)]
pub struct FileStamp {
    pub seconds: i64,
    pub nanos: u32,
}

/// A snapshot of the mapping dataset: its index, with the time of the file
/// it was read from or written to and the validation token it came with.
#[derive(Debug)]
pub struct CachedMappings {
    pub modified: FileStamp,
    pub etag: Option<String>,
    pub entries: MappingIndex,
}

pub struct SnapshotView {
    pub modified: FileStamp,
    pub etag: Option<Seq<char>>,
    pub index: IndexView,
}

impl View for CachedMappings {
    type V = SnapshotView;

    open spec fn view(&self) -> SnapshotView {
        SnapshotView {
            modified: self.modified,
            etag: option_text(self.etag),
            index: self.entries@,
        }
    }
}

/// The refresh interval that is used where none is set.
pub const DEFAULT_REFRESH_SECS: u64 = 21_600;

/// The store of the mapping dataset: the snapshot that lookups are answered
/// from, if there is one yet, and how often it is to be refreshed. The
/// snapshot is only ever replaced as a whole.
#[derive(Debug)]
pub struct PlexAniBridgeMappings {
    cache: Option<CachedMappings>,
    refresh_interval_secs: u64,
}

/// The snapshot of a store, as a view.
pub open spec fn snapshot_view(cache: Option<CachedMappings>) -> Option<SnapshotView> {
    match cache {
        Some(snapshot) => Some(snapshot@),
        None => None,
    }
}

/// The index that lookups are answered from: that of the snapshot, or the
/// index that holds nothing where there is no snapshot.
pub open spec fn served_index(snapshot: Option<SnapshotView>) -> IndexView {
    match snapshot {
        Some(snapshot) => snapshot.index,
        None => index_of(Seq::empty()),
    }
}

impl PlexAniBridgeMappings {
    /// The snapshot in place.
    pub closed spec fn snapshot(&self) -> Option<SnapshotView> {
        snapshot_view(self.cache)
    }

    /// The seconds between two refreshes.
    pub closed spec fn interval(&self) -> u64 {
        self.refresh_interval_secs
    }

    /// Sets up a store without a snapshot. An interval of zero stands for
    /// the default.
    pub fn bootstrap(refresh_interval_secs: u64) -> (store: PlexAniBridgeMappings)
        ensures
            store.snapshot() is None,
            store.interval() == (if refresh_interval_secs == 0 {
                DEFAULT_REFRESH_SECS
            } else {
                refresh_interval_secs
            }),
    {
        let refresh_interval_secs = if refresh_interval_secs == 0 {
            DEFAULT_REFRESH_SECS
        } else {
            refresh_interval_secs
        };
        PlexAniBridgeMappings { cache: None, refresh_interval_secs }
    }

    /// The seconds between two refreshes.
    pub fn refresh_interval_secs(&self) -> (r: u64)
        ensures
            r == self.interval(),
            r > 0,
    {
        proof {
            use_type_invariant(self);
        }
        self.refresh_interval_secs
    }

    #[verifier::type_invariant]
    spec fn well_formed(self) -> bool {
        self.refresh_interval_secs > 0
    }

    /// Tells whether a snapshot is in place.
    pub fn is_loaded(&self) -> (r: bool)
        ensures
            r == self.snapshot() is Some,
    {
        self.cache.is_some()
    }

    /// The validation token of the snapshot in place.
    pub fn cached_etag(&self) -> (r: Option<String>)
        ensures
            option_text(r) == (match self.snapshot() {
                Some(snapshot) => snapshot.etag,
                None => None,
            }),
    {
        match &self.cache {
            Some(snapshot) => match &snapshot.etag {
                Some(etag) => Some(etag.clone()),
                None => None,
            },
            None => None,
        }
    }

    /// The time of the file of the snapshot in place.
    pub fn cached_modified(&self) -> (r: Option<FileStamp>)
        ensures
            r == (match self.snapshot() {
                Some(snapshot) => Some(snapshot.modified),
                None => None,
            }),
    {
        match &self.cache {
            Some(snapshot) => Some(snapshot.modified),
            None => None,
        }
    }

    /// Puts a snapshot in place of the one before, as a whole.
    pub fn install(&mut self, snapshot: CachedMappings)
        ensures
            final(self).snapshot() == Some(snapshot@),
            final(self).interval() == old(self).interval(),
    {
        proof {
            use_type_invariant(&*self);
        }
        self.cache = Some(snapshot);
    }

    /// Builds the index of a dataset, given as the records of the source
    /// document under their keys, in the order in which they are to count.
    pub fn build_index(raw: &Vec<(String, RawMappingRecord)>) -> (index: MappingIndex)
        ensures
            index@ == index_of(source_records(raw@)),
    {
        MappingIndex::build(raw)
    }

    /// The AniList id of a season of a TVDB series, by the snapshot in
    /// place: that of the first entry under the TVDB id that lists the
    /// season's key, exactly as written.
    pub fn resolve_anilist_id(&self, tvdb_id: i64, season: u32) -> (r: Option<i64>)
        ensures
            match r {
                Some(id) => exists|k: int|
                    is_first_with_key(
                        entries_under(served_index(self.snapshot()), tvdb_id),
                        season_key_text(season),
                        k,
                    ) && (#[trigger] entries_under(served_index(self.snapshot()), tvdb_id)[k]).anilist_id
                        == id,
                None => forall|k: int|
                    0 <= k < entries_under(served_index(self.snapshot()), tvdb_id).len() ==> !(
                    #[trigger] entries_under(
                        served_index(self.snapshot()),
                        tvdb_id,
                    )[k]).seasons.contains(season_key_text(season)),
            },
    {
        match &self.cache {
            Some(snapshot) => {
                let r = snapshot.entries.lookup_by_tvdb_season(tvdb_id, season);
                proof {
                    let listed = entries_under(snapshot.entries@, tvdb_id);
                    assert(listed == entries_under(served_index(self.snapshot()), tvdb_id));
                    if let Some(id) = r {
                        let k = choose|k: int|
                            is_first_with_key(listed, season_key_text(season), k) && (
                            #[trigger] listed[k]).anilist_id == id;
                        assert(entries_under(served_index(self.snapshot()), tvdb_id)[k].anilist_id
                            == id);
                    }
                }
                r
            },
            None => {
                assert(entries_under(index_of(Seq::empty()), tvdb_id).len() == 0);
                None
            },
        }
    }

    /// The AniList id that stands for a TVDB series as a whole, by the
    /// snapshot in place: that of the entry with the earliest season, the
    /// first such entry where several share it.
    pub fn resolve_anilist_id_for_tvdb(&self, tvdb_id: i64) -> (r: Option<i64>)
        ensures
            match r {
                Some(id) => exists|k: int|
                    is_best_entry(entries_under(served_index(self.snapshot()), tvdb_id), k) && (
                    #[trigger] entries_under(served_index(self.snapshot()), tvdb_id)[k]).anilist_id
                        == id,
                None => entries_under(served_index(self.snapshot()), tvdb_id).len() == 0,
            },
    {
        match &self.cache {
            Some(snapshot) => {
                let r = snapshot.entries.lookup_best_for_tvdb(tvdb_id);
                proof {
                    let listed = entries_under(snapshot.entries@, tvdb_id);
                    assert(listed == entries_under(served_index(self.snapshot()), tvdb_id));
                    if let Some(id) = r {
                        let k = choose|k: int|
                            is_best_entry(listed, k) && (#[trigger] listed[k]).anilist_id == id;
                        assert(entries_under(served_index(self.snapshot()), tvdb_id)[k].anilist_id
                            == id);
                    }
                }
                r
            },
            None => {
                assert(entries_under(index_of(Seq::empty()), tvdb_id).len() == 0);
                None
            },
        }
    }

    /// The AniList id that a TMDB id stands for, by the snapshot in place.
    pub fn resolve_anilist_id_for_tmdb(&self, tmdb_id: i64) -> (r: Option<i64>)
        ensures
            r == (if served_index(self.snapshot()).tmdb_to_anilist.contains_key(tmdb_id) {
                Some(served_index(self.snapshot()).tmdb_to_anilist[tmdb_id])
            } else {
                None
            }),
    {
        match &self.cache {
            Some(snapshot) => snapshot.entries.lookup_anilist_for_tmdb(tmdb_id),
            None => None,
        }
    }

    /// The TMDB id of an AniList id, by the snapshot in place.
    pub fn resolve_tmdb_id(&self, anilist_id: i64) -> (r: Option<i64>)
        ensures
            r == (if served_index(self.snapshot()).anilist_to_tmdb.contains_key(anilist_id) {
                Some(served_index(self.snapshot()).anilist_to_tmdb[anilist_id])
            } else {
                None
            }),
    {
        match &self.cache {
            Some(snapshot) => snapshot.entries.lookup_tmdb_for_anilist(anilist_id),
            None => None,
        }
    }

    /// The TVDB ids of an AniList id, by the snapshot in place.
    pub fn resolve_tvdb_mappings(&self, anilist_id: i64) -> (r: Vec<TvdbMapping>)
        ensures
            r.deep_view() == mappings_under(served_index(self.snapshot()), anilist_id),
    {
        match &self.cache {
            Some(snapshot) => snapshot.entries.lookup_tvdb_mappings_for_anilist(anilist_id),
            None => {
                let none: Vec<TvdbMapping> = Vec::new();
                assert(none.deep_view() =~= mappings_under(index_of(Seq::empty()), anilist_id));
                none
            },
        }
    }
}

} // verus!

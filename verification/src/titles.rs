//! The title cache of a provider: the table from external id to title that a
//! resolver keeps, fills on a miss and prunes after each answer.

use std::collections::HashMap;
use std::collections::HashSet;
use vstd::prelude::*;
use vstd::std_specs::iter::IteratorSpec;

verus! {

broadcast use vstd::std_specs::hash::group_hash_axioms;

/// The titles known, by external id.
#[derive(Debug, Clone)]
pub struct TitleCache {
    entries: HashMap<i64, String>,
}

impl View for TitleCache {
    type V = Map<i64, Seq<char>>;

    closed spec fn view(&self) -> Map<i64, Seq<char>> {
        Map::new(|id: i64| self.entries@.contains_key(id), |id: i64| self.entries@[id]@)
    }
}

impl TitleCache {
    /// The cache that knows no title.
    pub fn new() -> (cache: TitleCache)
        ensures
            cache@ == Map::<i64, Seq<char>>::empty(),
    {
        let cache = TitleCache { entries: HashMap::new() };
        assert(cache@ =~= Map::<i64, Seq<char>>::empty());
        cache
    }

    /// Tells whether the cache knows no title.
    pub fn is_empty(&self) -> (r: bool)
        ensures
            r == (self@ == Map::<i64, Seq<char>>::empty()),
    {
        let r = self.entries.is_empty();
        proof {
            if r {
                assert(self@ =~= Map::<i64, Seq<char>>::empty());
            } else {
                let id = choose|id: i64| self.entries@.contains_key(id);
                assert(self.entries@.contains_key(id));
                assert(self@.contains_key(id));
            }
        }
        r
    }

    /// The title known for an id.
    pub fn cached_title(&self, id: i64) -> (r: Option<String>)
        ensures
            match r {
                Some(title) => self@.contains_key(id) && title@ == self@[id],
                None => !self@.contains_key(id),
            },
    {
        match self.entries.get(&id) {
            Some(title) => Some(title.clone()),
            None => None,
        }
    }

    /// Notes the title of an id, in place of what was known of the id.
    pub fn store_title(&mut self, id: i64, title: &str)
        ensures
            final(self)@ == old(self)@.insert(id, title@),
    {
        let owned = crate::text::text_of(title);
        self.entries.insert(id, owned);
        assert(final(self)@ =~= old(self)@.insert(id, title@));
    }

    /// Forgets every id that is not in `keep`, and tells whether any was
    /// forgotten.
    pub fn retain(&mut self, keep: &HashSet<i64>) -> (changed: bool)
        ensures
            final(self)@ == old(self)@.restrict(keep@),
            changed == exists|id: i64| old(self)@.contains_key(id) && !keep@.contains(id),
    {
        let mut doomed: Vec<i64> = Vec::new();
        let ghost keys = self.entries.keys().remaining();
        for id in it: self.entries.keys()
            invariant
                it.seq() == keys,
                keys.unref().to_set() == self.entries@.dom(),
                forall|j: int|
                    0 <= j < it.index() && !keep@.contains(*#[trigger] keys[j]) ==> doomed@.contains(
                        *keys[j],
                    ),
                forall|j: int|
                    0 <= j < doomed@.len() ==> self.entries@.contains_key(#[trigger] doomed@[j])
                        && !keep@.contains(doomed@[j]),
        {
            let ghost before = doomed@;
            let ghost at = it.index() as int;
            proof {
                assert(it.seq().unref()[at] == *id);
                assert(it.seq().unref().contains(*id));
                assert(it.seq().unref().to_set().contains(*id));
            }
            if !keep.contains(id) {
                doomed.push(*id);
                assert(doomed@[before.len() as int] == *id);
            }
            proof {
                assert forall|j: int|
                    0 <= j < at + 1 && !keep@.contains(*#[trigger] keys[j]) implies doomed@.contains(
                    *keys[j],
                ) by {
                    if j < at {
                        assert(before.contains(*keys[j]));
                        let w = choose|w: int| 0 <= w < before.len() && before[w] == *keys[j];
                        assert(doomed@[w] == *keys[j]);
                    }
                }
            }
        }
        let changed = doomed.len() > 0;
        proof {
            assert forall|id: i64|
                old(self).entries@.contains_key(id) && !keep@.contains(id) implies doomed@.contains(
                id,
            ) by {
                assert(keys.unref().to_set().contains(id));
                assert(keys.unref().contains(id));
                let j = choose|j: int| 0 <= j < keys.unref().len() && keys.unref()[j] == id;
                assert(*keys[j] == id);
            }
            if changed {
                assert(old(self)@.contains_key(doomed@[0]) && !keep@.contains(doomed@[0]));
            }
        }
        let mut i: usize = 0;
        while i < doomed.len()
            invariant
                i <= doomed.len(),
                forall|id: i64|
                    self.entries@.contains_key(id) <==> old(self).entries@.contains_key(id)
                        && !doomed@.take(i as int).contains(id),
                forall|id: i64|
                    self.entries@.contains_key(id) ==> self.entries@[id] == old(self).entries@[id],
            decreases doomed.len() - i,
        {
            let ghost before = self.entries@;
            let ghost gone = doomed@.take(i as int);
            self.entries.remove(&doomed[i]);
            proof {
                let next = doomed@.take(i + 1);
                assert(next =~= gone.push(doomed@[i as int]));
                assert forall|id: i64|
                    self.entries@.contains_key(id) <==> old(self).entries@.contains_key(id)
                        && !next.contains(id) by {
                    if id == doomed@[i as int] {
                        assert(next[i as int] == id);
                    } else {
                        if gone.contains(id) {
                            let w = choose|w: int| 0 <= w < gone.len() && gone[w] == id;
                            assert(next[w] == id);
                        }
                        if next.contains(id) {
                            let w = choose|w: int| 0 <= w < next.len() && next[w] == id;
                            assert(gone[w] == id);
                        }
                    }
                }
            }
            i += 1;
        }
        proof {
            assert(doomed@.take(doomed.len() as int) =~= doomed@);
            assert forall|id: i64| final(self)@.contains_key(id) <==> old(self)@.restrict(
                keep@,
            ).contains_key(id) by {
                if doomed@.contains(id) {
                    let w = choose|w: int| 0 <= w < doomed@.len() && doomed@[w] == id;
                    assert(!keep@.contains(doomed@[w]));
                }
            }
            assert(final(self)@ =~= old(self)@.restrict(keep@));
        }
        changed
    }
}

#[verifier::external_type_specification]
#[verifier::external_body]
pub struct ExJsonError(serde_json::Error);

/// The table of titles that `serde_json::from_slice` reads from a document: a
/// JSON object from ids to titles. `None` where the document is no such
/// object.
pub uninterp spec fn title_table_in(bytes: Seq<u8>) -> Option<Map<i64, Seq<char>>>;

/// The titles of a table, each as its text.
pub open spec fn table_texts(table: Map<i64, String>) -> Map<i64, Seq<char>> {
    Map::new(|id: i64| table.contains_key(id), |id: i64| table[id]@)
}

/// Reads a table of titles from a JSON document. Wraps
/// `serde_json::from_slice` at the type of a table from `i64` to `String`;
/// the contract names the table read, and claims no more of it than that it
/// depends on the bytes alone.
#[verifier::external_body]
fn decode_title_table(bytes: &[u8]) -> (r: Result<HashMap<i64, String>, serde_json::Error>)
    ensures
        match r {
            Ok(table) => title_table_in(bytes@) == Some(table_texts(table@)),
            Err(_) => title_table_in(bytes@) is None,
        },
{
    serde_json::from_slice(bytes)
}

/// Writes a table of titles as an indented JSON document. Wraps
/// `serde_json::to_vec_pretty`. The order of the entries in the document
/// follows the table's own, which is not fixed, so the bytes themselves get
/// no name. What holds of every document that comes out is that
/// `serde_json::from_slice` reads it back as the table that was written: the
/// crate writes each id as its decimal number in quotes, which is the form in
/// which it reads a number as the key of a map, and writes each title as a
/// JSON string, escaping what it unescapes on reading. The writing always
/// succeeds: the crate fails only where its writer does, where a value
/// refuses to be written or where the key of a map is no string or number,
/// and here the writer is a vector of bytes, the keys are numbers and the
/// values are strings.
#[verifier::external_body]
fn encode_title_table(table: &HashMap<i64, String>) -> (r: Result<Vec<u8>, serde_json::Error>)
    ensures
        r is Ok,
        r matches Ok(bytes) ==> title_table_in(bytes@) == Some(table_texts(table@)),
{
    serde_json::to_vec_pretty(table)
}

/// What reading the file of a cache gave.
#[derive(Debug, Clone)]
pub enum CacheRead {
    /// The directory of the file could not be made.
    NoDirectory,
    /// There is no such file.
    Missing,
    /// The file could not be read.
    Unreadable,
    /// The file holds these bytes.
    Contents(Vec<u8>),
}

/// Why a cache could not be loaded or kept.
#[derive(Debug)]
pub enum TitleCacheError {
    /// The file could not be read.
    Read,
    /// The file could not be written.
    Write,
    /// The file holds no table of titles.
    Parse(serde_json::Error),
    /// The table could not be written as a document.
    Serialise(serde_json::Error),
    /// The directory of the file could not be made.
    Dir,
}

/// The cache that a file stands for, or why there is none: an absent or
/// empty file stands for the empty cache, any other for the table it holds.
pub open spec fn loaded_cache(read: CacheRead) -> Option<Map<i64, Seq<char>>> {
    match read {
        CacheRead::NoDirectory => None,
        CacheRead::Missing => Some(Map::empty()),
        CacheRead::Unreadable => None,
        CacheRead::Contents(bytes) => if bytes@.len() == 0 {
            Some(Map::empty())
        } else {
            title_table_in(bytes@)
        },
    }
}

/// Loads a cache from what reading its file gave.
pub fn load_cache(read: &CacheRead) -> (r: Result<TitleCache, TitleCacheError>)
    ensures
        match r {
            Ok(cache) => loaded_cache(*read) == Some(cache@),
            Err(error) => loaded_cache(*read) is None && match *read {
                CacheRead::NoDirectory => error is Dir,
                CacheRead::Unreadable => error is Read,
                _ => error is Parse,
            },
        },
{
    match read {
        CacheRead::NoDirectory => Err(TitleCacheError::Dir),
        CacheRead::Missing => Ok(TitleCache::new()),
        CacheRead::Unreadable => Err(TitleCacheError::Read),
        CacheRead::Contents(bytes) => {
            if bytes.len() == 0 {
                return Ok(TitleCache::new());
            }
            match decode_title_table(bytes.as_slice()) {
                Ok(entries) => {
                    let cache = TitleCache { entries };
                    assert(cache@ =~= table_texts(entries@));
                    Ok(cache)
                },
                Err(error) => Err(TitleCacheError::Parse(error)),
            }
        },
    }
}

/// What a written document amounts to for the keeper of a cache: the
/// document, or the failure to serialise.
pub fn encoded(outcome: Result<Vec<u8>, serde_json::Error>) -> (r: Result<Vec<u8>, TitleCacheError>)
    ensures
        r == match outcome {
            Ok(bytes) => Ok::<Vec<u8>, TitleCacheError>(bytes),
            Err(error) => Err(TitleCacheError::Serialise(error)),
        },
{
    match outcome {
        Ok(bytes) => Ok(bytes),
        Err(error) => Err(TitleCacheError::Serialise(error)),
    }
}

impl TitleCache {
    /// Writes the cache as the document that its file is to hold: a document
    /// that reads back as the table of the cache. The order of the entries in
    /// the document is not fixed. A table of titles can always be written.
    pub fn encode(&self) -> (r: Result<Vec<u8>, TitleCacheError>)
        ensures
            r is Ok,
            r matches Ok(bytes) ==> title_table_in(bytes@) == Some(self@),
    {
        let written = encode_title_table(&self.entries);
        assert(table_texts(self.entries@) =~= self@);
        encoded(written)
    }
}

/// A title noted for an id is the title known for it from then on, so a
/// second request for the id finds it in the cache; once the cache has been
/// told to keep nothing, it knows no id, so the next request for the id
/// misses again.
pub proof fn lemma_title_known_until_forgotten(
    cache: Map<i64, Seq<char>>,
    id: i64,
    title: Seq<char>,
)
    ensures
        cache.insert(id, title).contains_key(id),
        cache.insert(id, title)[id] == title,
        cache.insert(id, title).restrict(Set::<i64>::empty()) == Map::<i64, Seq<char>>::empty(),
        !cache.insert(id, title).restrict(Set::<i64>::empty()).contains_key(id),
{
    assert(cache.insert(id, title).restrict(Set::<i64>::empty()) =~= Map::<i64, Seq<char>>::empty());
}

} // verus!

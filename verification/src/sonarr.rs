//! The resolver of series titles: the title of a TVDB id, from the cache or
//! from the series manager.

use crate::text::{push_signed_decimal, push_str, signed_decimal, string_of, text_of};
use crate::titles::{load_cache, loaded_cache, CacheRead, TitleCache, TitleCacheError};
use crate::weburl::{request_address, request_url, QueryPair};
use std::collections::HashSet;
use vstd::prelude::*;

verus! {

/// Why a series title could not be resolved, or the cache not kept.
#[derive(Debug)]
pub enum SonarrError {
    /// The address of the request could not be built.
    Url,
    /// The request did not go through, or its answer could not be read.
    Http,
    /// The series manager knows no title for the id.
    NotFound { tvdb_id: i64 },
    CacheRead,
    CacheWrite,
    CacheParse(serde_json::Error),
    CacheSerialise(serde_json::Error),
    CacheDir,
}

impl SonarrError {
    /// The resolver's error for a failure of its cache.
    pub fn from_cache(error: TitleCacheError) -> (r: SonarrError)
        ensures
            r == match error {
                TitleCacheError::Read => SonarrError::CacheRead,
                TitleCacheError::Write => SonarrError::CacheWrite,
                TitleCacheError::Parse(source) => SonarrError::CacheParse(source),
                TitleCacheError::Serialise(source) => SonarrError::CacheSerialise(source),
                TitleCacheError::Dir => SonarrError::CacheDir,
            },
    {
        match error {
            TitleCacheError::Read => SonarrError::CacheRead,
            TitleCacheError::Write => SonarrError::CacheWrite,
            TitleCacheError::Parse(source) => SonarrError::CacheParse(source),
            TitleCacheError::Serialise(source) => SonarrError::CacheSerialise(source),
            TitleCacheError::Dir => SonarrError::CacheDir,
        }
    }
}

/// One series of the series manager's answer to a lookup.
#[derive(Debug, Clone)]
pub struct SeriesLookupEntry {
    pub title: Option<String>,
}

/// How a lookup at the series manager ended.
#[derive(Debug, Clone)]
pub enum SeriesLookupOutcome {
    /// The request did not go through, was answered with an error status, or
    /// its answer could not be read.
    Unreachable,
    /// The series manager answered with these series.
    Entries(Vec<SeriesLookupEntry>),
}

/// What resolving a title takes.
#[derive(Debug)]
pub enum SeriesResolution {
    /// The cache knows the title.
    Cached(String),
    /// The series manager is to be asked at this address.
    Lookup(String),
    /// The title cannot be resolved.
    Failed(SonarrError),
}

/// The path of a series lookup, below the series manager's address.
pub open spec fn series_lookup_path() -> Seq<char> {
    "api/v3/series/lookup"@
}

/// The term that looks a series up by its TVDB id.
pub open spec fn series_lookup_term(tvdb_id: i64) -> Seq<char> {
    "tvdb:"@ + signed_decimal(tvdb_id as int)
}

/// The address of the lookup of a series, at the series manager at `base`:
/// the lookup path, with the one query parameter `term`.
pub open spec fn series_lookup_address(base: Seq<char>, tvdb_id: i64) -> Option<Seq<char>> {
    request_address(base, series_lookup_path(), seq![("term"@, series_lookup_term(tvdb_id))])
}

/// The title that an answer gives: that of the first series that has one.
pub open spec fn first_title(entries: Seq<SeriesLookupEntry>) -> Option<Seq<char>>
    decreases entries.len(),
{
    if entries.len() == 0 {
        None
    } else {
        match entries[0].title {
            Some(title) => Some(title@),
            None => first_title(entries.drop_first()),
        }
    }
}

/// The resolver of series titles.
#[derive(Debug)]
pub struct SonarrClient {
    base_url: String,
    cache: TitleCache,
}

impl SonarrClient {
    /// The address of the series manager.
    pub closed spec fn base(&self) -> Seq<char> {
        self.base_url@
    }

    /// The titles that the resolver knows.
    pub closed spec fn titles(&self) -> Map<i64, Seq<char>> {
        self.cache@
    }

    /// Sets a resolver up for the series manager at `base_url`, with the
    /// cache that the file of the cache stands for.
    pub fn new(base_url: String, cache_file: &CacheRead) -> (r: Result<SonarrClient, SonarrError>)
        ensures
            match r {
                Ok(client) => client.base() == base_url@ && loaded_cache(*cache_file) == Some(
                    client.titles(),
                ),
                Err(error) => loaded_cache(*cache_file) is None && match *cache_file {
                    CacheRead::NoDirectory => error is CacheDir,
                    CacheRead::Unreadable => error is CacheRead,
                    _ => error is CacheParse,
                },
            },
    {
        match load_cache(cache_file) {
            Ok(cache) => Ok(SonarrClient { base_url, cache }),
            Err(error) => Err(SonarrError::from_cache(error)),
        }
    }

    /// The cache, as it is to be kept.
    pub fn cache(&self) -> (r: &TitleCache)
        ensures
            r@ == self.titles(),
    {
        &self.cache
    }

    /// Tells what resolving the title of `tvdb_id` takes: nothing where the
    /// cache knows the title, else a lookup at the series manager.
    pub fn resolve_name(&self, tvdb_id: i64) -> (r: SeriesResolution)
        ensures
            self.titles().contains_key(tvdb_id) ==> (r matches SeriesResolution::Cached(title)
                && title@ == self.titles()[tvdb_id]),
            !self.titles().contains_key(tvdb_id) ==> match series_lookup_address(
                self.base(),
                tvdb_id,
            ) {
                Some(address) => r matches SeriesResolution::Lookup(url) && url@ == address,
                None => r matches SeriesResolution::Failed(error) && error is Url,
            },
    {
        if let Some(title) = self.cache.cached_title(tvdb_id) {
            return SeriesResolution::Cached(title);
        }
        let mut term: Vec<char> = Vec::new();
        push_str(&mut term, "tvdb:");
        push_signed_decimal(&mut term, tvdb_id);
        let mut pairs: Vec<QueryPair> = Vec::new();
        pairs.push(QueryPair { name: text_of("term"), value: string_of(&term) });
        assert(pairs.deep_view() =~= seq![("term"@, series_lookup_term(tvdb_id))]);
        match request_url(self.base_url.as_str(), "api/v3/series/lookup", &pairs) {
            Some(url) => SeriesResolution::Lookup(url),
            None => SeriesResolution::Failed(SonarrError::Url),
        }
    }

    /// Takes in how the lookup for `tvdb_id` ended. The title found is noted
    /// in the cache, which is then to be written to its file; where none is
    /// found the cache stays as it is.
    pub fn accept_lookup(&mut self, tvdb_id: i64, outcome: &SeriesLookupOutcome) -> (r: Result<
        String,
        SonarrError,
    >)
        ensures
            final(self).base() == old(self).base(),
            match *outcome {
                SeriesLookupOutcome::Unreachable => r matches Err(error) && error is Http
                    && final(self).titles() == old(self).titles(),
                SeriesLookupOutcome::Entries(entries) => match first_title(entries@) {
                    Some(title) => r matches Ok(found) && found@ == title && final(self).titles()
                        == old(self).titles().insert(tvdb_id, title),
                    None => r matches Err(error) && error == (SonarrError::NotFound { tvdb_id })
                        && final(self).titles() == old(self).titles(),
                },
            },
    {
        match outcome {
            SeriesLookupOutcome::Unreachable => Err(SonarrError::Http),
            SeriesLookupOutcome::Entries(entries) => {
                let mut i: usize = 0;
                assert(entries@.skip(0) =~= entries@);
                while i < entries.len()
                    invariant
                        i <= entries.len(),
                        first_title(entries@) == first_title(entries@.skip(i as int)),
                        *outcome == SeriesLookupOutcome::Entries(*entries),
                        *self == *old(self),
                    decreases entries.len() - i,
                {
                    proof {
                        assert(entries@.skip(i as int).drop_first() =~= entries@.skip(i + 1));
                        assert(entries@.skip(i as int)[0] == entries@[i as int]);
                    }
                    if let Some(title) = &entries[i].title {
                        assert(first_title(entries@) == Some(title@));
                        self.cache.store_title(tvdb_id, title.as_str());
                        let found = title.clone();
                        assert(found@ == title@);
                        return Ok(found);
                    }
                    i += 1;
                }
                assert(entries@.skip(entries.len() as int).len() == 0);
                Err(SonarrError::NotFound { tvdb_id })
            },
        }
    }

    /// Forgets the titles of all ids but those in `keep`, and tells whether
    /// any was forgotten, in which case the cache is to be written to its
    /// file. With nothing to keep, the cache is cleared.
    pub fn retain_titles(&mut self, keep: &HashSet<i64>) -> (changed: bool)
        ensures
            final(self).base() == old(self).base(),
            final(self).titles() == old(self).titles().restrict(keep@),
            changed == exists|id: i64| old(self).titles().contains_key(id) && !keep@.contains(id),
    {
        self.cache.retain(keep)
    }
}

} // verus!

//! The resolver of movie titles: the title of a TMDB id, from the cache or
//! from the movie manager.

use crate::text::{push_signed_decimal, signed_decimal, string_of, text_of};
use crate::titles::{load_cache, loaded_cache, CacheRead, TitleCache, TitleCacheError};
use crate::weburl::{request_address, request_url, QueryPair};
use std::collections::HashSet;
use vstd::prelude::*;

verus! {

/// Why a movie title could not be resolved, or the cache not kept.
#[derive(Debug)]
pub enum RadarrError {
    /// The address of the request could not be built.
    Url,
    /// The request did not go through, or its answer could not be read.
    Http,
    /// The movie manager knows no title for the id.
    NotFound { tmdb_id: i64 },
    CacheRead,
    CacheWrite,
    CacheParse(serde_json::Error),
    CacheSerialise(serde_json::Error),
    CacheDir,
}

impl RadarrError {
    /// The resolver's error for a failure of its cache.
    pub fn from_cache(error: TitleCacheError) -> (r: RadarrError)
        ensures
            r == match error {
                TitleCacheError::Read => RadarrError::CacheRead,
                TitleCacheError::Write => RadarrError::CacheWrite,
                TitleCacheError::Parse(source) => RadarrError::CacheParse(source),
                TitleCacheError::Serialise(source) => RadarrError::CacheSerialise(source),
                TitleCacheError::Dir => RadarrError::CacheDir,
            },
    {
        match error {
            TitleCacheError::Read => RadarrError::CacheRead,
            TitleCacheError::Write => RadarrError::CacheWrite,
            TitleCacheError::Parse(source) => RadarrError::CacheParse(source),
            TitleCacheError::Serialise(source) => RadarrError::CacheSerialise(source),
            TitleCacheError::Dir => RadarrError::CacheDir,
        }
    }
}

/// The movie manager's answer to a lookup.
#[derive(Debug, Clone)]
pub struct MovieLookupEntry {
    pub title: Option<String>,
    /// The year of release; zero where the movie manager gave none.
    pub year: u32,
}

/// The name of a movie: its title and its year of release, zero where the
/// year is not known.
#[derive(Debug, Clone)]
pub struct MovieName {
    pub title: String,
    pub year: u32,
}

/// How a lookup at the movie manager ended.
#[derive(Debug, Clone)]
pub enum MovieLookupOutcome {
    /// The request did not go through, was answered with an error status, or
    /// its answer could not be read.
    Unreachable,
    /// The movie manager answered.
    Entry(MovieLookupEntry),
}

/// What resolving a movie's name takes.
#[derive(Debug)]
pub enum MovieResolution {
    /// The cache knows the title. The cache keeps no year.
    Cached(MovieName),
    /// The movie manager is to be asked at this address.
    Lookup(String),
    /// The name cannot be resolved.
    Failed(RadarrError),
}

/// The path of a movie lookup, below the movie manager's address.
pub open spec fn movie_lookup_path() -> Seq<char> {
    "api/v3/movie/lookup/tmdb"@
}

/// The address of the lookup of a movie, at the movie manager at `base`: the
/// lookup path, with the one query parameter `tmdbId`.
pub open spec fn movie_lookup_address(base: Seq<char>, tmdb_id: i64) -> Option<Seq<char>> {
    request_address(base, movie_lookup_path(), seq![("tmdbId"@, signed_decimal(tmdb_id as int))])
}

/// The resolver of movie titles.
#[derive(Debug)]
pub struct RadarrClient {
    base_url: String,
    cache: TitleCache,
}

impl RadarrClient {
    /// The address of the movie manager.
    pub closed spec fn base(&self) -> Seq<char> {
        self.base_url@
    }

    /// The titles that the resolver knows.
    pub closed spec fn titles(&self) -> Map<i64, Seq<char>> {
        self.cache@
    }

    /// Sets a resolver up for the movie manager at `base_url`, with the cache
    /// that the file of the cache stands for.
    pub fn new(base_url: String, cache_file: &CacheRead) -> (r: Result<RadarrClient, RadarrError>)
        ensures
            match r {
                Ok(client) => client.base() == base_url@ && loaded_cache(*cache_file) == Some(
                    client.titles(),
                ),
                Err(error) => loaded_cache(*cache_file) is None && match *cache_file {
                    CacheRead::NoDirectory => error is CacheDir,
                    CacheRead::Unreadable => error is CacheRead,
                    _ => error is CacheParse,
                },
            },
    {
        match load_cache(cache_file) {
            Ok(cache) => Ok(RadarrClient { base_url, cache }),
            Err(error) => Err(RadarrError::from_cache(error)),
        }
    }

    /// The cache, as it is to be kept.
    pub fn cache(&self) -> (r: &TitleCache)
        ensures
            r@ == self.titles(),
    {
        &self.cache
    }

    /// Tells what resolving the name of `tmdb_id` takes: nothing where the
    /// cache knows the title, else a lookup at the movie manager. A name from
    /// the cache has no year.
    pub fn resolve_name(&self, tmdb_id: i64) -> (r: MovieResolution)
        ensures
            self.titles().contains_key(tmdb_id) ==> (r matches MovieResolution::Cached(name)
                && name.title@ == self.titles()[tmdb_id] && name.year == 0),
            !self.titles().contains_key(tmdb_id) ==> match movie_lookup_address(
                self.base(),
                tmdb_id,
            ) {
                Some(address) => r matches MovieResolution::Lookup(url) && url@ == address,
                None => r matches MovieResolution::Failed(error) && error is Url,
            },
    {
        if let Some(title) = self.cache.cached_title(tmdb_id) {
            return MovieResolution::Cached(MovieName { title, year: 0 });
        }
        let mut value: Vec<char> = Vec::new();
        push_signed_decimal(&mut value, tmdb_id);
        assert(value@ =~= signed_decimal(tmdb_id as int));
        let mut pairs: Vec<QueryPair> = Vec::new();
        pairs.push(QueryPair { name: text_of("tmdbId"), value: string_of(&value) });
        assert(pairs.deep_view() =~= seq![("tmdbId"@, signed_decimal(tmdb_id as int))]);
        match request_url(self.base_url.as_str(), "api/v3/movie/lookup/tmdb", &pairs) {
            Some(url) => MovieResolution::Lookup(url),
            None => MovieResolution::Failed(RadarrError::Url),
        }
    }

    /// Takes in how the lookup for `tmdb_id` ended. The title found is noted
    /// in the cache, which is then to be written to its file; where none is
    /// found the cache stays as it is.
    pub fn accept_lookup(&mut self, tmdb_id: i64, outcome: &MovieLookupOutcome) -> (r: Result<
        MovieName,
        RadarrError,
    >)
        ensures
            final(self).base() == old(self).base(),
            match *outcome {
                MovieLookupOutcome::Unreachable => r matches Err(error) && error is Http
                    && final(self).titles() == old(self).titles(),
                MovieLookupOutcome::Entry(entry) => match entry.title {
                    Some(title) => r matches Ok(name) && name.title@ == title@ && name.year
                        == entry.year && final(self).titles() == old(self).titles().insert(
                        tmdb_id,
                        title@,
                    ),
                    None => r matches Err(error) && error == (RadarrError::NotFound { tmdb_id })
                        && final(self).titles() == old(self).titles(),
                },
            },
    {
        match outcome {
            MovieLookupOutcome::Unreachable => Err(RadarrError::Http),
            MovieLookupOutcome::Entry(entry) => match &entry.title {
                Some(title) => {
                    self.cache.store_title(tmdb_id, title.as_str());
                    Ok(MovieName { title: title.clone(), year: entry.year })
                },
                None => Err(RadarrError::NotFound { tmdb_id }),
            },
        }
    }

    /// Forgets the titles of all ids but those in `keep`, and tells whether
    /// any was forgotten, in which case the cache is to be written to its
    /// file. With nothing to keep, the cache is cleared.
    pub fn retain_titles(&mut self, keep: &HashSet<i64>) -> (changed: bool)
        ensures
            final(self).base() == old(self).base(),
            final(self).titles() == old(self).titles().restrict(keep@),
            changed == exists|id: i64| old(self).titles().contains_key(id) && !keep@.contains(id),
    {
        self.cache.retain(keep)
    }
}

} // verus!

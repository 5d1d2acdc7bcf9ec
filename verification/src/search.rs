//! The searches that the indexer answers: each a run of steps between which
//! the caller asks the mapping store, the release source, the catalogue and
//! the title resolvers.

use crate::anilist::{format_allowed, movie_format_allowed, AniListError, AniListMedia};
use crate::feed::{
    build_torznab_item, default_torrent_title, effective_limit, eligible, fetch_limit,
    format_movie_feed_title, format_series_feed_title, is_display_mapping, is_eligible, item_of,
    movie_category_ids, movie_feed_title, packs, page_limit, page_of, placeholder_title,
    select_tvdb_and_season, series_feed_title, torrent_is_eligible, tv_category_ids,
};
use crate::mapping::TvdbMapping;
use crate::query::{category_filter_matches, filter_accepts, TorznabQuery};
use crate::season::min_season;
use crate::radarr::{MovieName, RadarrError};
use crate::releases::{ReleasesError, ResolvedIds, Torrent, TorrentView};
use crate::sonarr::SonarrError;
use crate::sync::MappingError;
use crate::text::{parse_i64, parse_u32, push_str, string_of, text_of, trim};
use crate::torznab::{
    TorznabBuildError, TorznabItem, TorznabItemView, ANIME_CATEGORY_ID, ANIME_SUBCATEGORY_ID,
    MOVIE_CATEGORY_ID,
};
use std::collections::HashMap;
use std::collections::HashSet;
use vstd::prelude::*;

verus! {

broadcast use vstd::std_specs::hash::group_hash_axioms;

/// Why a request could not be answered.
#[derive(Debug)]
pub enum HttpError {
    UnsupportedOperation(String),
    BaseUrl(String),
    Mapping(MappingError),
    Releases(ReleasesError),
    Torznab(TorznabBuildError),
    AniList(AniListError),
    Sonarr(SonarrError),
    Radarr(RadarrError),
    /// The caller handed back something that was not asked for.
    OutOfTurn,
}

/// The status that says that the request itself was at fault.
pub const BAD_REQUEST: u16 = 400;

/// The status that says that the indexer was at fault.
pub const INTERNAL_SERVER_ERROR: u16 = 500;

/// The status that says that a service the indexer relies on was at fault.
pub const BAD_GATEWAY: u16 = 502;

impl HttpError {
    /// The status with which the failure is answered: a bad request for an
    /// operation that is not supported, an internal error where the indexer
    /// could not build an address or the feed, a bad gateway where a service
    /// it relies on failed.
    pub open spec fn status_of(self) -> u16 {
        match self {
            HttpError::UnsupportedOperation(_) => BAD_REQUEST,
            HttpError::BaseUrl(_) => INTERNAL_SERVER_ERROR,
            HttpError::Mapping(_) => BAD_GATEWAY,
            HttpError::Releases(ReleasesError::Url) => INTERNAL_SERVER_ERROR,
            HttpError::Releases(_) => BAD_GATEWAY,
            HttpError::Torznab(_) => INTERNAL_SERVER_ERROR,
            HttpError::AniList(_) => BAD_GATEWAY,
            HttpError::Sonarr(SonarrError::Url) => INTERNAL_SERVER_ERROR,
            HttpError::Sonarr(_) => BAD_GATEWAY,
            HttpError::Radarr(RadarrError::Url) => INTERNAL_SERVER_ERROR,
            HttpError::Radarr(_) => BAD_GATEWAY,
            HttpError::OutOfTurn => INTERNAL_SERVER_ERROR,
        }
    }

    /// The status with which the failure is answered.
    pub fn status(&self) -> (r: u16)
        ensures
            r == self.status_of(),
    {
        match self {
            HttpError::UnsupportedOperation(_) => BAD_REQUEST,
            HttpError::BaseUrl(_) => INTERNAL_SERVER_ERROR,
            HttpError::Mapping(_) => BAD_GATEWAY,
            HttpError::Releases(ReleasesError::Url) => INTERNAL_SERVER_ERROR,
            HttpError::Releases(_) => BAD_GATEWAY,
            HttpError::Torznab(_) => INTERNAL_SERVER_ERROR,
            HttpError::AniList(_) => BAD_GATEWAY,
            HttpError::Sonarr(SonarrError::Url) => INTERNAL_SERVER_ERROR,
            HttpError::Sonarr(_) => BAD_GATEWAY,
            HttpError::Radarr(RadarrError::Url) => INTERNAL_SERVER_ERROR,
            HttpError::Radarr(_) => BAD_GATEWAY,
            HttpError::OutOfTurn => INTERNAL_SERVER_ERROR,
        }
    }
}

impl HttpError {
    /// What the answer to the failure says: the operation that is not
    /// supported, or which part of the work failed.
    pub open spec fn message_of(self) -> Seq<char> {
        match self {
            HttpError::UnsupportedOperation(name) => "unsupported torznab operation `"@ + name@
                + "`"@,
            HttpError::BaseUrl(_) => "Failed to construct public facing URL for seadexerr indexer"@,
            HttpError::Mapping(_) => "Failed to resolve PlexAniBridge mapping for the requested query"@,
            HttpError::Releases(ReleasesError::Url) => "Failed to construct releases.moe request"@,
            HttpError::Releases(_) => "Failed to query releases.moe"@,
            HttpError::Torznab(_) => "Failed to render torznab payload"@,
            HttpError::AniList(_) => "Failed to query AniList"@,
            HttpError::Sonarr(SonarrError::Url) => "Failed to construct Sonarr request"@,
            HttpError::Sonarr(_) => "Failed to query Sonarr"@,
            HttpError::Radarr(RadarrError::Url) => "Failed to construct Radarr request"@,
            HttpError::Radarr(_) => "Failed to query Radarr"@,
            HttpError::OutOfTurn => "Failed to follow the steps of the search"@,
        }
    }

    /// What the answer to the failure says.
    pub fn message(&self) -> (r: String)
        ensures
            r@ == self.message_of(),
    {
        match self {
            HttpError::UnsupportedOperation(name) => {
                let mut out: Vec<char> = Vec::new();
                push_str(&mut out, "unsupported torznab operation `");
                push_str(&mut out, name.as_str());
                push_str(&mut out, "`");
                assert(out@ =~= self.message_of());
                string_of(&out)
            },
            HttpError::BaseUrl(_) => text_of(
                "Failed to construct public facing URL for seadexerr indexer",
            ),
            HttpError::Mapping(_) => text_of(
                "Failed to resolve PlexAniBridge mapping for the requested query",
            ),
            HttpError::Releases(ReleasesError::Url) => text_of(
                "Failed to construct releases.moe request",
            ),
            HttpError::Releases(_) => text_of("Failed to query releases.moe"),
            HttpError::Torznab(_) => text_of("Failed to render torznab payload"),
            HttpError::AniList(_) => text_of("Failed to query AniList"),
            HttpError::Sonarr(SonarrError::Url) => text_of("Failed to construct Sonarr request"),
            HttpError::Sonarr(_) => text_of("Failed to query Sonarr"),
            HttpError::Radarr(RadarrError::Url) => text_of("Failed to construct Radarr request"),
            HttpError::Radarr(_) => text_of("Failed to query Radarr"),
            HttpError::OutOfTurn => text_of("Failed to follow the steps of the search"),
        }
    }
}

/// A page of a feed: its items, where it starts among all the items that the
/// feed serves, and how many those are.
#[derive(Debug)]
pub struct FeedPage {
    pub items: Vec<TorznabItem>,
    pub offset: usize,
    pub total: usize,
}

impl FeedPage {
    /// The page that holds nothing, of a feed that serves nothing.
    pub fn empty(offset: usize) -> (r: FeedPage)
        ensures
            r.items@.len() == 0,
            r.offset == offset,
            r.total == 0,
    {
        FeedPage { items: Vec::new(), offset, total: 0 }
    }
}

/// The items that list the candidates of a page, all under one title and
/// one list of categories.
pub open spec fn items_of(page: Seq<TorrentView>, title: Seq<char>, categories: Seq<u32>) -> Seq<
    TorznabItemView,
> {
    Seq::new(page.len(), |i: int| item_of(page[i], title, categories))
}

/// Makes the items of a page out of the candidates that the feed serves.
pub fn page_items(
    served: Vec<Torrent>,
    offset: usize,
    limit: usize,
    title: &String,
    series: bool,
) -> (r: Vec<TorznabItem>)
    ensures
        r.deep_view() == items_of(
            page_of(served.deep_view(), offset as nat, limit as nat),
            title@,
            if series {
                seq![ANIME_CATEGORY_ID, ANIME_SUBCATEGORY_ID]
            } else {
                seq![MOVIE_CATEGORY_ID]
            },
        ),
{
    let ghost all = served.deep_view();
    let ghost given = served@;
    let ghost page = page_of(all, offset as nat, limit as nat);
    let ghost categories = if series {
        seq![ANIME_CATEGORY_ID, ANIME_SUBCATEGORY_ID]
    } else {
        seq![MOVIE_CATEGORY_ID]
    };
    let mut items: Vec<TorznabItem> = Vec::new();
    let total = served.len();
    if offset >= total {
        assert(items.deep_view() =~= items_of(page, title@, categories));
        return items;
    }
    let end = if limit >= total - offset {
        total
    } else {
        offset + limit
    };
    assert(page =~= all.subrange(offset as int, end as int));
    let mut i: usize = 0;
    for torrent in it: served
        invariant
            i == it.index(),
            it.seq() == given,
            given.len() == total,
            all.len() == total,
            forall|k: int| 0 <= k < total ==> (#[trigger] given[k])@ == all[k],
            offset < total,
            offset <= end <= total,
            items@.len() == (if i <= offset {
                0
            } else if i <= end {
                i - offset
            } else {
                end - offset
            }),
            forall|k: int|
                0 <= k < items@.len() ==> (#[trigger] items@[k])@ == item_of(
                    all[offset + k],
                    title@,
                    categories,
                ),
            categories == (if series {
                seq![ANIME_CATEGORY_ID, ANIME_SUBCATEGORY_ID]
            } else {
                seq![MOVIE_CATEGORY_ID]
            }),
    {
        if offset <= i && i < end {
            assert(torrent@ == all[i as int]);
            let ids = if series {
                tv_category_ids()
            } else {
                movie_category_ids()
            };
            items.push(build_torznab_item(torrent, title.clone(), ids));
        }
        i += 1;
    }
    assert(items.deep_view() =~= items_of(page, title@, categories));
    items
}

/// Keeps the season packs among the candidates.
pub fn keep_packs(torrents: Vec<Torrent>) -> (r: Vec<Torrent>)
    ensures
        r.deep_view() == packs(torrents.deep_view()),
{
    let ghost all = torrents.deep_view();
    let ghost given = torrents@;
    let mut kept: Vec<Torrent> = Vec::new();
    assert(kept.deep_view() =~= packs(all.take(0)));
    for torrent in it: torrents
        invariant
            it.seq() == given,
            all.len() == given.len(),
            forall|k: int| 0 <= k < given.len() ==> (#[trigger] given[k])@ == all[k],
            kept.deep_view() == packs(all.take(it.index() as int)),
    {
        proof {
            assert(all.take(it.index() + 1).drop_last() =~= all.take(it.index() as int));
            assert(all.take(it.index() + 1).last() == torrent@);
        }
        if torrent.files.len() > 1 {
            let ghost before = kept.deep_view();
            kept.push(torrent);
            assert(kept.deep_view() =~= before.push(torrent@));
        }
    }
    assert(all.take(all.len() as int) =~= all);
    kept
}

/// What the caller hands back after it has done what it was asked.
#[derive(Debug)]
pub enum SearchEvent {
    /// The AniList id that the mapping store gave, or none; or why the store
    /// could not be brought up to date.
    Mapping(Result<Option<i64>, MappingError>),
    /// The candidates that the release source gave.
    Torrents(Result<Vec<Torrent>, ReleasesError>),
    /// The AniList ids that the release source gave for torrents.
    Identities(Result<ResolvedIds, ReleasesError>),
    /// The formats that the catalogue gave.
    Media(Result<HashMap<i64, AniListMedia>, AniListError>),
    /// The TVDB ids that the mapping store gave for an AniList id.
    TvdbMappings(Result<Vec<TvdbMapping>, MappingError>),
    /// The TMDB id that the mapping store gave for an AniList id.
    TmdbId(Result<Option<i64>, MappingError>),
    /// The title that the series resolver gave.
    SeriesTitle(Result<String, SonarrError>),
    /// The name that the movie resolver gave.
    MovieName(Result<MovieName, RadarrError>),
}

/// What the caller is asked to do next.
#[derive(Debug)]
pub enum SearchAction {
    /// Bring the mapping store up to date and ask it for the AniList id of
    /// the season.
    AnilistForSeason { tvdb_id: i64, season: u32 },
    /// Bring the mapping store up to date and ask it for the AniList id of
    /// the TMDB id.
    AnilistForTmdb { tmdb_id: i64 },
    /// Ask the release source for the torrents of the AniList id.
    Search { anilist_id: i64, limit: usize },
    /// Ask the release source for the torrents updated last.
    Recent { limit: usize },
    /// Ask the release source for the AniList ids of these torrents.
    Identities(Vec<String>),
    /// Ask the catalogue for the formats of these AniList ids.
    Classify(Vec<i64>),
    /// Bring the mapping store up to date and ask it for the TVDB ids of the
    /// AniList id.
    TvdbMappings { anilist_id: i64 },
    /// Bring the mapping store up to date and ask it for the TMDB id of the
    /// AniList id.
    TmdbId { anilist_id: i64 },
    /// Ask the series resolver for the title of the TVDB id.
    SeriesTitle { tvdb_id: i64 },
    /// Ask the movie resolver for the name of the TMDB id.
    MovieName { tmdb_id: i64 },
    /// Answer with this page.
    Respond(FeedPage),
    /// Answer with this page, then tell each resolver that is in use to keep
    /// the titles of these ids only.
    RespondAndRetain { page: FeedPage, tvdb_ids: HashSet<i64>, tmdb_ids: HashSet<i64> },
    /// Answer with this failure.
    Fail(HttpError),
}

/// What a search for a series or a movie is after.
#[derive(Debug, Clone, Copy, PartialEq, Eq, Structural)]
pub enum Target {
    Series { tvdb_id: i64, season: u32 },
    Movie { tmdb_id: i64 },
}

/// What a search for a series or a movie waits for.
#[derive(Debug, Clone, Copy, PartialEq, Eq, Structural)]
pub enum TargetPhase {
    Mapping,
    Torrents,
    Media,
    Title,
    Finished,
}

/// A search for the releases of one series season or one movie, in progress.
#[derive(Debug)]
pub struct TargetSearch {
    phase: TargetPhase,
    target: Target,
    offset: usize,
    limit: usize,
    default_limit: usize,
    anilist_id: i64,
    collected: Vec<Torrent>,
}

/// The offset that a request asks for; zero where it asks for none.
pub open spec fn page_offset(requested: Option<usize>) -> usize {
    match requested {
        Some(offset) => offset,
        None => 0,
    }
}

/// The series season that a query asks for, where it names both a TVDB id
/// and a season that read as numbers.
pub open spec fn series_target(query: TorznabQuery) -> Option<Target> {
    let tvdb_id = match query.tvdb_id {
        Some(value) => parse_i64(trim(value@)),
        None => None,
    };
    let season = match query.season {
        Some(value) => parse_u32(trim(value@)),
        None => None,
    };
    match (tvdb_id, season) {
        (Some(tvdb_id), Some(season)) => Some(Target::Series { tvdb_id, season }),
        _ => None,
    }
}

/// The movie that a query asks for, where it names a TMDB id that reads as a
/// number.
pub open spec fn movie_target(query: TorznabQuery) -> Option<Target> {
    let tmdb_id = match query.tmdb_id {
        Some(value) => parse_i64(trim(value@)),
        None => None,
    };
    match tmdb_id {
        Some(tmdb_id) => Some(Target::Movie { tmdb_id }),
        None => None,
    }
}

/// The page that is answered with where there is nothing to serve.
pub open spec fn is_empty_page(page: FeedPage, offset: usize) -> bool {
    page.items@.len() == 0 && page.offset == offset && page.total == 0
}

/// The action that answers with the empty page.
pub open spec fn responds_empty(action: SearchAction, offset: usize) -> bool {
    action matches SearchAction::Respond(page) && is_empty_page(page, offset)
}

/// Whether the catalogue says that the AniList id is of the kind that the
/// target asks for.
pub open spec fn format_fits(target: Target, media: Map<i64, AniListMedia>, anilist_id: i64) -> bool {
    media.contains_key(anilist_id) && match target {
        Target::Series { .. } => media[anilist_id].format.is_series(),
        Target::Movie { .. } => media[anilist_id].format.is_movie(),
    }
}

impl TargetSearch {
    pub closed spec fn phase(self) -> TargetPhase {
        self.phase
    }

    pub closed spec fn target(self) -> Target {
        self.target
    }

    pub closed spec fn offset(self) -> usize {
        self.offset
    }

    pub closed spec fn limit(self) -> usize {
        self.limit
    }

    pub closed spec fn default_limit(self) -> usize {
        self.default_limit
    }

    /// The AniList id that the target stands for, once the mapping store has
    /// told it.
    pub closed spec fn anilist_id(self) -> i64 {
        self.anilist_id
    }

    /// The candidates that the release source gave.
    pub closed spec fn collected(self) -> Seq<TorrentView> {
        self.collected.deep_view()
    }

    /// The search is as it was, but for where it stands.
    pub open spec fn moved_to(self, before: TargetSearch, phase: TargetPhase) -> bool {
        &&& self.phase() == phase
        &&& self.target() == before.target()
        &&& self.offset() == before.offset()
        &&& self.limit() == before.limit()
        &&& self.default_limit() == before.default_limit()
    }

    /// How a search starts: with the question for the AniList id of its
    /// target, or, where it has no target or its resolver is not in use,
    /// with the empty page.
    pub open spec fn started(
        target: Option<Target>,
        enabled: bool,
        query: TorznabQuery,
        default_limit: usize,
        search: TargetSearch,
        action: SearchAction,
    ) -> bool {
        &&& search.offset() == page_offset(query.offset)
        &&& search.limit() == page_limit(query.limit, default_limit)
        &&& search.default_limit() == default_limit
        &&& match target {
            Some(target) if enabled => {
                &&& search.phase() == TargetPhase::Mapping
                &&& search.target() == target
                &&& match target {
                    Target::Series { tvdb_id, season } => action matches SearchAction::AnilistForSeason {
                        tvdb_id: t,
                        season: s,
                    } && t == tvdb_id && s == season,
                    Target::Movie { tmdb_id } => action matches SearchAction::AnilistForTmdb {
                        tmdb_id: t,
                    } && t == tmdb_id,
                }
            },
            _ => search.phase() == TargetPhase::Finished && responds_empty(
                action,
                page_offset(query.offset),
            ),
        }
    }

    fn start(target: Option<Target>, query: &TorznabQuery, default_limit: usize, enabled: bool) -> (r: (
        TargetSearch,
        SearchAction,
    ))
        ensures
            Self::started(target, enabled, *query, default_limit, r.0, r.1),
    {
        let limit = effective_limit(query.limit, default_limit);
        let offset = match query.offset {
            Some(offset) => offset,
            None => 0,
        };
        let usable = match target {
            Some(target) if enabled => Some(target),
            _ => None,
        };
        match usable {
            Some(target) => {
                let search = TargetSearch {
                    phase: TargetPhase::Mapping,
                    target,
                    offset,
                    limit,
                    default_limit,
                    anilist_id: 0,
                    collected: Vec::new(),
                };
                let action = match target {
                    Target::Series { tvdb_id, season } => SearchAction::AnilistForSeason {
                        tvdb_id,
                        season,
                    },
                    Target::Movie { tmdb_id } => SearchAction::AnilistForTmdb { tmdb_id },
                };
                (search, action)
            },
            None => {
                let search = TargetSearch {
                    phase: TargetPhase::Finished,
                    target: Target::Movie { tmdb_id: 0 },
                    offset,
                    limit,
                    default_limit,
                    anilist_id: 0,
                    collected: Vec::new(),
                };
                (search, SearchAction::Respond(FeedPage::empty(offset)))
            },
        }
    }

    fn finished(self) -> (r: TargetSearch)
        ensures
            r.moved_to(self, TargetPhase::Finished),
    {
        TargetSearch {
            phase: TargetPhase::Finished,
            target: self.target,
            offset: self.offset,
            limit: self.limit,
            default_limit: self.default_limit,
            anilist_id: self.anilist_id,
            collected: Vec::new(),
        }
    }

    fn respond_empty(self) -> (r: (TargetSearch, SearchAction))
        ensures
            r.0.moved_to(self, TargetPhase::Finished),
            responds_empty(r.1, self.offset()),
    {
        let offset = self.offset;
        (self.finished(), SearchAction::Respond(FeedPage::empty(offset)))
    }

    /// Takes in what the caller hands back, and tells what to do next.
    ///
    /// The target is resolved to an AniList id, the torrents of that id are
    /// collected, and its format is asked for; where the format fits the
    /// target, the title is resolved and the page is made. An id that is not
    /// mapped, a format that is unknown or does not fit, and a title that
    /// the resolver does not know all end the search with the empty page; a
    /// failure of a service ends it with that failure; so does an event that
    /// was not waited for.
    pub fn step(self, event: SearchEvent) -> (r: (TargetSearch, SearchAction))
        ensures
            match (self.phase(), event) {
                (TargetPhase::Mapping, SearchEvent::Mapping(Err(error))) => r.0.moved_to(
                    self,
                    TargetPhase::Finished,
                ) && (r.1 matches SearchAction::Fail(HttpError::Mapping(e)) && e == error),
                (TargetPhase::Mapping, SearchEvent::Mapping(Ok(None))) => r.0.moved_to(
                    self,
                    TargetPhase::Finished,
                ) && responds_empty(r.1, self.offset()),
                (TargetPhase::Mapping, SearchEvent::Mapping(Ok(Some(anilist_id)))) => {
                    &&& r.0.moved_to(self, TargetPhase::Torrents)
                    &&& r.0.anilist_id() == anilist_id
                    &&& r.1 matches SearchAction::Search { anilist_id: a, limit: l }
                    &&& a == anilist_id
                    &&& l == (if self.offset() + self.limit() < self.default_limit() {
                        (self.offset() + self.limit()) as usize
                    } else {
                        self.default_limit()
                    })
                },
                (TargetPhase::Torrents, SearchEvent::Torrents(Err(error))) => r.0.moved_to(
                    self,
                    TargetPhase::Finished,
                ) && (r.1 matches SearchAction::Fail(HttpError::Releases(e)) && e == error),
                (TargetPhase::Torrents, SearchEvent::Torrents(Ok(found))) => {
                    &&& r.0.moved_to(self, TargetPhase::Media)
                    &&& r.0.anilist_id() == self.anilist_id()
                    &&& r.0.collected() == found.deep_view()
                    &&& r.1 matches SearchAction::Classify(ids)
                    &&& ids@ == seq![self.anilist_id()]
                },
                (TargetPhase::Media, SearchEvent::Media(Err(error))) => r.0.moved_to(
                    self,
                    TargetPhase::Finished,
                ) && (r.1 matches SearchAction::Fail(HttpError::AniList(e)) && e@ == error@),
                (TargetPhase::Media, SearchEvent::Media(Ok(media))) => if format_fits(
                    self.target(),
                    media@,
                    self.anilist_id(),
                ) {
                    &&& r.0.moved_to(self, TargetPhase::Title)
                    &&& r.0.collected() == self.collected()
                    &&& match self.target() {
                        Target::Series { tvdb_id, .. } => r.1 matches SearchAction::SeriesTitle {
                            tvdb_id: t,
                        } && t == tvdb_id,
                        Target::Movie { tmdb_id } => r.1 matches SearchAction::MovieName {
                            tmdb_id: t,
                        } && t == tmdb_id,
                    }
                } else {
                    r.0.moved_to(self, TargetPhase::Finished) && responds_empty(r.1, self.offset())
                },
                (TargetPhase::Title, SearchEvent::SeriesTitle(outcome)) => match (
                    self.target(),
                    outcome,
                ) {
                    (Target::Series { season, .. }, Ok(title)) => {
                        &&& r.0.moved_to(self, TargetPhase::Finished)
                        &&& r.1 matches SearchAction::Respond(page)
                        &&& page.offset == self.offset()
                        &&& page.total == packs(self.collected()).len()
                        &&& page.items.deep_view() == items_of(
                            page_of(
                                packs(self.collected()),
                                self.offset() as nat,
                                self.limit() as nat,
                            ),
                            series_feed_title(title@, season),
                            seq![ANIME_CATEGORY_ID, ANIME_SUBCATEGORY_ID],
                        )
                    },
                    (Target::Series { .. }, Err(SonarrError::NotFound { .. })) => r.0.moved_to(
                        self,
                        TargetPhase::Finished,
                    ) && responds_empty(r.1, self.offset()),
                    (Target::Series { .. }, Err(error)) => r.0.moved_to(
                        self,
                        TargetPhase::Finished,
                    ) && (r.1 matches SearchAction::Fail(HttpError::Sonarr(e)) && e == error),
                    _ => r.0.moved_to(self, TargetPhase::Finished) && (r.1 matches SearchAction::Fail(
                        HttpError::OutOfTurn,
                    )),
                },
                (TargetPhase::Title, SearchEvent::MovieName(outcome)) => match (
                    self.target(),
                    outcome,
                ) {
                    (Target::Movie { .. }, Ok(name)) => {
                        &&& r.0.moved_to(self, TargetPhase::Finished)
                        &&& r.1 matches SearchAction::Respond(page)
                        &&& page.offset == self.offset()
                        &&& page.total == self.collected().len()
                        &&& page.items.deep_view() == items_of(
                            page_of(self.collected(), self.offset() as nat, self.limit() as nat),
                            movie_feed_title(name.title@, name.year),
                            seq![MOVIE_CATEGORY_ID],
                        )
                    },
                    (Target::Movie { .. }, Err(RadarrError::NotFound { .. })) => r.0.moved_to(
                        self,
                        TargetPhase::Finished,
                    ) && responds_empty(r.1, self.offset()),
                    (Target::Movie { .. }, Err(error)) => r.0.moved_to(self, TargetPhase::Finished)
                        && (r.1 matches SearchAction::Fail(HttpError::Radarr(e)) && e == error),
                    _ => r.0.moved_to(self, TargetPhase::Finished) && (r.1 matches SearchAction::Fail(
                        HttpError::OutOfTurn,
                    )),
                },
                _ => r.0.moved_to(self, TargetPhase::Finished) && (r.1 matches SearchAction::Fail(
                    HttpError::OutOfTurn,
                )),
            },
    {
        match (self.phase, event) {
            (TargetPhase::Mapping, SearchEvent::Mapping(Err(error))) => (
                self.finished(),
                SearchAction::Fail(HttpError::Mapping(error)),
            ),
            (TargetPhase::Mapping, SearchEvent::Mapping(Ok(None))) => self.respond_empty(),
            (TargetPhase::Mapping, SearchEvent::Mapping(Ok(Some(anilist_id)))) => {
                let limit = fetch_limit(self.offset, self.limit, self.default_limit);
                let next = TargetSearch {
                    phase: TargetPhase::Torrents,
                    target: self.target,
                    offset: self.offset,
                    limit: self.limit,
                    default_limit: self.default_limit,
                    anilist_id,
                    collected: Vec::new(),
                };
                (next, SearchAction::Search { anilist_id, limit })
            },
            (TargetPhase::Torrents, SearchEvent::Torrents(Err(error))) => (
                self.finished(),
                SearchAction::Fail(HttpError::Releases(error)),
            ),
            (TargetPhase::Torrents, SearchEvent::Torrents(Ok(found))) => {
                let mut ids: Vec<i64> = Vec::new();
                ids.push(self.anilist_id);
                assert(ids@ =~= seq![self.anilist_id()]);
                let next = TargetSearch {
                    phase: TargetPhase::Media,
                    target: self.target,
                    offset: self.offset,
                    limit: self.limit,
                    default_limit: self.default_limit,
                    anilist_id: self.anilist_id,
                    collected: found,
                };
                (next, SearchAction::Classify(ids))
            },
            (TargetPhase::Media, SearchEvent::Media(Err(error))) => (
                self.finished(),
                SearchAction::Fail(HttpError::AniList(error)),
            ),
            (TargetPhase::Media, SearchEvent::Media(Ok(media))) => {
                let fits = match media.get(&self.anilist_id) {
                    Some(entry) => match self.target {
                        Target::Series { .. } => format_allowed(&entry.format),
                        Target::Movie { .. } => movie_format_allowed(&entry.format),
                    },
                    None => false,
                };
                if !fits {
                    return self.respond_empty();
                }
                let action = match self.target {
                    Target::Series { tvdb_id, .. } => SearchAction::SeriesTitle { tvdb_id },
                    Target::Movie { tmdb_id } => SearchAction::MovieName { tmdb_id },
                };
                let next = TargetSearch {
                    phase: TargetPhase::Title,
                    target: self.target,
                    offset: self.offset,
                    limit: self.limit,
                    default_limit: self.default_limit,
                    anilist_id: self.anilist_id,
                    collected: self.collected,
                };
                (next, action)
            },
            (TargetPhase::Title, SearchEvent::SeriesTitle(outcome)) => match (self.target, outcome) {
                (Target::Series { season, .. }, Ok(title)) => {
                    let TargetSearch {
                        phase: _,
                        target,
                        offset,
                        limit,
                        default_limit,
                        anilist_id,
                        collected,
                    } = self;
                    let feed_title = format_series_feed_title(title.as_str(), season);
                    let kept = keep_packs(collected);
                    let total = kept.len();
                    let items = page_items(kept, offset, limit, &feed_title, true);
                    let next = TargetSearch {
                        phase: TargetPhase::Finished,
                        target,
                        offset,
                        limit,
                        default_limit,
                        anilist_id,
                        collected: Vec::new(),
                    };
                    (next, SearchAction::Respond(FeedPage { items, offset, total }))
                },
                (Target::Series { .. }, Err(SonarrError::NotFound { .. })) => self.respond_empty(),
                (Target::Series { .. }, Err(error)) => (
                    self.finished(),
                    SearchAction::Fail(HttpError::Sonarr(error)),
                ),
                _ => (self.finished(), SearchAction::Fail(HttpError::OutOfTurn)),
            },
            (TargetPhase::Title, SearchEvent::MovieName(outcome)) => match (self.target, outcome) {
                (Target::Movie { .. }, Ok(name)) => {
                    let TargetSearch {
                        phase: _,
                        target,
                        offset,
                        limit,
                        default_limit,
                        anilist_id,
                        collected,
                    } = self;
                    let feed_title = format_movie_feed_title(name.title.as_str(), name.year);
                    let total = collected.len();
                    let items = page_items(collected, offset, limit, &feed_title, false);
                    let next = TargetSearch {
                        phase: TargetPhase::Finished,
                        target,
                        offset,
                        limit,
                        default_limit,
                        anilist_id,
                        collected: Vec::new(),
                    };
                    (next, SearchAction::Respond(FeedPage { items, offset, total }))
                },
                (Target::Movie { .. }, Err(RadarrError::NotFound { .. })) => self.respond_empty(),
                (Target::Movie { .. }, Err(error)) => (
                    self.finished(),
                    SearchAction::Fail(HttpError::Radarr(error)),
                ),
                _ => (self.finished(), SearchAction::Fail(HttpError::OutOfTurn)),
            },
            _ => (self.finished(), SearchAction::Fail(HttpError::OutOfTurn)),
        }
    }
}

/// Starts the search for the releases of the series season that the query
/// names. Without a series resolver, or where the query names no TVDB id or
/// no season that reads as a number, the search ends at once with the empty
/// page.
pub fn respond_tv_search(query: &TorznabQuery, default_limit: usize, sonarr_enabled: bool) -> (r: (
    TargetSearch,
    SearchAction,
))
    ensures
        TargetSearch::started(
            series_target(*query),
            sonarr_enabled,
            *query,
            default_limit,
            r.0,
            r.1,
        ),
{
    let target = match (query.tvdb_identifier(), query.season_number()) {
        (Some(tvdb_id), Some(season)) => Some(Target::Series { tvdb_id, season }),
        _ => None,
    };
    TargetSearch::start(target, query, default_limit, sonarr_enabled)
}

/// Starts the search for the releases of the movie that the query names.
/// Without a movie resolver, or where the query names no TMDB id that reads
/// as a number, the search ends at once with the empty page.
pub fn respond_movie_search(query: &TorznabQuery, default_limit: usize, radarr_enabled: bool) -> (r:
    (TargetSearch, SearchAction))
    ensures
        TargetSearch::started(
            movie_target(*query),
            radarr_enabled,
            *query,
            default_limit,
            r.0,
            r.1,
        ),
{
    let target = match query.tmdb_identifier() {
        Some(tmdb_id) => Some(Target::Movie { tmdb_id }),
        None => None,
    };
    TargetSearch::start(target, query, default_limit, radarr_enabled)
}

/// The ids of the candidates that come without an AniList id, in their
/// order.
pub open spec fn unidentified(torrents: Seq<TorrentView>) -> Seq<Seq<char>>
    decreases torrents.len(),
{
    if torrents.len() == 0 {
        Seq::empty()
    } else {
        let earlier = unidentified(torrents.drop_last());
        if torrents.last().anilist_id is None {
            earlier.push(torrents.last().id)
        } else {
            earlier
        }
    }
}

/// The AniList ids that the candidates come with, in their order.
pub open spec fn identified(torrents: Seq<TorrentView>) -> Seq<i64>
    decreases torrents.len(),
{
    if torrents.len() == 0 {
        Seq::empty()
    } else {
        let earlier = identified(torrents.drop_last());
        match torrents.last().anilist_id {
            Some(id) => earlier.push(id),
            None => earlier,
        }
    }
}

/// A candidate with the AniList id that the release source gave for it,
/// where it came without one.
pub open spec fn with_identity(torrent: TorrentView, resolved: Map<Seq<char>, i64>) -> TorrentView {
    if torrent.anilist_id is None && resolved.contains_key(torrent.id) {
        TorrentView { anilist_id: Some(resolved[torrent.id]), ..torrent }
    } else {
        torrent
    }
}

/// The ids of the candidates that come without an AniList id.
pub fn unidentified_ids(torrents: &Vec<Torrent>) -> (r: Vec<String>)
    ensures
        r.deep_view() == unidentified(torrents.deep_view()),
{
    let ghost all = torrents.deep_view();
    let mut ids: Vec<String> = Vec::new();
    let mut i: usize = 0;
    assert(ids.deep_view() =~= unidentified(all.take(0)));
    while i < torrents.len()
        invariant
            i <= torrents.len(),
            all == torrents.deep_view(),
            ids.deep_view() == unidentified(all.take(i as int)),
        decreases torrents.len() - i,
    {
        proof {
            assert(all.take(i + 1).drop_last() =~= all.take(i as int));
            assert(all.take(i + 1).last() == torrents@[i as int]@);
        }
        if torrents[i].anilist_id.is_none() {
            let ghost before = ids.deep_view();
            ids.push(torrents[i].id.clone());
            assert(ids.deep_view() =~= before.push(torrents@[i as int].id@));
        }
        i += 1;
    }
    assert(all.take(all.len() as int) =~= all);
    ids
}

/// The AniList ids that the candidates come with.
pub fn identified_ids(torrents: &Vec<Torrent>) -> (r: Vec<i64>)
    ensures
        r@ == identified(torrents.deep_view()),
{
    let ghost all = torrents.deep_view();
    let mut ids: Vec<i64> = Vec::new();
    let mut i: usize = 0;
    assert(ids@ =~= identified(all.take(0)));
    while i < torrents.len()
        invariant
            i <= torrents.len(),
            all == torrents.deep_view(),
            ids@ == identified(all.take(i as int)),
        decreases torrents.len() - i,
    {
        proof {
            assert(all.take(i + 1).drop_last() =~= all.take(i as int));
            assert(all.take(i + 1).last() == torrents@[i as int]@);
        }
        if let Some(id) = torrents[i].anilist_id {
            ids.push(id);
        }
        i += 1;
    }
    assert(all.take(all.len() as int) =~= all);
    ids
}

/// Gives each candidate that came without an AniList id the one that the
/// release source gave for it.
pub fn apply_identities(torrents: Vec<Torrent>, resolved: &ResolvedIds) -> (r: Vec<Torrent>)
    ensures
        r.deep_view() == Seq::new(
            torrents.deep_view().len(),
            |i: int| with_identity(torrents.deep_view()[i], resolved@),
        ),
{
    let ghost all = torrents.deep_view();
    let ghost given = torrents@;
    let mut filled: Vec<Torrent> = Vec::new();
    for torrent in it: torrents
        invariant
            it.seq() == given,
            all.len() == given.len(),
            forall|k: int| 0 <= k < given.len() ==> (#[trigger] given[k])@ == all[k],
            filled@.len() == it.index(),
            forall|k: int|
                0 <= k < it.index() ==> (#[trigger] filled@[k])@ == with_identity(all[k], resolved@),
    {
        let mut torrent = torrent;
        let ghost before = torrent@;
        if torrent.anilist_id.is_none() {
            if let Some(id) = resolved.get(torrent.id.as_str()) {
                torrent.anilist_id = Some(id);
            }
        }
        assert(torrent@ == with_identity(before, resolved@));
        filled.push(torrent);
    }
    assert(filled.deep_view() =~= Seq::new(all.len(), |i: int| with_identity(all[i], resolved@)));
    filled
}

/// Keeps the candidates that a feed serves.
pub fn keep_eligible(torrents: Vec<Torrent>, media: &HashMap<i64, AniListMedia>) -> (r: Vec<Torrent>)
    ensures
        r.deep_view() == eligible(torrents.deep_view(), media@),
{
    let ghost all = torrents.deep_view();
    let ghost given = torrents@;
    let mut kept: Vec<Torrent> = Vec::new();
    assert(kept.deep_view() =~= eligible(all.take(0), media@));
    for torrent in it: torrents
        invariant
            it.seq() == given,
            all.len() == given.len(),
            forall|k: int| 0 <= k < given.len() ==> (#[trigger] given[k])@ == all[k],
            kept.deep_view() == eligible(all.take(it.index() as int), media@),
    {
        proof {
            assert(all.take(it.index() + 1).drop_last() =~= all.take(it.index() as int));
            assert(all.take(it.index() + 1).last() == torrent@);
        }
        if torrent_is_eligible(&torrent, media) {
            let ghost before = kept.deep_view();
            kept.push(torrent);
            assert(kept.deep_view() =~= before.push(torrent@));
        }
    }
    assert(all.take(all.len() as int) =~= all);
    kept
}

/// Keeps the candidates of a page.
pub fn keep_page(torrents: Vec<Torrent>, offset: usize, limit: usize) -> (r: Vec<Torrent>)
    ensures
        r.deep_view() == page_of(torrents.deep_view(), offset as nat, limit as nat),
{
    let ghost all = torrents.deep_view();
    let ghost given = torrents@;
    let ghost page = page_of(all, offset as nat, limit as nat);
    let total = torrents.len();
    let mut kept: Vec<Torrent> = Vec::new();
    if offset >= total {
        assert(kept.deep_view() =~= page);
        return kept;
    }
    let end = if limit >= total - offset {
        total
    } else {
        offset + limit
    };
    assert(page =~= all.subrange(offset as int, end as int));
    let mut i: usize = 0;
    for torrent in it: torrents
        invariant
            i == it.index(),
            it.seq() == given,
            given.len() == total,
            all.len() == total,
            forall|k: int| 0 <= k < total ==> (#[trigger] given[k])@ == all[k],
            offset <= end <= total,
            kept@.len() == (if i <= offset {
                0
            } else if i <= end {
                i - offset
            } else {
                end - offset
            }),
            forall|k: int| 0 <= k < kept@.len() ==> (#[trigger] kept@[k])@ == all[offset + k],
    {
        if offset <= i && i < end {
            kept.push(torrent);
        }
        i += 1;
    }
    assert(kept.deep_view() =~= page);
    kept
}

} // verus!

//! The search without a target: the releases updated last, each listed under
//! the title of the series or movie that it belongs to.

use crate::anilist::{format_allowed, movie_format_allowed, AniListError, AniListMedia};
use crate::feed::{
    build_torznab_item, default_torrent_title, effective_limit, eligible, format_movie_feed_title,
    format_series_feed_title, is_display_mapping, item_of, lemma_display_mapping_unique,
    movie_category_ids, movie_feed_title, page_limit, page_of, placeholder_title,
    select_tvdb_and_season, series_feed_title, tv_category_ids,
};
use crate::mapping::{TvdbMapping, TvdbMappingView};
use crate::query::{
    category_filter_matches, filter_accepts, operation_named, TorznabOperation, TorznabQuery,
};
use crate::radarr::{MovieName, RadarrError};
use crate::releases::{ReleasesError, ResolvedIds, Torrent, TorrentView};
use crate::search::{
    apply_identities, identified, identified_ids, keep_eligible, keep_page, movie_target,
    page_offset, respond_movie_search, respond_tv_search, series_target, unidentified,
    unidentified_ids, with_identity, FeedPage, HttpError, SearchAction, SearchEvent, TargetSearch,
};
use crate::season::min_season;
use crate::sonarr::SonarrError;
use crate::sync::MappingError;
use crate::titles::table_texts;
use crate::torznab::{
    TorznabItem, TorznabItemView, ANIME_CATEGORY_ID, ANIME_SUBCATEGORY_ID, MOVIE_CATEGORY_ID,
};
use std::collections::HashMap;
use std::collections::HashSet;
use vstd::prelude::*;

verus! {

broadcast use vstd::std_specs::hash::group_hash_axioms;

/// What a search without a target waits for.
#[derive(Debug, Clone, Copy, PartialEq, Eq, Structural)]
pub enum BrowsePhase {
    Torrents,
    Identities,
    Media,
    TvdbMappings,
    TmdbId,
    SeriesTitle,
    MovieName,
    Finished,
}

/// The number under which the feed title of a series season is kept: the
/// TVDB id and the season as one number, the season in the low 32 bits.
pub open spec fn season_key(tvdb_id: i64, season: u32) -> i128 {
    (tvdb_id * 0x1_0000_0000 + season) as i128
}

/// The number under which the feed title of a series season is kept.
pub fn key_of_season(tvdb_id: i64, season: u32) -> (r: i128)
    ensures
        r == season_key(tvdb_id, season),
{
    let high: i128 = tvdb_id as i128;
    let low: i128 = season as i128;
    high * 0x1_0000_0000 + low
}

/// Two series seasons are kept under one number only where they are one
/// season of one series.
pub proof fn lemma_season_key_tells_seasons_apart(
    tvdb_id: i64,
    season: u32,
    other_id: i64,
    other_season: u32,
)
    ensures
        season_key(tvdb_id, season) == season_key(other_id, other_season) <==> tvdb_id == other_id
            && season == other_season,
{
}

/// The feed titles kept for series seasons, each as its text and under its
/// TVDB id and season.
pub open spec fn season_texts(table: Map<i128, String>) -> Map<(i64, u32), Seq<char>> {
    Map::new(
        |at: (i64, u32)| table.contains_key(season_key(at.0, at.1)),
        |at: (i64, u32)| table[season_key(at.0, at.1)]@,
    )
}

/// A search without a target, in progress.
#[derive(Debug)]
pub struct GenericSearch {
    phase: BrowsePhase,
    offset: usize,
    limit: usize,
    default_limit: usize,
    sonarr_enabled: bool,
    radarr_enabled: bool,
    candidates: Vec<Torrent>,
    media: HashMap<i64, AniListMedia>,
    total: usize,
    todo: Vec<Torrent>,
    current: Option<Torrent>,
    pending_tvdb: i64,
    pending_season: u32,
    pending_tmdb: i64,
    series_titles: HashMap<i128, String>,
    movie_titles: HashMap<i64, String>,
    tvdb_ids: HashSet<i64>,
    tmdb_ids: HashSet<i64>,
    items: Vec<TorznabItem>,
}

pub struct BrowseView {
    pub phase: BrowsePhase,
    pub offset: usize,
    pub limit: usize,
    pub default_limit: usize,
    pub sonarr_enabled: bool,
    pub radarr_enabled: bool,
    /// The candidates that the release source gave, until their formats are
    /// known.
    pub candidates: Seq<TorrentView>,
    /// The formats that the catalogue gave.
    pub media: Map<i64, AniListMedia>,
    /// The number of candidates that the feed serves.
    pub total: usize,
    /// The candidates of the page that are still to be listed.
    pub todo: Seq<TorrentView>,
    /// The candidate whose title is being resolved.
    pub current: Option<TorrentView>,
    pub pending_tvdb: i64,
    pub pending_season: u32,
    pub pending_tmdb: i64,
    /// The feed titles resolved so far, by TVDB id and season.
    pub series_titles: Map<(i64, u32), Seq<char>>,
    /// The feed titles resolved so far, by TMDB id.
    pub movie_titles: Map<i64, Seq<char>>,
    /// The TVDB ids that the page refers to.
    pub tvdb_ids: Set<i64>,
    /// The TMDB ids that the page refers to.
    pub tmdb_ids: Set<i64>,
    /// The items made so far.
    pub items: Seq<TorznabItemView>,
}

impl View for GenericSearch {
    type V = BrowseView;

    closed spec fn view(&self) -> BrowseView {
        BrowseView {
            phase: self.phase,
            offset: self.offset,
            limit: self.limit,
            default_limit: self.default_limit,
            sonarr_enabled: self.sonarr_enabled,
            radarr_enabled: self.radarr_enabled,
            candidates: self.candidates.deep_view(),
            media: self.media@,
            total: self.total,
            todo: self.todo.deep_view(),
            current: match self.current {
                Some(torrent) => Some(torrent@),
                None => None,
            },
            pending_tvdb: self.pending_tvdb,
            pending_season: self.pending_season,
            pending_tmdb: self.pending_tmdb,
            series_titles: season_texts(self.series_titles@),
            movie_titles: table_texts(self.movie_titles@),
            tvdb_ids: self.tvdb_ids@,
            tmdb_ids: self.tmdb_ids@,
            items: self.items.deep_view(),
        }
    }
}

pub struct PageView {
    pub items: Seq<TorznabItemView>,
    pub offset: usize,
    pub total: usize,
}

impl View for FeedPage {
    type V = PageView;

    open spec fn view(&self) -> PageView {
        PageView { items: self.items.deep_view(), offset: self.offset, total: self.total }
    }
}

pub enum SearchEventView {
    Mapping(Result<Option<i64>, MappingError>),
    Torrents(Result<Seq<TorrentView>, ReleasesError>),
    Identities(Result<Map<Seq<char>, i64>, ReleasesError>),
    Media(Result<Map<i64, AniListMedia>, AniListError>),
    TvdbMappings(Result<Seq<TvdbMappingView>, MappingError>),
    TmdbId(Result<Option<i64>, MappingError>),
    SeriesTitle(Result<Seq<char>, SonarrError>),
    MovieName(Result<(Seq<char>, u32), RadarrError>),
}

pub enum SearchActionView {
    AnilistForSeason { tvdb_id: i64, season: u32 },
    AnilistForTmdb { tmdb_id: i64 },
    Search { anilist_id: i64, limit: usize },
    Recent { limit: usize },
    Identities(Seq<Seq<char>>),
    Classify(Seq<i64>),
    TvdbMappings { anilist_id: i64 },
    TmdbId { anilist_id: i64 },
    SeriesTitle { tvdb_id: i64 },
    MovieName { tmdb_id: i64 },
    Respond(PageView),
    RespondAndRetain { page: PageView, tvdb_ids: Set<i64>, tmdb_ids: Set<i64> },
    Fail(HttpError),
}

impl View for SearchEvent {
    type V = SearchEventView;

    open spec fn view(&self) -> SearchEventView {
        match self {
            SearchEvent::Mapping(outcome) => SearchEventView::Mapping(*outcome),
            SearchEvent::Torrents(Ok(found)) => SearchEventView::Torrents(Ok(found.deep_view())),
            SearchEvent::Torrents(Err(error)) => SearchEventView::Torrents(Err(*error)),
            SearchEvent::Identities(Ok(found)) => SearchEventView::Identities(Ok(found@)),
            SearchEvent::Identities(Err(error)) => SearchEventView::Identities(Err(*error)),
            SearchEvent::Media(Ok(media)) => SearchEventView::Media(Ok(media@)),
            SearchEvent::Media(Err(error)) => SearchEventView::Media(Err(*error)),
            SearchEvent::TvdbMappings(Ok(found)) => SearchEventView::TvdbMappings(
                Ok(found.deep_view()),
            ),
            SearchEvent::TvdbMappings(Err(error)) => SearchEventView::TvdbMappings(Err(*error)),
            SearchEvent::TmdbId(outcome) => SearchEventView::TmdbId(*outcome),
            SearchEvent::SeriesTitle(Ok(title)) => SearchEventView::SeriesTitle(Ok(title@)),
            SearchEvent::SeriesTitle(Err(error)) => SearchEventView::SeriesTitle(Err(*error)),
            SearchEvent::MovieName(Ok(name)) => SearchEventView::MovieName(
                Ok((name.title@, name.year)),
            ),
            SearchEvent::MovieName(Err(error)) => SearchEventView::MovieName(Err(*error)),
        }
    }
}

impl View for SearchAction {
    type V = SearchActionView;

    open spec fn view(&self) -> SearchActionView {
        match self {
            SearchAction::AnilistForSeason { tvdb_id, season } => SearchActionView::AnilistForSeason {
                tvdb_id: *tvdb_id,
                season: *season,
            },
            SearchAction::AnilistForTmdb { tmdb_id } => SearchActionView::AnilistForTmdb {
                tmdb_id: *tmdb_id,
            },
            SearchAction::Search { anilist_id, limit } => SearchActionView::Search {
                anilist_id: *anilist_id,
                limit: *limit,
            },
            SearchAction::Recent { limit } => SearchActionView::Recent { limit: *limit },
            SearchAction::Identities(ids) => SearchActionView::Identities(ids.deep_view()),
            SearchAction::Classify(ids) => SearchActionView::Classify(ids@),
            SearchAction::TvdbMappings { anilist_id } => SearchActionView::TvdbMappings {
                anilist_id: *anilist_id,
            },
            SearchAction::TmdbId { anilist_id } => SearchActionView::TmdbId {
                anilist_id: *anilist_id,
            },
            SearchAction::SeriesTitle { tvdb_id } => SearchActionView::SeriesTitle {
                tvdb_id: *tvdb_id,
            },
            SearchAction::MovieName { tmdb_id } => SearchActionView::MovieName { tmdb_id: *tmdb_id },
            SearchAction::Respond(page) => SearchActionView::Respond(page@),
            SearchAction::RespondAndRetain { page, tvdb_ids, tmdb_ids } => SearchActionView::RespondAndRetain {
                page: page@,
                tvdb_ids: tvdb_ids@,
                tmdb_ids: tmdb_ids@,
            },
            SearchAction::Fail(error) => SearchActionView::Fail(*error),
        }
    }
}

/// The settings of a search.
pub struct BrowseSetup {
    pub offset: usize,
    pub limit: usize,
    pub default_limit: usize,
    pub sonarr_enabled: bool,
    pub radarr_enabled: bool,
}

/// The settings of a search.
pub open spec fn setup_of(state: BrowseView) -> BrowseSetup {
    BrowseSetup {
        offset: state.offset,
        limit: state.limit,
        default_limit: state.default_limit,
        sonarr_enabled: state.sonarr_enabled,
        radarr_enabled: state.radarr_enabled,
    }
}

/// A search that holds nothing, at the given phase.
pub open spec fn blank(phase: BrowsePhase, setup: BrowseSetup) -> BrowseView {
    BrowseView {
        phase,
        offset: setup.offset,
        limit: setup.limit,
        default_limit: setup.default_limit,
        sonarr_enabled: setup.sonarr_enabled,
        radarr_enabled: setup.radarr_enabled,
        candidates: Seq::empty(),
        media: Map::empty(),
        total: 0,
        todo: Seq::empty(),
        current: None,
        pending_tvdb: 0,
        pending_season: 0,
        pending_tmdb: 0,
        series_titles: Map::empty(),
        movie_titles: Map::empty(),
        tvdb_ids: Set::empty(),
        tmdb_ids: Set::empty(),
        items: Seq::empty(),
    }
}

/// The end of a search in failure.
pub open spec fn browse_failed(state: BrowseView, error: HttpError) -> (BrowseView, SearchActionView) {
    (blank(BrowsePhase::Finished, setup_of(state)), SearchActionView::Fail(error))
}

/// The end of a search with a page that holds nothing.
pub open spec fn browse_empty(state: BrowseView, total: usize) -> (BrowseView, SearchActionView) {
    (
        blank(BrowsePhase::Finished, setup_of(state)),
        SearchActionView::Respond(PageView { items: Seq::empty(), offset: state.offset, total }),
    )
}

/// What listing a candidate takes.
pub enum TitleNeed {
    /// The title of the series that the AniList id belongs to.
    Series(i64),
    /// The name of the movie that the AniList id belongs to.
    Movie(i64),
    /// Nothing: the candidate is left out.
    Skip,
}

/// What listing a candidate takes: the title of its series or movie, by its
/// format; a candidate whose resolver is not in use is left out.
pub open spec fn title_need(torrent: TorrentView, state: BrowseView) -> TitleNeed {
    match torrent.anilist_id {
        Some(id) => if state.media.contains_key(id) {
            let format = state.media[id].format;
            if format.is_series() {
                if state.sonarr_enabled {
                    TitleNeed::Series(id)
                } else {
                    TitleNeed::Skip
                }
            } else if format.is_movie() {
                if state.radarr_enabled {
                    TitleNeed::Movie(id)
                } else {
                    TitleNeed::Skip
                }
            } else {
                TitleNeed::Skip
            }
        } else {
            TitleNeed::Skip
        },
        None => TitleNeed::Skip,
    }
}

/// Going on with the candidates that are still to be listed: the first that
/// is not left out has its mappings asked for; once none is left, the page
/// is answered with, and the resolvers are told which titles to keep.
pub open spec fn proceed(state: BrowseView) -> (BrowseView, SearchActionView)
    decreases state.todo.len(),
{
    if state.todo.len() == 0 {
        (
            blank(BrowsePhase::Finished, setup_of(state)),
            SearchActionView::RespondAndRetain {
                page: PageView { items: state.items, offset: state.offset, total: state.total },
                tvdb_ids: state.tvdb_ids,
                tmdb_ids: state.tmdb_ids,
            },
        )
    } else {
        let torrent = state.todo[0];
        let rest = BrowseView { todo: state.todo.drop_first(), current: None, ..state };
        match title_need(torrent, state) {
            TitleNeed::Series(anilist_id) => (
                BrowseView { phase: BrowsePhase::TvdbMappings, current: Some(torrent), ..rest },
                SearchActionView::TvdbMappings { anilist_id },
            ),
            TitleNeed::Movie(anilist_id) => (
                BrowseView { phase: BrowsePhase::TmdbId, current: Some(torrent), ..rest },
                SearchActionView::TmdbId { anilist_id },
            ),
            TitleNeed::Skip => proceed(rest),
        }
    }
}

/// The search once the candidate at hand has been listed under a title.
pub open spec fn listed(state: BrowseView, title: Seq<char>, categories: Seq<u32>) -> BrowseView {
    match state.current {
        Some(torrent) => BrowseView {
            items: state.items.push(item_of(torrent, title, categories)),
            current: None,
            ..state
        },
        None => state,
    }
}

/// The categories of a series.
pub open spec fn series_categories() -> Seq<u32> {
    seq![ANIME_CATEGORY_ID, ANIME_SUBCATEGORY_ID]
}

/// The categories of a movie.
pub open spec fn movie_categories() -> Seq<u32> {
    seq![MOVIE_CATEGORY_ID]
}

/// The title of the candidate at hand where no better one is known.
pub open spec fn fallback_title(state: BrowseView) -> Seq<char> {
    match state.current {
        Some(torrent) => placeholder_title(torrent.id),
        None => Seq::empty(),
    }
}

/// The feed title resolved earlier for a series season.
pub open spec fn known_series_title(
    memo: Map<(i64, u32), Seq<char>>,
    tvdb_id: i64,
    season: u32,
) -> Option<Seq<char>> {
    if memo.contains_key((tvdb_id, season)) {
        Some(memo[(tvdb_id, season)])
    } else {
        None
    }
}

/// The feed title resolved earlier for a movie.
pub open spec fn known_movie_title(memo: Map<i64, Seq<char>>, tmdb_id: i64) -> Option<Seq<char>> {
    if memo.contains_key(tmdb_id) {
        Some(memo[tmdb_id])
    } else {
        None
    }
}

/// The TVDB id and season under which a candidate is shown: those of the
/// mapping with the earliest season, the first such mapping where several
/// share it; none where no mapping names a season.
pub open spec fn display_choice(mappings: Seq<TvdbMappingView>) -> Option<(i64, u32)> {
    if exists|k: int| is_display_mapping(mappings, k) {
        let k = choose|k: int| is_display_mapping(mappings, k);
        Some((mappings[k].tvdb_id, min_season(mappings[k].seasons).unwrap()))
    } else {
        None
    }
}

/// How a search without a target starts: with the request for the torrents
/// updated last; or, where the query names a text to search for or filters
/// the indexer's categories out, with the empty page.
pub open spec fn browse_start(
    query: TorznabQuery,
    default_limit: usize,
    sonarr_enabled: bool,
    radarr_enabled: bool,
) -> (BrowseView, SearchActionView) {
    let setup = blank(
        BrowsePhase::Torrents,
        BrowseSetup {
            offset: page_offset(query.offset),
            limit: page_limit(query.limit, default_limit),
            default_limit,
            sonarr_enabled,
            radarr_enabled,
        },
    );
    let accepted = match query.cat {
        Some(filter) => filter_accepts(filter@),
        None => true,
    };
    if query.query is Some || !accepted {
        browse_empty(setup, 0)
    } else {
        (setup, SearchActionView::Recent { limit: default_limit })
    }
}

/// The step of a search without a target.
///
/// The torrents updated last are collected; those that come without an
/// AniList id have theirs asked for; the formats of all ids are asked for;
/// the candidates that the feed serves are counted and the page is cut out
/// of them. Each candidate of the page is then listed under the title of its
/// series or movie, which is resolved once per series season and movie; a
/// candidate without a mapping, or whose title the resolver does not know,
/// is listed under a placeholder.
///
/// A failure of a service ends the search with that failure; so does an
/// event that was not waited for.
pub open spec fn browse_step(state: BrowseView, event: SearchEventView) -> (
    BrowseView,
    SearchActionView,
) {
    match (state.phase, event) {
        (BrowsePhase::Torrents, SearchEventView::Torrents(Err(error))) => browse_failed(
            state,
            HttpError::Releases(error),
        ),
        (BrowsePhase::Torrents, SearchEventView::Torrents(Ok(found))) => {
            if found.len() == 0 {
                browse_empty(state, 0)
            } else if unidentified(found).len() > 0 {
                (
                    BrowseView { phase: BrowsePhase::Identities, candidates: found, ..state },
                    SearchActionView::Identities(unidentified(found)),
                )
            } else {
                (
                    BrowseView { phase: BrowsePhase::Media, candidates: found, ..state },
                    SearchActionView::Classify(identified(found)),
                )
            }
        },
        (BrowsePhase::Identities, SearchEventView::Identities(Err(error))) => browse_failed(
            state,
            HttpError::Releases(error),
        ),
        (BrowsePhase::Identities, SearchEventView::Identities(Ok(resolved))) => {
            let filled = Seq::new(
                state.candidates.len(),
                |i: int| with_identity(state.candidates[i], resolved),
            );
            (
                BrowseView { phase: BrowsePhase::Media, candidates: filled, ..state },
                SearchActionView::Classify(identified(filled)),
            )
        },
        (BrowsePhase::Media, SearchEventView::Media(Err(error))) => browse_failed(
            state,
            HttpError::AniList(error),
        ),
        (BrowsePhase::Media, SearchEventView::Media(Ok(media))) => {
            let served = eligible(state.candidates, media);
            let page = page_of(served, state.offset as nat, state.limit as nat);
            if page.len() == 0 {
                browse_empty(state, served.len() as usize)
            } else {
                proceed(
                    BrowseView {
                        candidates: Seq::empty(),
                        media,
                        total: served.len() as usize,
                        todo: page,
                        ..state
                    },
                )
            }
        },
        (BrowsePhase::TvdbMappings, SearchEventView::TvdbMappings(Err(error))) => browse_failed(
            state,
            HttpError::Mapping(error),
        ),
        (BrowsePhase::TvdbMappings, SearchEventView::TvdbMappings(Ok(mappings))) => {
            match display_choice(mappings) {
                None => proceed(listed(state, fallback_title(state), series_categories())),
                Some((tvdb_id, season)) => {
                    let noted = BrowseView { tvdb_ids: state.tvdb_ids.insert(tvdb_id), ..state };
                    match known_series_title(state.series_titles, tvdb_id, season) {
                        Some(title) => proceed(listed(noted, title, series_categories())),
                        None => (
                            BrowseView {
                                phase: BrowsePhase::SeriesTitle,
                                pending_tvdb: tvdb_id,
                                pending_season: season,
                                ..noted
                            },
                            SearchActionView::SeriesTitle { tvdb_id },
                        ),
                    }
                },
            }
        },
        (BrowsePhase::SeriesTitle, SearchEventView::SeriesTitle(Ok(title))) => {
            let feed_title = series_feed_title(title, state.pending_season);
            let noted = BrowseView {
                series_titles: state.series_titles.insert(
                    (state.pending_tvdb, state.pending_season),
                    feed_title,
                ),
                ..state
            };
            proceed(listed(noted, feed_title, series_categories()))
        },
        (
            BrowsePhase::SeriesTitle,
            SearchEventView::SeriesTitle(Err(SonarrError::NotFound { .. })),
        ) => proceed(listed(state, fallback_title(state), series_categories())),
        (BrowsePhase::SeriesTitle, SearchEventView::SeriesTitle(Err(error))) => browse_failed(
            state,
            HttpError::Sonarr(error),
        ),
        (BrowsePhase::TmdbId, SearchEventView::TmdbId(Err(error))) => browse_failed(
            state,
            HttpError::Mapping(error),
        ),
        (BrowsePhase::TmdbId, SearchEventView::TmdbId(Ok(None))) => proceed(
            listed(state, fallback_title(state), movie_categories()),
        ),
        (BrowsePhase::TmdbId, SearchEventView::TmdbId(Ok(Some(tmdb_id)))) => {
            match known_movie_title(state.movie_titles, tmdb_id) {
                Some(title) => proceed(
                    listed(
                        BrowseView { tmdb_ids: state.tmdb_ids.insert(tmdb_id), ..state },
                        title,
                        movie_categories(),
                    ),
                ),
                None => (
                    BrowseView { phase: BrowsePhase::MovieName, pending_tmdb: tmdb_id, ..state },
                    SearchActionView::MovieName { tmdb_id },
                ),
            }
        },
        (BrowsePhase::MovieName, SearchEventView::MovieName(Ok((title, year)))) => {
            let feed_title = movie_feed_title(title, year);
            let noted = BrowseView {
                movie_titles: state.movie_titles.insert(state.pending_tmdb, feed_title),
                tmdb_ids: state.tmdb_ids.insert(state.pending_tmdb),
                ..state
            };
            proceed(listed(noted, feed_title, movie_categories()))
        },
        (BrowsePhase::MovieName, SearchEventView::MovieName(Err(RadarrError::NotFound { .. }))) => proceed(
            listed(state, fallback_title(state), movie_categories()),
        ),
        (BrowsePhase::MovieName, SearchEventView::MovieName(Err(error))) => browse_failed(
            state,
            HttpError::Radarr(error),
        ),
        _ => browse_failed(state, HttpError::OutOfTurn),
    }
}

/// The feed title resolved earlier for a series season.
pub fn find_series_title(memo: &HashMap<i128, String>, tvdb_id: i64, season: u32) -> (r: Option<
    String,
>)
    ensures
        crate::text::option_text(r) == known_series_title(season_texts(memo@), tvdb_id, season),
{
    let key = key_of_season(tvdb_id, season);
    match memo.get(&key) {
        Some(title) => Some(title.clone()),
        None => None,
    }
}

/// The feed title resolved earlier for a movie.
pub fn find_movie_title(memo: &HashMap<i64, String>, tmdb_id: i64) -> (r: Option<String>)
    ensures
        crate::text::option_text(r) == known_movie_title(table_texts(memo@), tmdb_id),
{
    match memo.get(&tmdb_id) {
        Some(title) => Some(title.clone()),
        None => None,
    }
}

/// Picks the TVDB id and season under which a candidate is shown.
pub fn choose_display(mappings: &Vec<TvdbMapping>) -> (r: Option<(i64, u32)>)
    ensures
        r == display_choice(mappings.deep_view()),
{
    let slice = mappings.as_slice();
    let r = select_tvdb_and_season(slice);
    proof {
        let views = mappings.deep_view();
        assert(slice.deep_view() =~= views);
        match r {
            Some((tvdb_id, season)) => {
                let found = choose|k: int|
                    is_display_mapping(views, k) && (#[trigger] views[k]).tvdb_id == tvdb_id
                        && min_season(views[k].seasons) == Some(season);
                let chosen = choose|k: int| is_display_mapping(views, k);
                lemma_display_mapping_unique(views, found, chosen);
            },
            None => {
                assert forall|k: int| !is_display_mapping(views, k) by {
                    if 0 <= k < views.len() {
                        assert(min_season(views[k].seasons) is None);
                    }
                }
            },
        }
    }
    r
}

impl GenericSearch {
    fn make(
        phase: BrowsePhase,
        offset: usize,
        limit: usize,
        default_limit: usize,
        sonarr_enabled: bool,
        radarr_enabled: bool,
    ) -> (r: GenericSearch)
        ensures
            r@ == blank(
                phase,
                BrowseSetup { offset, limit, default_limit, sonarr_enabled, radarr_enabled },
            ),
    {
        let search = GenericSearch {
            phase,
            offset,
            limit,
            default_limit,
            sonarr_enabled,
            radarr_enabled,
            candidates: Vec::new(),
            media: HashMap::new(),
            total: 0,
            todo: Vec::new(),
            current: None,
            pending_tvdb: 0,
            pending_season: 0,
            pending_tmdb: 0,
            series_titles: HashMap::new(),
            movie_titles: HashMap::new(),
            tvdb_ids: HashSet::new(),
            tmdb_ids: HashSet::new(),
            items: Vec::new(),
        };
        proof {
            let target = blank(
                phase,
                BrowseSetup { offset, limit, default_limit, sonarr_enabled, radarr_enabled },
            );
            assert(search@.candidates =~= target.candidates);
            assert(search@.todo =~= target.todo);
            assert(search@.series_titles =~= target.series_titles);
            assert(search@.movie_titles =~= target.movie_titles);
            assert(search@.items =~= target.items);
        }
        search
    }

    fn closed(&self) -> (r: GenericSearch)
        ensures
            r@ == blank(BrowsePhase::Finished, setup_of(self@)),
    {
        Self::make(
            BrowsePhase::Finished,
            self.offset,
            self.limit,
            self.default_limit,
            self.sonarr_enabled,
            self.radarr_enabled,
        )
    }

    fn fail(self, error: HttpError) -> (r: (GenericSearch, SearchAction))
        ensures
            (r.0@, r.1@) == browse_failed(self@, error),
    {
        (self.closed(), SearchAction::Fail(error))
    }

    fn respond_empty(self, total: usize) -> (r: (GenericSearch, SearchAction))
        ensures
            (r.0@, r.1@) == browse_empty(self@, total),
    {
        let page = FeedPage { items: Vec::new(), offset: self.offset, total };
        assert(page@.items =~= Seq::<TorznabItemView>::empty());
        (self.closed(), SearchAction::Respond(page))
    }

    /// Where the search stands.
    pub fn phase(&self) -> (r: BrowsePhase)
        ensures
            r == self@.phase,
    {
        self.phase
    }

    fn need_of(&self, torrent: &Torrent) -> (r: TitleNeed)
        ensures
            r == title_need(torrent@, self@),
    {
        match torrent.anilist_id {
            Some(id) => match self.media.get(&id) {
                Some(entry) => {
                    if format_allowed(&entry.format) {
                        if self.sonarr_enabled {
                            TitleNeed::Series(id)
                        } else {
                            TitleNeed::Skip
                        }
                    } else if movie_format_allowed(&entry.format) {
                        if self.radarr_enabled {
                            TitleNeed::Movie(id)
                        } else {
                            TitleNeed::Skip
                        }
                    } else {
                        TitleNeed::Skip
                    }
                },
                None => TitleNeed::Skip,
            },
            None => TitleNeed::Skip,
        }
    }

    fn go_on(self) -> (r: (GenericSearch, SearchAction))
        ensures
            (r.0@, r.1@) == proceed(self@),
    {
        let mut search = self;
        loop
            invariant
                proceed(search@) == proceed(self@),
            decreases search.todo@.len(),
        {
            if search.todo.len() == 0 {
                let done = search.closed();
                let GenericSearch { items, offset, total, tvdb_ids, tmdb_ids, .. } = search;
                let page = FeedPage { items, offset, total };
                return (done, SearchAction::RespondAndRetain { page, tvdb_ids, tmdb_ids });
            }
            let ghost before = search@;
            let torrent = search.todo.remove(0);
            search.current = None;
            proof {
                assert(search.todo.deep_view() =~= before.todo.drop_first());
                assert(torrent@ == before.todo[0]);
                assert(search@ == (BrowseView {
                    todo: before.todo.drop_first(),
                    current: None,
                    ..before
                }));
                assert(title_need(torrent@, before) == title_need(torrent@, search@));
            }
            match search.need_of(&torrent) {
                TitleNeed::Series(anilist_id) => {
                    search.phase = BrowsePhase::TvdbMappings;
                    search.current = Some(torrent);
                    return (search, SearchAction::TvdbMappings { anilist_id });
                },
                TitleNeed::Movie(anilist_id) => {
                    search.phase = BrowsePhase::TmdbId;
                    search.current = Some(torrent);
                    return (search, SearchAction::TmdbId { anilist_id });
                },
                TitleNeed::Skip => {},
            }
        }
    }

    fn list(self, title: String, series: bool) -> (r: GenericSearch)
        ensures
            r@ == listed(
                self@,
                title@,
                if series {
                    series_categories()
                } else {
                    movie_categories()
                },
            ),
    {
        let mut search = self;
        let ghost before = search@;
        match search.current.take() {
            Some(torrent) => {
                let categories = if series {
                    tv_category_ids()
                } else {
                    movie_category_ids()
                };
                let item = build_torznab_item(torrent, title, categories);
                search.items.push(item);
                assert(search.items.deep_view() =~= before.items.push(item@));
                search
            },
            None => search,
        }
    }

    fn fallback(&self) -> (r: String)
        ensures
            r@ == fallback_title(self@),
    {
        match &self.current {
            Some(torrent) => default_torrent_title(torrent.id.as_str()),
            None => String::new(),
        }
    }
}

impl GenericSearch {
    fn on_torrents(self, outcome: Result<Vec<Torrent>, ReleasesError>) -> (r: (
        GenericSearch,
        SearchAction,
    ))
        requires
            self@.phase == BrowsePhase::Torrents,
        ensures
            (r.0@, r.1@) == browse_step(self@, (SearchEvent::Torrents(outcome))@),
    {
        match outcome {
            Err(error) => self.fail(HttpError::Releases(error)),
            Ok(found) => {
                if found.len() == 0 {
                    return self.respond_empty(0);
                }
                let missing = unidentified_ids(&found);
                let mut search = self;
                if missing.len() > 0 {
                    search.phase = BrowsePhase::Identities;
                    search.candidates = found;
                    (search, SearchAction::Identities(missing))
                } else {
                    let ids = identified_ids(&found);
                    search.phase = BrowsePhase::Media;
                    search.candidates = found;
                    (search, SearchAction::Classify(ids))
                }
            },
        }
    }

    fn on_identities(self, outcome: Result<ResolvedIds, ReleasesError>) -> (r: (
        GenericSearch,
        SearchAction,
    ))
        requires
            self@.phase == BrowsePhase::Identities,
        ensures
            (r.0@, r.1@) == browse_step(self@, (SearchEvent::Identities(outcome))@),
    {
        match outcome {
            Err(error) => self.fail(HttpError::Releases(error)),
            Ok(resolved) => {
                let mut search = self;
                let mut candidates: Vec<Torrent> = Vec::new();
                std::mem::swap(&mut candidates, &mut search.candidates);
                let filled = apply_identities(candidates, &resolved);
                let ids = identified_ids(&filled);
                search.phase = BrowsePhase::Media;
                search.candidates = filled;
                (search, SearchAction::Classify(ids))
            },
        }
    }

    fn on_media(self, outcome: Result<HashMap<i64, AniListMedia>, AniListError>) -> (r: (
        GenericSearch,
        SearchAction,
    ))
        requires
            self@.phase == BrowsePhase::Media,
        ensures
            (r.0@, r.1@) == browse_step(self@, (SearchEvent::Media(outcome))@),
    {
        match outcome {
            Err(error) => self.fail(HttpError::AniList(error)),
            Ok(media) => {
                let mut search = self;
                let ghost before = search@;
                let mut candidates: Vec<Torrent> = Vec::new();
                std::mem::swap(&mut candidates, &mut search.candidates);
                let served = keep_eligible(candidates, &media);
                let total = served.len();
                let page = keep_page(served, search.offset, search.limit);
                if page.len() == 0 {
                    let r = search.respond_empty(total);
                    proof {
                        assert(setup_of(search@) == setup_of(before));
                    }
                    return r;
                }
                search.media = media;
                search.total = total;
                search.todo = page;
                assert(search@.candidates =~= Seq::<TorrentView>::empty());
                search.go_on()
            },
        }
    }

    fn on_tvdb_mappings(self, outcome: Result<Vec<TvdbMapping>, MappingError>) -> (r: (
        GenericSearch,
        SearchAction,
    ))
        requires
            self@.phase == BrowsePhase::TvdbMappings,
        ensures
            (r.0@, r.1@) == browse_step(self@, (SearchEvent::TvdbMappings(outcome))@),
    {
        match outcome {
            Err(error) => self.fail(HttpError::Mapping(error)),
            Ok(mappings) => match choose_display(&mappings) {
                None => {
                    let title = self.fallback();
                    self.list(title, true).go_on()
                },
                Some((tvdb_id, season)) => {
                    let mut search = self;
                    search.tvdb_ids.insert(tvdb_id);
                    match find_series_title(&search.series_titles, tvdb_id, season) {
                        Some(title) => search.list(title, true).go_on(),
                        None => {
                            search.phase = BrowsePhase::SeriesTitle;
                            search.pending_tvdb = tvdb_id;
                            search.pending_season = season;
                            (search, SearchAction::SeriesTitle { tvdb_id })
                        },
                    }
                },
            },
        }
    }

    fn on_series_title(self, outcome: Result<String, SonarrError>) -> (r: (
        GenericSearch,
        SearchAction,
    ))
        requires
            self@.phase == BrowsePhase::SeriesTitle,
        ensures
            (r.0@, r.1@) == browse_step(self@, (SearchEvent::SeriesTitle(outcome))@),
    {
        match outcome {
            Ok(title) => {
                let mut search = self;
                let ghost before = search@;
                let feed_title = format_series_feed_title(title.as_str(), search.pending_season);
                let key = key_of_season(search.pending_tvdb, search.pending_season);
                search.series_titles.insert(key, feed_title.clone());
                assert forall|at: (i64, u32)| #[trigger]
                    season_key(at.0, at.1) == key implies at == (
                    before.pending_tvdb,
                    before.pending_season,
                ) by {
                    lemma_season_key_tells_seasons_apart(
                        at.0,
                        at.1,
                        before.pending_tvdb,
                        before.pending_season,
                    );
                }
                assert(search@.series_titles =~= before.series_titles.insert(
                    (before.pending_tvdb, before.pending_season),
                    feed_title@,
                ));
                search.list(feed_title, true).go_on()
            },
            Err(SonarrError::NotFound { tvdb_id }) => {
                let title = self.fallback();
                self.list(title, true).go_on()
            },
            Err(error) => self.fail(HttpError::Sonarr(error)),
        }
    }

    fn on_tmdb_id(self, outcome: Result<Option<i64>, MappingError>) -> (r: (
        GenericSearch,
        SearchAction,
    ))
        requires
            self@.phase == BrowsePhase::TmdbId,
        ensures
            (r.0@, r.1@) == browse_step(self@, (SearchEvent::TmdbId(outcome))@),
    {
        match outcome {
            Err(error) => self.fail(HttpError::Mapping(error)),
            Ok(None) => {
                let title = self.fallback();
                self.list(title, false).go_on()
            },
            Ok(Some(tmdb_id)) => {
                let mut search = self;
                match find_movie_title(&search.movie_titles, tmdb_id) {
                    Some(title) => {
                        search.tmdb_ids.insert(tmdb_id);
                        search.list(title, false).go_on()
                    },
                    None => {
                        search.phase = BrowsePhase::MovieName;
                        search.pending_tmdb = tmdb_id;
                        (search, SearchAction::MovieName { tmdb_id })
                    },
                }
            },
        }
    }

    fn on_movie_name(self, outcome: Result<MovieName, RadarrError>) -> (r: (
        GenericSearch,
        SearchAction,
    ))
        requires
            self@.phase == BrowsePhase::MovieName,
        ensures
            (r.0@, r.1@) == browse_step(self@, (SearchEvent::MovieName(outcome))@),
    {
        match outcome {
            Ok(name) => {
                let mut search = self;
                let ghost before = search@;
                let feed_title = format_movie_feed_title(name.title.as_str(), name.year);
                search.movie_titles.insert(search.pending_tmdb, feed_title.clone());
                search.tmdb_ids.insert(search.pending_tmdb);
                assert(search@.movie_titles =~= before.movie_titles.insert(
                    before.pending_tmdb,
                    feed_title@,
                ));
                search.list(feed_title, false).go_on()
            },
            Err(RadarrError::NotFound { tmdb_id }) => {
                let title = self.fallback();
                self.list(title, false).go_on()
            },
            Err(error) => self.fail(HttpError::Radarr(error)),
        }
    }

    /// Takes in what the caller hands back, and tells what to do next.
    pub fn step(self, event: SearchEvent) -> (r: (GenericSearch, SearchAction))
        ensures
            (r.0@, r.1@) == browse_step(self@, event@),
    {
        match (self.phase, event) {
            (BrowsePhase::Torrents, SearchEvent::Torrents(outcome)) => self.on_torrents(outcome),
            (BrowsePhase::Identities, SearchEvent::Identities(outcome)) => self.on_identities(
                outcome,
            ),
            (BrowsePhase::Media, SearchEvent::Media(outcome)) => self.on_media(outcome),
            (BrowsePhase::TvdbMappings, SearchEvent::TvdbMappings(outcome)) => self.on_tvdb_mappings(
                outcome,
            ),
            (BrowsePhase::SeriesTitle, SearchEvent::SeriesTitle(outcome)) => self.on_series_title(
                outcome,
            ),
            (BrowsePhase::TmdbId, SearchEvent::TmdbId(outcome)) => self.on_tmdb_id(outcome),
            (BrowsePhase::MovieName, SearchEvent::MovieName(outcome)) => self.on_movie_name(outcome),
            _ => self.fail(HttpError::OutOfTurn),
        }
    }
}

/// Starts the search without a target.
pub fn respond_generic_search(
    query: &TorznabQuery,
    default_limit: usize,
    sonarr_enabled: bool,
    radarr_enabled: bool,
) -> (r: (GenericSearch, SearchAction))
    ensures
        (r.0@, r.1@) == browse_start(*query, default_limit, sonarr_enabled, radarr_enabled),
{
    let limit = effective_limit(query.limit, default_limit);
    let offset = match query.offset {
        Some(offset) => offset,
        None => 0,
    };
    let search = GenericSearch::make(
        BrowsePhase::Torrents,
        offset,
        limit,
        default_limit,
        sonarr_enabled,
        radarr_enabled,
    );
    if query.query.is_some() || !category_filter_matches(&query.cat) {
        search.respond_empty(0)
    } else {
        (search, SearchAction::Recent { limit: default_limit })
    }
}

/// What a request is answered with.
#[derive(Debug)]
pub enum Dispatch {
    /// The document that tells what the indexer can do.
    Caps,
    /// A search without a target, and its first step.
    Generic(GenericSearch, SearchAction),
    /// A search for a series season or a movie, and its first step.
    Target(TargetSearch, SearchAction),
    /// A failure.
    Fail(HttpError),
}

/// The operation that a query asks for: the one it names, or a series search
/// where it names none; `None` where it names one that is not known.
pub open spec fn operation_of(query: TorznabQuery) -> Option<TorznabOperation<'static>> {
    match query.operation {
        None => Some(TorznabOperation::TvSearch),
        Some(name) => operation_named(name@),
    }
}

/// Whether a request can be served as it stands: the operation is known, a
/// search without a target names no text and lets the indexer's categories
/// through, a series search names a TVDB id and a season, a movie search a
/// TMDB id.
pub open spec fn is_servable(query: TorznabQuery) -> bool {
    match operation_of(query) {
        Some(TorznabOperation::Caps) => true,
        Some(TorznabOperation::Search) => query.query is None && (match query.cat {
            Some(filter) => filter_accepts(filter@),
            None => true,
        }),
        Some(TorznabOperation::TvSearch) => series_target(query) is Some,
        Some(TorznabOperation::MovieSearch) => movie_target(query) is Some,
        _ => false,
    }
}

/// Tells whether a request can be served as it stands.
pub fn request_is_servable(query: &TorznabQuery) -> (r: bool)
    ensures
        r == is_servable(*query),
{
    match query.operation() {
        TorznabOperation::Caps => true,
        TorznabOperation::Search => query.query.is_none() && category_filter_matches(&query.cat),
        TorznabOperation::TvSearch => query.tvdb_identifier().is_some()
            && query.season_number().is_some(),
        TorznabOperation::MovieSearch => query.tmdb_identifier().is_some(),
        TorznabOperation::Unsupported(_) => false,
    }
}

/// Settles what a request is answered with: the capabilities, one of the
/// searches at its first step, or the failure that an unknown operation is.
pub fn torznab_handler(
    query: &TorznabQuery,
    default_limit: usize,
    sonarr_enabled: bool,
    radarr_enabled: bool,
) -> (r: Dispatch)
    ensures
        match operation_of(*query) {
            Some(TorznabOperation::Caps) => r is Caps,
            Some(TorznabOperation::Search) => r matches Dispatch::Generic(search, action) && (
            search@,
            action@,
            ) == browse_start(*query, default_limit, sonarr_enabled, radarr_enabled),
            Some(TorznabOperation::TvSearch) => r matches Dispatch::Target(search, action)
                && TargetSearch::started(
                series_target(*query),
                sonarr_enabled,
                *query,
                default_limit,
                search,
                action,
            ),
            Some(TorznabOperation::MovieSearch) => r matches Dispatch::Target(search, action)
                && TargetSearch::started(
                movie_target(*query),
                radarr_enabled,
                *query,
                default_limit,
                search,
                action,
            ),
            _ => r matches Dispatch::Fail(HttpError::UnsupportedOperation(name)) && Some(name@)
                == crate::text::option_text(query.operation),
        },
{
    match query.operation() {
        TorznabOperation::Caps => Dispatch::Caps,
        TorznabOperation::Search => {
            let (search, action) = respond_generic_search(
                query,
                default_limit,
                sonarr_enabled,
                radarr_enabled,
            );
            Dispatch::Generic(search, action)
        },
        TorznabOperation::TvSearch => {
            let (search, action) = respond_tv_search(query, default_limit, sonarr_enabled);
            Dispatch::Target(search, action)
        },
        TorznabOperation::MovieSearch => {
            let (search, action) = respond_movie_search(query, default_limit, radarr_enabled);
            Dispatch::Target(search, action)
        },
        TorznabOperation::Unsupported(name) => Dispatch::Fail(
            HttpError::UnsupportedOperation(crate::text::text_of(name)),
        ),
    }
}

/// The total of a page counts the candidates that the feed serves, wherever
/// the page starts: a page that starts beyond the last of them holds no item
/// and still tells how many there are.
pub proof fn lemma_page_beyond_the_end_keeps_the_total(
    state: BrowseView,
    media: Map<i64, AniListMedia>,
)
    requires
        state.phase == BrowsePhase::Media,
        state.offset >= eligible(state.candidates, media).len(),
    ensures
        browse_step(state, SearchEventView::Media(Ok(media))).1 == SearchActionView::Respond(
            PageView {
                items: Seq::empty(),
                offset: state.offset,
                total: eligible(state.candidates, media).len() as usize,
            },
        ),
{
}

} // verus!

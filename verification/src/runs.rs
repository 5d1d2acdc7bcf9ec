//! Whole runs of the search without a target: what a run lists, whatever
//! the services answer along the way.

use crate::anilist::AniListMedia;
use crate::browse::{
    browse_start, browse_step, listed, proceed, title_need, BrowsePhase, BrowseView,
    SearchActionView, SearchEventView,
};
use crate::query::TorznabQuery;
use crate::feed::{
    eligible, is_eligible, item_of, lemma_eligible_are_served, lemma_page_of, page_of,
};
use crate::releases::TorrentView;
use crate::torznab::TorznabItemView;
use vstd::prelude::*;

verus! {

/// The ids of candidates, in their order.
pub open spec fn torrent_ids(torrents: Seq<TorrentView>) -> Seq<Seq<char>> {
    Seq::new(torrents.len(), |i: int| torrents[i].id)
}

/// The ids under which items are listed, in their order.
pub open spec fn item_guids(items: Seq<TorznabItemView>) -> Seq<Seq<char>> {
    Seq::new(items.len(), |i: int| items[i].guid)
}

/// Whether a title can be asked for on behalf of a candidate: the format of
/// its AniList id is known, and the resolver of that kind of format is in
/// use.
pub open spec fn has_resolver(
    torrent: TorrentView,
    media: Map<i64, AniListMedia>,
    sonarr_enabled: bool,
    radarr_enabled: bool,
) -> bool {
    match torrent.anilist_id {
        Some(id) => media.contains_key(id) && if media[id].format.is_series() {
            sonarr_enabled
        } else {
            media[id].format.is_movie() && radarr_enabled
        },
        None => false,
    }
}

/// The test that tells the candidates with a resolver from the others.
pub open spec fn resolver_test(
    media: Map<i64, AniListMedia>,
    sonarr_enabled: bool,
    radarr_enabled: bool,
) -> spec_fn(TorrentView) -> bool {
    |torrent: TorrentView| has_resolver(torrent, media, sonarr_enabled, radarr_enabled)
}

/// Those of the candidates that have a resolver, in their order.
pub open spec fn resolvable(
    torrents: Seq<TorrentView>,
    media: Map<i64, AniListMedia>,
    sonarr_enabled: bool,
    radarr_enabled: bool,
) -> Seq<TorrentView> {
    torrents.filter(resolver_test(media, sonarr_enabled, radarr_enabled))
}

/// The candidates that a search has listed, is listing and is still to list,
/// by their ids and in that order. Of those that it has not come to yet, the
/// ones without a resolver are left out.
pub open spec fn listing(state: BrowseView) -> Seq<Seq<char>> {
    item_guids(state.items) + (match state.current {
        Some(torrent) => seq![torrent.id],
        None => Seq::empty(),
    }) + torrent_ids(
        resolvable(state.todo, state.media, state.sonarr_enabled, state.radarr_enabled),
    )
}

/// The search is listing a candidate.
pub open spec fn is_listing(state: BrowseView) -> bool {
    &&& state.phase == BrowsePhase::TvdbMappings || state.phase == BrowsePhase::TmdbId
        || state.phase == BrowsePhase::SeriesTitle || state.phase == BrowsePhase::MovieName
    &&& state.current is Some
}

/// Of candidates with a first one, those with a resolver are the first, if
/// it has one, and then those of the rest.
pub proof fn lemma_resolvable_from_the_first(
    torrents: Seq<TorrentView>,
    media: Map<i64, AniListMedia>,
    sonarr_enabled: bool,
    radarr_enabled: bool,
)
    requires
        torrents.len() > 0,
    ensures
        resolvable(torrents, media, sonarr_enabled, radarr_enabled) == (if has_resolver(
            torrents[0],
            media,
            sonarr_enabled,
            radarr_enabled,
        ) {
            seq![torrents[0]]
        } else {
            Seq::empty()
        }) + resolvable(torrents.drop_first(), media, sonarr_enabled, radarr_enabled),
{
    let test = resolver_test(media, sonarr_enabled, radarr_enabled);
    let first = seq![torrents[0]];
    assert(torrents =~= first + torrents.drop_first());
    Seq::filter_distributes_over_add(first, torrents.drop_first(), test);
    reveal_with_fuel(Seq::filter, 2);
    assert(first.drop_last() =~= Seq::<TorrentView>::empty());
    assert(first.filter(test) =~= (if test(torrents[0]) {
        first
    } else {
        Seq::empty()
    }));
}

/// Where both resolvers are in use, every candidate that a feed serves has
/// a resolver.
pub proof fn lemma_served_candidates_are_resolvable(
    torrents: Seq<TorrentView>,
    media: Map<i64, AniListMedia>,
)
    requires
        forall|k: int| 0 <= k < torrents.len() ==> is_eligible(#[trigger] torrents[k], media),
    ensures
        resolvable(torrents, media, true, true) == torrents,
    decreases torrents.len(),
{
    reveal(Seq::filter);
    if torrents.len() > 0 {
        let front = torrents.drop_last();
        assert forall|k: int| 0 <= k < front.len() implies is_eligible(#[trigger] front[k], media) by {
            assert(front[k] == torrents[k]);
        }
        lemma_served_candidates_are_resolvable(front, media);
        assert(is_eligible(torrents[torrents.len() - 1], media));
        assert(front.push(torrents.last()) =~= torrents);
    }
}

/// The action answers with a page that lists the candidates of the given
/// ids, one item for each and in their order, and tells the given total.
pub open spec fn answers_with(action: SearchActionView, ids: Seq<Seq<char>>, offset: usize, total: usize) -> bool {
    match action {
        SearchActionView::Respond(page) => item_guids(page.items) == ids && page.offset == offset
            && page.total == total,
        SearchActionView::RespondAndRetain { page, .. } => item_guids(page.items) == ids
            && page.offset == offset && page.total == total,
        _ => false,
    }
}

/// The action asks for what the title of a candidate takes.
pub open spec fn asks_for_a_title(action: SearchActionView) -> bool {
    action is TvdbMappings || action is TmdbId || action is SeriesTitle || action is MovieName
}

/// Where a run stands with respect to the candidates of the given ids: it
/// has failed, it has answered with the page that lists them all, or it is
/// listing them and has lost none.
pub open spec fn on_course(
    state: BrowseView,
    action: SearchActionView,
    ids: Seq<Seq<char>>,
    offset: usize,
    total: usize,
) -> bool {
    ||| state.phase == BrowsePhase::Finished && (action is Fail || answers_with(
        action,
        ids,
        offset,
        total,
    ))
    ||| is_listing(state) && listing(state) == ids && state.offset == offset && state.total
        == total && asks_for_a_title(action)
}

/// Going on from a candidate that has been listed keeps the run on course:
/// the next candidate with a resolver is taken up, and once none is left the
/// page lists them all.
pub proof fn lemma_proceed_stays_on_course(state: BrowseView)
    requires
        state.current is None,
    ensures
        on_course(proceed(state).0, proceed(state).1, listing(state), state.offset, state.total),
    decreases state.todo.len(),
{
    if state.todo.len() == 0 {
        reveal(Seq::filter);
        assert(listing(state) =~= item_guids(state.items));
    } else {
        let torrent = state.todo[0];
        let rest = BrowseView { todo: state.todo.drop_first(), current: None, ..state };
        lemma_resolvable_from_the_first(
            state.todo,
            state.media,
            state.sonarr_enabled,
            state.radarr_enabled,
        );
        if title_need(torrent, state) is Skip {
            lemma_proceed_stays_on_course(rest);
            assert(listing(rest) =~= listing(state));
        } else {
            let next = proceed(state).0;
            assert(next.todo == state.todo.drop_first());
            assert(next.current == Some(torrent));
            assert(listing(next) =~= listing(state));
        }
    }
}

/// Listing the candidate at hand and going on keeps the run on course.
proof fn lemma_list_and_proceed(state: BrowseView, noted: BrowseView, title: Seq<char>, categories: Seq<u32>)
    requires
        is_listing(state),
        noted.current == state.current,
        noted.items == state.items,
        noted.todo == state.todo,
        noted.media == state.media,
        noted.offset == state.offset,
        noted.total == state.total,
        noted.sonarr_enabled == state.sonarr_enabled,
        noted.radarr_enabled == state.radarr_enabled,
    ensures
        on_course(
            proceed(listed(noted, title, categories)).0,
            proceed(listed(noted, title, categories)).1,
            listing(state),
            state.offset,
            state.total,
        ),
{
    let after = listed(noted, title, categories);
    let torrent = state.current.unwrap();
    assert(after.items == state.items.push(item_of(torrent, title, categories)));
    assert(item_of(torrent, title, categories).guid == torrent.id);
    assert(listing(after) =~= listing(state));
    lemma_proceed_stays_on_course(after);
}

/// A step of a run that is listing candidates keeps it on course, whatever
/// the service answers: a failure ends the run, and any other answer leaves
/// every candidate in its place among those listed and to be listed.
pub proof fn lemma_step_stays_on_course(state: BrowseView, event: SearchEventView)
    requires
        is_listing(state),
    ensures
        on_course(
            browse_step(state, event).0,
            browse_step(state, event).1,
            listing(state),
            state.offset,
            state.total,
        ),
{
    let next = browse_step(state, event);
    match (state.phase, event) {
        (BrowsePhase::TvdbMappings, SearchEventView::TvdbMappings(Ok(mappings))) => {
            match crate::browse::display_choice(mappings) {
                None => {
                    lemma_list_and_proceed(
                        state,
                        state,
                        crate::browse::fallback_title(state),
                        crate::browse::series_categories(),
                    );
                },
                Some((tvdb_id, season)) => {
                    let noted = BrowseView { tvdb_ids: state.tvdb_ids.insert(tvdb_id), ..state };
                    match crate::browse::known_series_title(state.series_titles, tvdb_id, season) {
                        Some(title) => {
                            lemma_list_and_proceed(
                                state,
                                noted,
                                title,
                                crate::browse::series_categories(),
                            );
                        },
                        None => {
                            assert(listing(next.0) =~= listing(state));
                        },
                    }
                },
            }
        },
        (BrowsePhase::SeriesTitle, SearchEventView::SeriesTitle(Ok(title))) => {
            let feed_title = crate::feed::series_feed_title(title, state.pending_season);
            let noted = BrowseView {
                series_titles: state.series_titles.insert(
                    (state.pending_tvdb, state.pending_season),
                    feed_title,
                ),
                ..state
            };
            lemma_list_and_proceed(state, noted, feed_title, crate::browse::series_categories());
        },
        (
            BrowsePhase::SeriesTitle,
            SearchEventView::SeriesTitle(Err(crate::sonarr::SonarrError::NotFound { .. })),
        ) => {
            lemma_list_and_proceed(
                state,
                state,
                crate::browse::fallback_title(state),
                crate::browse::series_categories(),
            );
        },
        (BrowsePhase::TmdbId, SearchEventView::TmdbId(Ok(None))) => {
            lemma_list_and_proceed(
                state,
                state,
                crate::browse::fallback_title(state),
                crate::browse::movie_categories(),
            );
        },
        (BrowsePhase::TmdbId, SearchEventView::TmdbId(Ok(Some(tmdb_id)))) => {
            match crate::browse::known_movie_title(state.movie_titles, tmdb_id) {
                Some(title) => {
                    lemma_list_and_proceed(
                        state,
                        BrowseView { tmdb_ids: state.tmdb_ids.insert(tmdb_id), ..state },
                        title,
                        crate::browse::movie_categories(),
                    );
                },
                None => {
                    assert(listing(next.0) =~= listing(state));
                },
            }
        },
        (BrowsePhase::MovieName, SearchEventView::MovieName(Ok((title, year)))) => {
            let feed_title = crate::feed::movie_feed_title(title, year);
            let noted = BrowseView {
                movie_titles: state.movie_titles.insert(state.pending_tmdb, feed_title),
                tmdb_ids: state.tmdb_ids.insert(state.pending_tmdb),
                ..state
            };
            lemma_list_and_proceed(state, noted, feed_title, crate::browse::movie_categories());
        },
        (
            BrowsePhase::MovieName,
            SearchEventView::MovieName(Err(crate::radarr::RadarrError::NotFound { .. })),
        ) => {
            lemma_list_and_proceed(
                state,
                state,
                crate::browse::fallback_title(state),
                crate::browse::movie_categories(),
            );
        },
        _ => {},
    }
}

/// Where a run stands after a number of steps: each event is taken in by the
/// step that follows the one before.
pub open spec fn run(
    state: BrowseView,
    action: SearchActionView,
    events: Seq<SearchEventView>,
) -> (BrowseView, SearchActionView)
    decreases events.len(),
{
    if events.len() == 0 {
        (state, action)
    } else {
        let before = run(state, action, events.drop_last());
        browse_step(before.0, events.last())
    }
}

/// A run that is on course stays on course, whatever events follow. Once it
/// has ended, every further event is out of turn.
pub proof fn lemma_run_stays_on_course(
    state: BrowseView,
    action: SearchActionView,
    events: Seq<SearchEventView>,
    ids: Seq<Seq<char>>,
    offset: usize,
    total: usize,
)
    requires
        on_course(state, action, ids, offset, total),
    ensures
        on_course(
            run(state, action, events).0,
            run(state, action, events).1,
            ids,
            offset,
            total,
        ),
    decreases events.len(),
{
    if events.len() > 0 {
        lemma_run_stays_on_course(state, action, events.drop_last(), ids, offset, total);
        let before = run(state, action, events.drop_last());
        if is_listing(before.0) {
            lemma_step_stays_on_course(before.0, events.last());
        }
    }
}

/// The candidates that a search lists of its page: those with a resolver.
pub open spec fn listed_page(state: BrowseView, media: Map<i64, AniListMedia>) -> Seq<TorrentView> {
    resolvable(served_page(state, media), media, state.sonarr_enabled, state.radarr_enabled)
}

/// The search has gathered candidates and has listed none yet.
pub open spec fn has_listed_nothing(state: BrowseView) -> bool {
    state.items.len() == 0 && state.current is None
}

/// The page of a search: the candidates that the feed serves, given the
/// formats, from the offset on and no more of them than the limit.
pub open spec fn served_page(state: BrowseView, media: Map<i64, AniListMedia>) -> Seq<TorrentView> {
    page_of(eligible(state.candidates, media), state.offset as nat, state.limit as nat)
}

/// Once the formats are known, the run is on course to list its page: it
/// answers at once where the page is empty, and else takes up the first
/// candidate of the page that has a resolver. The total is the number of
/// candidates that the feed serves, whatever the offset and the limit.
pub proof fn lemma_formats_set_the_course(state: BrowseView, media: Map<i64, AniListMedia>)
    requires
        state.phase == BrowsePhase::Media,
        has_listed_nothing(state),
        state.candidates.len() <= usize::MAX,
    ensures
        eligible(state.candidates, media).len() <= usize::MAX,
        on_course(
            browse_step(state, SearchEventView::Media(Ok(media))).0,
            browse_step(state, SearchEventView::Media(Ok(media))).1,
            torrent_ids(listed_page(state, media)),
            state.offset,
            eligible(state.candidates, media).len() as usize,
        ),
{
    let served = eligible(state.candidates, media);
    let page = served_page(state, media);
    lemma_eligible_are_served(state.candidates, media);
    lemma_page_of(served, state.offset as nat, state.limit as nat);
    if page.len() == 0 {
        reveal(Seq::filter);
        assert(item_guids(Seq::<TorznabItemView>::empty()) =~= torrent_ids(
            listed_page(state, media),
        ));
    } else {
        let taken = BrowseView {
            candidates: Seq::empty(),
            media,
            total: served.len() as usize,
            todo: page,
            ..state
        };
        assert(listing(taken) =~= torrent_ids(listed_page(state, media)));
        lemma_proceed_stays_on_course(taken);
    }
}

/// A search without a target lists its page, whatever the services answer:
/// a run that ends with a page has one item for each candidate of the page
/// that has a resolver, in their order and under the candidate's id. The
/// items are never more than the limit, and the total is the number of
/// candidates that the feed serves, whatever the offset and the limit.
pub proof fn lemma_run_lists_the_page(
    state: BrowseView,
    media: Map<i64, AniListMedia>,
    events: Seq<SearchEventView>,
)
    requires
        state.phase == BrowsePhase::Media,
        has_listed_nothing(state),
        state.candidates.len() <= usize::MAX,
    ensures
        ({
            let start = browse_step(state, SearchEventView::Media(Ok(media)));
            let end = run(start.0, start.1, events);
            let served = eligible(state.candidates, media);
            &&& served.len() <= usize::MAX
            &&& listed_page(state, media).len() <= served_page(state, media).len() <= state.limit
            &&& end.1 is Respond || end.1 is RespondAndRetain ==> answers_with(
                end.1,
                torrent_ids(listed_page(state, media)),
                state.offset,
                served.len() as usize,
            )
        }),
{
    let start = browse_step(state, SearchEventView::Media(Ok(media)));
    let served = eligible(state.candidates, media);
    lemma_formats_set_the_course(state, media);
    lemma_page_of(served, state.offset as nat, state.limit as nat);
    served_page(state, media).lemma_filter_len(
        resolver_test(media, state.sonarr_enabled, state.radarr_enabled),
    );
    lemma_run_stays_on_course(
        start.0,
        start.1,
        events,
        torrent_ids(listed_page(state, media)),
        state.offset,
        served.len() as usize,
    );
}

/// With both resolvers in use, a search without a target lists its whole
/// page: the items of a run that ends with a page are the candidates that
/// the feed serves, from the offset on and no more of them than the limit,
/// one item for each, in their order and under the candidate's id.
pub proof fn lemma_run_lists_the_whole_page(
    state: BrowseView,
    media: Map<i64, AniListMedia>,
    events: Seq<SearchEventView>,
)
    requires
        state.phase == BrowsePhase::Media,
        state.sonarr_enabled,
        state.radarr_enabled,
        has_listed_nothing(state),
        state.candidates.len() <= usize::MAX,
    ensures
        ({
            let start = browse_step(state, SearchEventView::Media(Ok(media)));
            let end = run(start.0, start.1, events);
            let served = eligible(state.candidates, media);
            &&& served.len() <= usize::MAX
            &&& served_page(state, media).len() <= state.limit
            &&& end.1 is Respond || end.1 is RespondAndRetain ==> answers_with(
                end.1,
                torrent_ids(served_page(state, media)),
                state.offset,
                served.len() as usize,
            )
        }),
{
    let served = eligible(state.candidates, media);
    let page = served_page(state, media);
    lemma_run_lists_the_page(state, media, events);
    lemma_eligible_are_served(state.candidates, media);
    lemma_page_of(served, state.offset as nat, state.limit as nat);
    assert forall|k: int| 0 <= k < page.len() implies is_eligible(#[trigger] page[k], media) by {
        assert(page[k] == served[state.offset + k]);
    }
    lemma_served_candidates_are_resolvable(page, media);
}

/// A search has listed nothing when it starts, and lists nothing while it
/// gathers its candidates: it comes to the formats with no item made.
pub proof fn lemma_gathering_lists_nothing(state: BrowseView, event: SearchEventView)
    requires
        state.phase == BrowsePhase::Torrents || state.phase == BrowsePhase::Identities,
        has_listed_nothing(state),
    ensures
        has_listed_nothing(browse_step(state, event).0),
        browse_step(state, event).0.phase == BrowsePhase::Media ==> browse_step(
            state,
            event,
        ).0.offset == state.offset && browse_step(state, event).0.limit == state.limit
            && browse_step(state, event).0.sonarr_enabled == state.sonarr_enabled && browse_step(
            state,
            event,
        ).0.radarr_enabled == state.radarr_enabled,
{
}

/// A search starts with nothing listed.
pub proof fn lemma_start_lists_nothing(
    query: TorznabQuery,
    default_limit: usize,
    sonarr_enabled: bool,
    radarr_enabled: bool,
)
    ensures
        has_listed_nothing(
            browse_start(query, default_limit, sonarr_enabled, radarr_enabled).0,
        ),
{
}

} // verus!

use seadexerr::anilist::{AniListError, AniListMedia, MediaFormat};
use seadexerr::browse::{
    request_is_servable, respond_generic_search, torznab_handler, BrowsePhase, Dispatch,
};
use seadexerr::mapping::{MappingIndex, PlexAniBridgeMappings, RawMappingRecord, TvdbMapping};
use seadexerr::query::TorznabQuery;
use seadexerr::radarr::{MovieName, RadarrError};
use seadexerr::releases::{ReleasesError, ResolvedIds, Torrent, TorrentFile};
use seadexerr::search::{
    respond_movie_search, respond_tv_search, FeedPage, HttpError, SearchAction, SearchEvent,
};
use seadexerr::torznab::TorznabBuildError;
use seadexerr::sonarr::SonarrError;
use seadexerr::sync::MappingError;
use std::collections::{HashMap, HashSet};

fn query() -> TorznabQuery {
    TorznabQuery {
        operation: None,
        cat: None,
        limit: None,
        offset: None,
        imdbid: None,
        season: None,
        tvdb_id: None,
        tmdb_id: None,
        query: None,
    }
}

fn tv_query(tvdb: &str, season: &str) -> TorznabQuery {
    let mut q = query();
    q.tvdb_id = Some(tvdb.to_string());
    q.season = Some(season.to_string());
    q
}

fn torrent(id: &str, files: usize, anilist_id: Option<i64>) -> Torrent {
    Torrent {
        id: id.to_string(),
        download_url: format!("https://nyaa.si/download/{id}.torrent"),
        source_url: format!("https://nyaa.si/view/{id}"),
        info_hash: None,
        published: None,
        files: (0..files).map(|i| TorrentFile { length: 1, name: format!("{i}.mkv") }).collect(),
        size_bytes: files as u64,
        is_best: false,
        anilist_id,
    }
}

fn formats(entries: &[(i64, MediaFormat)]) -> HashMap<i64, AniListMedia> {
    entries.iter().map(|(id, format)| (*id, AniListMedia { id: *id, format: *format })).collect()
}

fn page_of(action: SearchAction) -> FeedPage {
    match action {
        SearchAction::Respond(page) => page,
        SearchAction::RespondAndRetain { page, .. } => page,
        other => panic!("expected a page, got {other:?}"),
    }
}

fn assert_empty(action: SearchAction, offset: usize) {
    match action {
        SearchAction::Respond(page) => {
            assert!(page.items.is_empty());
            assert_eq!(page.total, 0);
            assert_eq!(page.offset, offset);
        }
        other => panic!("expected the empty page, got {other:?}"),
    }
}

fn titles(page: &FeedPage) -> Vec<(String, String)> {
    page.items.iter().map(|item| (item.guid.clone(), item.title.clone())).collect()
}

#[test]
fn series_search_end_to_end() {
    let raw = vec![(
        "555".to_string(),
        RawMappingRecord {
            tvdb_id: Some(100),
            tmdb_movie_id: None,
            tvdb_mappings: vec!["s1".to_string(), "s2".to_string()],
        },
    )];
    let mut store = PlexAniBridgeMappings::bootstrap(0);
    store.install(seadexerr::mapping::CachedMappings {
        modified: seadexerr::mapping::FileStamp { seconds: 0, nanos: 0 },
        etag: None,
        entries: MappingIndex::build(&raw),
    });

    let (search, action) = respond_tv_search(&tv_query("100", "2"), 100, true);
    let (tvdb_id, season) = match action {
        SearchAction::AnilistForSeason { tvdb_id, season } => (tvdb_id, season),
        other => panic!("expected a mapping lookup, got {other:?}"),
    };
    assert_eq!((tvdb_id, season), (100, 2));
    let anilist_id = store.resolve_anilist_id(tvdb_id, season);
    assert_eq!(anilist_id, Some(555));

    let (search, action) = search.step(SearchEvent::Mapping(Ok(anilist_id)));
    assert!(matches!(action, SearchAction::Search { anilist_id: 555, limit: 100 }));
    let collected = vec![
        torrent("single", 1, Some(555)),
        torrent("pack-a", 12, Some(555)),
        torrent("empty", 0, Some(555)),
        torrent("pack-b", 2, Some(555)),
    ];
    let (search, action) = search.step(SearchEvent::Torrents(Ok(collected)));
    assert!(matches!(action, SearchAction::Classify(ref ids) if ids == &vec![555]));
    let (search, action) = search.step(SearchEvent::Media(Ok(formats(&[(555, MediaFormat::Tv)]))));
    assert!(matches!(action, SearchAction::SeriesTitle { tvdb_id: 100 }));
    let (_, action) = search.step(SearchEvent::SeriesTitle(Ok("Frieren".to_string())));
    let page = page_of(action);
    assert_eq!(page.total, 2);
    assert_eq!(page.offset, 0);
    assert_eq!(
        titles(&page),
        vec![
            ("pack-a".to_string(), "Frieren S02 Bluray 1080p remux".to_string()),
            ("pack-b".to_string(), "Frieren S02 Bluray 1080p remux".to_string()),
        ]
    );
    assert_eq!(page.items[0].categories, vec![5000, 5070]);
    assert_eq!(page.items[0].link, "https://nyaa.si/download/pack-a.torrent");
}

#[test]
fn series_search_needs_resolver_id_and_season() {
    let (_, action) = respond_tv_search(&tv_query("100", "2"), 100, false);
    assert_empty(action, 0);
    let mut q = tv_query("abc", "2");
    q.offset = Some(7);
    assert_empty(respond_tv_search(&q, 100, true).1, 7);
    assert_empty(respond_tv_search(&tv_query("100", "two"), 100, true).1, 0);
    let mut q = query();
    q.season = Some("1".to_string());
    assert_empty(respond_tv_search(&q, 100, true).1, 0);
    let mut q = query();
    q.tvdb_id = Some("1".to_string());
    assert_empty(respond_tv_search(&q, 100, true).1, 0);
}

#[test]
fn series_search_ends_empty_without_mapping_or_fitting_format() {
    let start = || respond_tv_search(&tv_query("1", "1"), 100, true).0;
    assert_empty(start().step(SearchEvent::Mapping(Ok(None))).1, 0);

    let to_media = || {
        let (search, _) = start().step(SearchEvent::Mapping(Ok(Some(9))));
        search.step(SearchEvent::Torrents(Ok(vec![torrent("a", 3, Some(9))]))).0
    };
    assert_empty(to_media().step(SearchEvent::Media(Ok(HashMap::new()))).1, 0);
    assert_empty(to_media().step(SearchEvent::Media(Ok(formats(&[(9, MediaFormat::Movie)])))).1, 0);
    assert_empty(to_media().step(SearchEvent::Media(Ok(formats(&[(9, MediaFormat::Ova)])))).1, 0);
    assert_empty(to_media().step(SearchEvent::Media(Ok(formats(&[(8, MediaFormat::Tv)])))).1, 0);
    for format in [MediaFormat::Tv, MediaFormat::TvShort, MediaFormat::Ona] {
        let (_, action) = to_media().step(SearchEvent::Media(Ok(formats(&[(9, format)]))));
        assert!(matches!(action, SearchAction::SeriesTitle { tvdb_id: 1 }));
    }
    let (search, _) = to_media().step(SearchEvent::Media(Ok(formats(&[(9, MediaFormat::Tv)]))));
    assert_empty(search.step(SearchEvent::SeriesTitle(Err(SonarrError::NotFound { tvdb_id: 1 }))).1, 0);
}

#[test]
fn series_search_passes_failures_on() {
    let start = || respond_tv_search(&tv_query("1", "1"), 100, true).0;
    let (_, action) = start().step(SearchEvent::Mapping(Err(MappingError::Deserialisation)));
    assert!(matches!(
        action,
        SearchAction::Fail(HttpError::Mapping(MappingError::Deserialisation))
    ));
    let (search, _) = start().step(SearchEvent::Mapping(Ok(Some(9))));
    let (_, action) = search.step(SearchEvent::Torrents(Err(ReleasesError::Http)));
    assert!(matches!(action, SearchAction::Fail(HttpError::Releases(ReleasesError::Http))));
    let (search, _) = start().step(SearchEvent::Mapping(Ok(Some(9))));
    let (search, _) = search.step(SearchEvent::Torrents(Ok(Vec::new())));
    let (_, action) = search.step(SearchEvent::Media(Err(AniListError::Graphql("x".to_string()))));
    assert!(matches!(action, SearchAction::Fail(HttpError::AniList(AniListError::Graphql(ref m))) if m == "x"));
    let (search, _) = start().step(SearchEvent::Mapping(Ok(Some(9))));
    let (search, _) = search.step(SearchEvent::Torrents(Ok(Vec::new())));
    let (search, _) = search.step(SearchEvent::Media(Ok(formats(&[(9, MediaFormat::Tv)]))));
    let (_, action) = search.step(SearchEvent::SeriesTitle(Err(SonarrError::Http)));
    assert!(matches!(action, SearchAction::Fail(HttpError::Sonarr(SonarrError::Http))));
    let (_, action) = start().step(SearchEvent::Torrents(Ok(Vec::new())));
    assert!(matches!(action, SearchAction::Fail(HttpError::OutOfTurn)));
    let (search, _) = start().step(SearchEvent::Mapping(Ok(None)));
    let (_, action) = search.step(SearchEvent::Mapping(Ok(None)));
    assert!(matches!(action, SearchAction::Fail(HttpError::OutOfTurn)));
}

#[test]
fn search_asks_for_no_more_than_the_page_needs() {
    let mut q = tv_query("1", "1");
    q.limit = Some(10);
    q.offset = Some(25);
    let (search, _) = respond_tv_search(&q, 100, true);
    let (_, action) = search.step(SearchEvent::Mapping(Ok(Some(9))));
    assert!(matches!(action, SearchAction::Search { anilist_id: 9, limit: 35 }));
    q.offset = Some(95);
    let (search, _) = respond_tv_search(&q, 100, true);
    let (_, action) = search.step(SearchEvent::Mapping(Ok(Some(9))));
    assert!(matches!(action, SearchAction::Search { anilist_id: 9, limit: 100 }));
}

#[test]
fn offset_beyond_the_served_candidates_keeps_the_total() {
    let mut q = tv_query("1", "1");
    q.offset = Some(5);
    q.limit = Some(2);
    let (search, _) = respond_tv_search(&q, 100, true);
    let (search, _) = search.step(SearchEvent::Mapping(Ok(Some(9))));
    let collected = vec![torrent("a", 2, Some(9)), torrent("b", 1, Some(9)), torrent("c", 3, Some(9))];
    let (search, _) = search.step(SearchEvent::Torrents(Ok(collected)));
    let (search, _) = search.step(SearchEvent::Media(Ok(formats(&[(9, MediaFormat::Tv)]))));
    let (_, action) = search.step(SearchEvent::SeriesTitle(Ok("T".to_string())));
    let page = page_of(action);
    assert!(page.items.is_empty());
    assert_eq!(page.total, 2);
    assert_eq!(page.offset, 5);
}

#[test]
fn pages_are_cut_out_of_the_served_candidates() {
    let run = |offset: usize, limit: usize| -> Vec<String> {
        let mut q = query();
        q.tmdb_id = Some("7".to_string());
        q.offset = Some(offset);
        q.limit = Some(limit);
        let (search, _) = respond_movie_search(&q, 100, true);
        let (search, _) = search.step(SearchEvent::Mapping(Ok(Some(9))));
        let collected = (0..5).map(|i| torrent(&format!("m{i}"), 1, Some(9))).collect();
        let (search, _) = search.step(SearchEvent::Torrents(Ok(collected)));
        let (search, _) = search.step(SearchEvent::Media(Ok(formats(&[(9, MediaFormat::Movie)]))));
        let name = MovieName { title: "M".to_string(), year: 2001 };
        let page = page_of(search.step(SearchEvent::MovieName(Ok(name))).1);
        assert_eq!(page.total, 5);
        assert_eq!(page.offset, offset);
        page.items.iter().map(|item| item.guid.clone()).collect()
    };
    assert_eq!(run(0, 2), vec!["m0", "m1"]);
    assert_eq!(run(1, 3), vec!["m1", "m2", "m3"]);
    assert_eq!(run(3, 10), vec!["m3", "m4"]);
    assert_eq!(run(4, 1), vec!["m4"]);
    assert_eq!(run(5, 1), Vec::<String>::new());
    assert_eq!(run(0, 0), vec!["m0"]);
    assert_eq!(run(usize::MAX, usize::MAX), Vec::<String>::new());
}

#[test]
fn movie_search_end_to_end() {
    let mut q = query();
    q.tmdb_id = Some(" 77 ".to_string());
    let (search, action) = respond_movie_search(&q, 50, true);
    assert!(matches!(action, SearchAction::AnilistForTmdb { tmdb_id: 77 }));
    let (search, action) = search.step(SearchEvent::Mapping(Ok(Some(3))));
    assert!(matches!(action, SearchAction::Search { anilist_id: 3, limit: 50 }));
    let (search, action) = search.step(SearchEvent::Torrents(Ok(vec![torrent("only", 1, Some(3))])));
    assert!(matches!(action, SearchAction::Classify(ref ids) if ids == &vec![3]));
    let (search, action) = search.step(SearchEvent::Media(Ok(formats(&[(3, MediaFormat::Movie)]))));
    assert!(matches!(action, SearchAction::MovieName { tmdb_id: 77 }));
    let name = MovieName { title: "Akira".to_string(), year: 1988 };
    let page = page_of(search.step(SearchEvent::MovieName(Ok(name))).1);
    assert_eq!(page.total, 1);
    assert_eq!(titles(&page), vec![("only".to_string(), "Akira (1988) Bluray 1080p remux".to_string())]);
    assert_eq!(page.items[0].categories, vec![2000]);
}

#[test]
fn movie_search_absorbs_what_is_not_found() {
    assert_empty(respond_movie_search(&query(), 50, true).1, 0);
    let mut q = query();
    q.tmdb_id = Some("77".to_string());
    assert_empty(respond_movie_search(&q, 50, false).1, 0);
    let start = || respond_movie_search(&q, 50, true).0;
    assert_empty(start().step(SearchEvent::Mapping(Ok(None))).1, 0);
    let (search, _) = start().step(SearchEvent::Mapping(Ok(Some(3))));
    let (search, _) = search.step(SearchEvent::Torrents(Ok(vec![torrent("a", 1, Some(3))])));
    assert_empty(search.step(SearchEvent::Media(Ok(formats(&[(3, MediaFormat::Tv)])))).1, 0);
    let (search, _) = start().step(SearchEvent::Mapping(Ok(Some(3))));
    let (search, _) = search.step(SearchEvent::Torrents(Ok(vec![torrent("a", 1, Some(3))])));
    let (search, _) = search.step(SearchEvent::Media(Ok(formats(&[(3, MediaFormat::Movie)]))));
    assert_empty(search.step(SearchEvent::MovieName(Err(RadarrError::NotFound { tmdb_id: 77 }))).1, 0);
    let (search, _) = start().step(SearchEvent::Mapping(Ok(Some(3))));
    let (search, _) = search.step(SearchEvent::Torrents(Ok(vec![torrent("a", 1, Some(3))])));
    let (search, _) = search.step(SearchEvent::Media(Ok(formats(&[(3, MediaFormat::Movie)]))));
    let (_, action) = search.step(SearchEvent::MovieName(Err(RadarrError::Http)));
    assert!(matches!(action, SearchAction::Fail(HttpError::Radarr(RadarrError::Http))));
    let (search, _) = start().step(SearchEvent::Mapping(Ok(Some(3))));
    let (search, _) = search.step(SearchEvent::Torrents(Ok(vec![torrent("a", 1, Some(3))])));
    let (search, _) = search.step(SearchEvent::Media(Ok(formats(&[(3, MediaFormat::Movie)]))));
    let (_, action) = search.step(SearchEvent::SeriesTitle(Ok("x".to_string())));
    assert!(matches!(action, SearchAction::Fail(HttpError::OutOfTurn)));
}

#[test]
fn generic_search_lists_a_movie_resolved_by_reverse_lookup() {
    let (search, action) = respond_generic_search(&query(), 100, true, true);
    assert!(matches!(action, SearchAction::Recent { limit: 100 }));
    assert_eq!(search.phase(), BrowsePhase::Torrents);
    let (search, action) = search.step(SearchEvent::Torrents(Ok(vec![torrent("lonely", 1, None)])));
    assert!(matches!(action, SearchAction::Identities(ref ids) if ids == &vec!["lonely".to_string()]));
    let mut resolved = ResolvedIds::new();
    resolved.insert("lonely".to_string(), 777);
    let (search, action) = search.step(SearchEvent::Identities(Ok(resolved)));
    assert!(matches!(action, SearchAction::Classify(ref ids) if ids == &vec![777]));
    let (search, action) = search.step(SearchEvent::Media(Ok(formats(&[(777, MediaFormat::Movie)]))));
    assert!(matches!(action, SearchAction::TmdbId { anilist_id: 777 }));
    let (search, action) = search.step(SearchEvent::TmdbId(Ok(Some(42))));
    assert!(matches!(action, SearchAction::MovieName { tmdb_id: 42 }));
    let name = MovieName { title: "Paprika".to_string(), year: 2006 };
    let (search, action) = search.step(SearchEvent::MovieName(Ok(name)));
    assert_eq!(search.phase(), BrowsePhase::Finished);
    match action {
        SearchAction::RespondAndRetain { page, tvdb_ids, tmdb_ids } => {
            assert_eq!(page.total, 1);
            assert_eq!(page.offset, 0);
            assert_eq!(
                titles(&page),
                vec![("lonely".to_string(), "Paprika (2006) Bluray 1080p remux".to_string())]
            );
            assert_eq!(page.items[0].categories, vec![2000]);
            assert!(tvdb_ids.is_empty());
            assert_eq!(tmdb_ids, [42].into_iter().collect::<HashSet<i64>>());
        }
        other => panic!("expected a page, got {other:?}"),
    }
}

#[test]
fn generic_search_titles_each_candidate_and_resolves_each_title_once() {
    let (search, _) = respond_generic_search(&query(), 100, true, true);
    let candidates = vec![
        torrent("tv-pack", 3, Some(1)),
        torrent("tv-single", 1, Some(1)),
        torrent("ova", 5, Some(2)),
        torrent("movie-a", 1, Some(3)),
        torrent("unknown", 9, Some(4)),
        torrent("tv-pack-2", 2, Some(1)),
        torrent("movie-b", 4, Some(3)),
        torrent("tv-unmapped", 2, Some(5)),
        torrent("movie-unmapped", 1, Some(6)),
        torrent("movie-untitled", 1, Some(7)),
        torrent("tv-seasonless", 2, Some(8)),
    ];
    let (search, action) = search.step(SearchEvent::Torrents(Ok(candidates)));
    assert!(
        matches!(action, SearchAction::Classify(ref ids) if ids == &vec![1, 1, 2, 3, 4, 1, 3, 5, 6, 7, 8])
    );
    let media = formats(&[
        (1, MediaFormat::Tv),
        (2, MediaFormat::Ova),
        (3, MediaFormat::Movie),
        (5, MediaFormat::Ona),
        (6, MediaFormat::Movie),
        (7, MediaFormat::Movie),
        (8, MediaFormat::TvShort),
    ]);
    let (search, action) = search.step(SearchEvent::Media(Ok(media)));
    assert!(matches!(action, SearchAction::TvdbMappings { anilist_id: 1 }));
    let mapped = || {
        vec![
            TvdbMapping { tvdb_id: 10, seasons: vec!["s2".to_string()] },
            TvdbMapping { tvdb_id: 11, seasons: vec!["s1".to_string(), "s3".to_string()] },
        ]
    };
    let (search, action) = search.step(SearchEvent::TvdbMappings(Ok(mapped())));
    assert!(matches!(action, SearchAction::SeriesTitle { tvdb_id: 11 }));
    let (search, action) = search.step(SearchEvent::SeriesTitle(Ok("Show".to_string())));
    assert!(matches!(action, SearchAction::TmdbId { anilist_id: 3 }));
    let (search, action) = search.step(SearchEvent::TmdbId(Ok(Some(30))));
    assert!(matches!(action, SearchAction::MovieName { tmdb_id: 30 }));
    let name = MovieName { title: "Film".to_string(), year: 0 };
    let (search, action) = search.step(SearchEvent::MovieName(Ok(name)));
    assert!(matches!(action, SearchAction::TvdbMappings { anilist_id: 1 }));
    let (search, action) = search.step(SearchEvent::TvdbMappings(Ok(mapped())));
    assert!(matches!(action, SearchAction::TmdbId { anilist_id: 3 }));
    let (search, action) = search.step(SearchEvent::TmdbId(Ok(Some(30))));
    assert!(matches!(action, SearchAction::TvdbMappings { anilist_id: 5 }));
    let (search, action) = search.step(SearchEvent::TvdbMappings(Ok(Vec::new())));
    assert!(matches!(action, SearchAction::TmdbId { anilist_id: 6 }));
    let (search, action) = search.step(SearchEvent::TmdbId(Ok(None)));
    assert!(matches!(action, SearchAction::TmdbId { anilist_id: 7 }));
    let (search, action) = search.step(SearchEvent::TmdbId(Ok(Some(70))));
    assert!(matches!(action, SearchAction::MovieName { tmdb_id: 70 }));
    let (search, action) =
        search.step(SearchEvent::MovieName(Err(RadarrError::NotFound { tmdb_id: 70 })));
    assert!(matches!(action, SearchAction::TvdbMappings { anilist_id: 8 }));
    let seasonless = vec![TvdbMapping { tvdb_id: 80, seasons: vec!["specials".to_string()] }];
    let (_, action) = search.step(SearchEvent::TvdbMappings(Ok(seasonless)));
    match action {
        SearchAction::RespondAndRetain { page, tvdb_ids, tmdb_ids } => {
            assert_eq!(page.total, 8);
            assert_eq!(
                titles(&page),
                vec![
                    ("tv-pack".to_string(), "Show S01 Bluray 1080p remux".to_string()),
                    ("movie-a".to_string(), "Film Bluray 1080p remux".to_string()),
                    ("tv-pack-2".to_string(), "Show S01 Bluray 1080p remux".to_string()),
                    ("movie-b".to_string(), "Film Bluray 1080p remux".to_string()),
                    ("tv-unmapped".to_string(), "Torrent tv-unmapped".to_string()),
                    ("movie-unmapped".to_string(), "Torrent movie-unmapped".to_string()),
                    ("movie-untitled".to_string(), "Torrent movie-untitled".to_string()),
                    ("tv-seasonless".to_string(), "Torrent tv-seasonless".to_string()),
                ]
            );
            let kinds: Vec<Vec<u32>> = page.items.iter().map(|i| i.categories.clone()).collect();
            assert_eq!(kinds[0], vec![5000, 5070]);
            assert_eq!(kinds[1], vec![2000]);
            assert_eq!(kinds[4], vec![5000, 5070]);
            assert_eq!(kinds[5], vec![2000]);
            assert_eq!(tvdb_ids, [11].into_iter().collect::<HashSet<i64>>());
            assert_eq!(tmdb_ids, [30].into_iter().collect::<HashSet<i64>>());
        }
        other => panic!("expected a page, got {other:?}"),
    }
}

#[test]
fn generic_search_leaves_out_what_has_no_resolver() {
    let candidates =
        || vec![torrent("tv", 2, Some(1)), torrent("movie", 1, Some(2)), torrent("tv2", 2, Some(1))];
    let media = || formats(&[(1, MediaFormat::Tv), (2, MediaFormat::Movie)]);
    let (search, _) = respond_generic_search(&query(), 100, false, true);
    let (search, _) = search.step(SearchEvent::Torrents(Ok(candidates())));
    let (search, action) = search.step(SearchEvent::Media(Ok(media())));
    assert!(matches!(action, SearchAction::TmdbId { anilist_id: 2 }));
    let (_, action) = search.step(SearchEvent::TmdbId(Ok(None)));
    let page = page_of(action);
    assert_eq!(page.total, 3);
    assert_eq!(titles(&page), vec![("movie".to_string(), "Torrent movie".to_string())]);

    let (search, _) = respond_generic_search(&query(), 100, false, false);
    let (search, _) = search.step(SearchEvent::Torrents(Ok(candidates())));
    let (_, action) = search.step(SearchEvent::Media(Ok(media())));
    match action {
        SearchAction::RespondAndRetain { page, tvdb_ids, tmdb_ids } => {
            assert!(page.items.is_empty());
            assert_eq!(page.total, 3);
            assert!(tvdb_ids.is_empty());
            assert!(tmdb_ids.is_empty());
        }
        other => panic!("expected a page, got {other:?}"),
    }
}

#[test]
fn generic_search_beyond_the_end_keeps_the_total() {
    let mut q = query();
    q.offset = Some(10);
    let (search, _) = respond_generic_search(&q, 100, true, true);
    let candidates = vec![torrent("a", 2, Some(1)), torrent("b", 1, Some(1)), torrent("c", 1, Some(2))];
    let (search, _) = search.step(SearchEvent::Torrents(Ok(candidates)));
    let media = formats(&[(1, MediaFormat::Tv), (2, MediaFormat::Movie)]);
    let (search, action) = search.step(SearchEvent::Media(Ok(media)));
    assert_eq!(search.phase(), BrowsePhase::Finished);
    match action {
        SearchAction::Respond(page) => {
            assert!(page.items.is_empty());
            assert_eq!(page.total, 2);
            assert_eq!(page.offset, 10);
        }
        other => panic!("expected a page, got {other:?}"),
    }
}

#[test]
fn generic_search_lists_the_window_of_the_eligible_candidates_in_order() {
    let mut q = query();
    q.offset = Some(1);
    q.limit = Some(2);
    let (search, action) = respond_generic_search(&q, 100, true, true);
    assert!(matches!(action, SearchAction::Recent { .. }));
    let candidates = vec![
        torrent("p1", 2, Some(1)),
        torrent("single", 1, Some(1)),
        torrent("p2", 3, Some(1)),
        torrent("p3", 2, Some(1)),
        torrent("empty", 0, Some(1)),
        torrent("p4", 4, Some(1)),
        torrent("p5", 2, Some(1)),
    ];
    let (search, _) = search.step(SearchEvent::Torrents(Ok(candidates)));
    let (search, action) = search.step(SearchEvent::Media(Ok(formats(&[(1, MediaFormat::Tv)]))));
    assert!(matches!(action, SearchAction::TvdbMappings { anilist_id: 1 }));
    let mapped = || vec![TvdbMapping { tvdb_id: 10, seasons: vec!["s1".to_string()] }];
    let (search, action) = search.step(SearchEvent::TvdbMappings(Ok(mapped())));
    assert!(matches!(action, SearchAction::SeriesTitle { tvdb_id: 10 }));
    let (search, action) = search.step(SearchEvent::SeriesTitle(Ok("Show".to_string())));
    assert!(matches!(action, SearchAction::TvdbMappings { anilist_id: 1 }));
    let (search, action) = search.step(SearchEvent::TvdbMappings(Ok(mapped())));
    assert_eq!(search.phase(), BrowsePhase::Finished);
    let page = page_of(action);
    let guids: Vec<&str> = page.items.iter().map(|item| item.guid.as_str()).collect();
    assert_eq!(guids, vec!["p2", "p3"]);
    assert_eq!(page.total, 5);
    assert_eq!(page.offset, 1);
}

#[test]
fn generic_search_keeps_the_titles_of_seasons_and_series_apart() {
    let (search, _) = respond_generic_search(&query(), 100, true, true);
    let candidates = vec![
        torrent("a", 2, Some(1)),
        torrent("b", 2, Some(2)),
        torrent("c", 2, Some(3)),
        torrent("d", 2, Some(2)),
    ];
    let (search, _) = search.step(SearchEvent::Torrents(Ok(candidates)));
    let media =
        formats(&[(1, MediaFormat::Tv), (2, MediaFormat::Tv), (3, MediaFormat::Tv)]);
    let (mut search, mut action) = search.step(SearchEvent::Media(Ok(media)));
    let mut asked = Vec::new();
    let page = loop {
        let event = match action {
            SearchAction::TvdbMappings { anilist_id } => {
                let (tvdb_id, season) = match anilist_id {
                    1 => (10, "s1"),
                    2 => (10, "s2"),
                    _ => (-10, "s1"),
                };
                let mapping = TvdbMapping { tvdb_id, seasons: vec![season.to_string()] };
                SearchEvent::TvdbMappings(Ok(vec![mapping]))
            }
            SearchAction::SeriesTitle { tvdb_id } => {
                asked.push(tvdb_id);
                SearchEvent::SeriesTitle(Ok(format!("Show {tvdb_id}")))
            }
            other => break page_of(other),
        };
        let next = search.step(event);
        search = next.0;
        action = next.1;
    };
    assert_eq!(asked, vec![10, 10, -10]);
    assert_eq!(
        titles(&page),
        vec![
            ("a".to_string(), "Show 10 S01 Bluray 1080p remux".to_string()),
            ("b".to_string(), "Show 10 S02 Bluray 1080p remux".to_string()),
            ("c".to_string(), "Show -10 S01 Bluray 1080p remux".to_string()),
            ("d".to_string(), "Show 10 S02 Bluray 1080p remux".to_string()),
        ]
    );
}

#[test]
fn generic_search_ends_empty_for_text_queries_and_foreign_categories() {
    let mut q = query();
    q.query = Some("naruto".to_string());
    q.offset = Some(3);
    assert_empty(respond_generic_search(&q, 100, true, true).1, 3);
    let mut q = query();
    q.cat = Some("1000".to_string());
    assert_empty(respond_generic_search(&q, 100, true, true).1, 0);
    let mut q = query();
    q.cat = Some("1000,5070".to_string());
    assert!(matches!(
        respond_generic_search(&q, 30, true, true).1,
        SearchAction::Recent { limit: 30 }
    ));
    let (search, _) = respond_generic_search(&query(), 100, true, true);
    assert_empty(search.step(SearchEvent::Torrents(Ok(Vec::new()))).1, 0);
}

#[test]
fn generic_search_drops_candidates_that_stay_unidentified() {
    let (search, _) = respond_generic_search(&query(), 100, true, true);
    let candidates = vec![torrent("known", 1, Some(2)), torrent("lost", 1, None), torrent("found", 1, None)];
    let (search, action) = search.step(SearchEvent::Torrents(Ok(candidates)));
    assert!(
        matches!(action, SearchAction::Identities(ref ids) if ids == &vec!["lost".to_string(), "found".to_string()])
    );
    let mut resolved = ResolvedIds::new();
    resolved.insert("found".to_string(), 2);
    resolved.insert("known".to_string(), 99);
    let (search, action) = search.step(SearchEvent::Identities(Ok(resolved)));
    assert!(matches!(action, SearchAction::Classify(ref ids) if ids == &vec![2, 2]));
    let (search, _) = search.step(SearchEvent::Media(Ok(formats(&[(2, MediaFormat::Movie)]))));
    let (search, _) = search.step(SearchEvent::TmdbId(Ok(None)));
    let (_, action) = search.step(SearchEvent::TmdbId(Ok(None)));
    let page = page_of(action);
    assert_eq!(page.total, 2);
    assert_eq!(
        titles(&page),
        vec![
            ("known".to_string(), "Torrent known".to_string()),
            ("found".to_string(), "Torrent found".to_string()),
        ]
    );
}

#[test]
fn generic_search_passes_failures_on() {
    let start = || respond_generic_search(&query(), 100, true, true).0;
    let (_, action) = start().step(SearchEvent::Torrents(Err(ReleasesError::Http)));
    assert!(matches!(action, SearchAction::Fail(HttpError::Releases(ReleasesError::Http))));
    let (search, _) = start().step(SearchEvent::Torrents(Ok(vec![torrent("a", 1, None)])));
    let (_, action) = search.step(SearchEvent::Identities(Err(ReleasesError::Url)));
    assert!(matches!(action, SearchAction::Fail(HttpError::Releases(ReleasesError::Url))));
    let (search, _) = start().step(SearchEvent::Torrents(Ok(vec![torrent("a", 2, Some(1))])));
    let (_, action) = search.step(SearchEvent::Media(Err(AniListError::MissingData)));
    assert!(matches!(action, SearchAction::Fail(HttpError::AniList(AniListError::MissingData))));
    let to_mappings = || {
        let (search, _) = start().step(SearchEvent::Torrents(Ok(vec![torrent("a", 2, Some(1))])));
        search.step(SearchEvent::Media(Ok(formats(&[(1, MediaFormat::Tv)])))).0
    };
    let (_, action) = to_mappings().step(SearchEvent::TvdbMappings(Err(MappingError::Download)));
    assert!(matches!(action, SearchAction::Fail(HttpError::Mapping(MappingError::Download))));
    let mapped = vec![TvdbMapping { tvdb_id: 10, seasons: vec!["s1".to_string()] }];
    let (search, _) = to_mappings().step(SearchEvent::TvdbMappings(Ok(mapped.clone())));
    let (_, action) = search.step(SearchEvent::SeriesTitle(Err(SonarrError::CacheWrite)));
    assert!(matches!(action, SearchAction::Fail(HttpError::Sonarr(SonarrError::CacheWrite))));
    let (search, _) = to_mappings().step(SearchEvent::TvdbMappings(Ok(mapped)));
    let (_, action) = search.step(SearchEvent::SeriesTitle(Err(SonarrError::NotFound { tvdb_id: 10 })));
    match action {
        SearchAction::RespondAndRetain { page, tvdb_ids, .. } => {
            assert_eq!(titles(&page), vec![("a".to_string(), "Torrent a".to_string())]);
            assert_eq!(tvdb_ids, [10].into_iter().collect::<HashSet<i64>>());
        }
        other => panic!("expected a page, got {other:?}"),
    }
    let (_, action) = to_mappings().step(SearchEvent::TmdbId(Ok(None)));
    assert!(matches!(action, SearchAction::Fail(HttpError::OutOfTurn)));
}

#[test]
fn failures_are_answered_with_their_status() {
    assert_eq!(HttpError::UnsupportedOperation("x".to_string()).status(), 400);
    assert_eq!(HttpError::BaseUrl("x".to_string()).status(), 500);
    assert_eq!(HttpError::Mapping(MappingError::Download).status(), 502);
    assert_eq!(HttpError::Releases(ReleasesError::Url).status(), 500);
    assert_eq!(HttpError::Releases(ReleasesError::Http).status(), 502);
    assert_eq!(HttpError::Releases(ReleasesError::Deserialisation).status(), 502);
    assert_eq!(HttpError::Torznab(TorznabBuildError::Xml).status(), 500);
    assert_eq!(HttpError::AniList(AniListError::MissingData).status(), 502);
    assert_eq!(HttpError::Sonarr(SonarrError::Url).status(), 500);
    assert_eq!(HttpError::Sonarr(SonarrError::NotFound { tvdb_id: 1 }).status(), 502);
    assert_eq!(HttpError::Radarr(RadarrError::Url).status(), 500);
    assert_eq!(HttpError::Radarr(RadarrError::Http).status(), 502);
}

#[test]
fn requests_are_dispatched_by_operation() {
    let mut q = query();
    q.operation = Some("caps".to_string());
    assert!(matches!(torznab_handler(&q, 100, true, true), Dispatch::Caps));
    q.operation = Some("search".to_string());
    assert!(matches!(
        torznab_handler(&q, 100, true, true),
        Dispatch::Generic(_, SearchAction::Recent { limit: 100 })
    ));
    let mut tv = tv_query("100", "2");
    assert!(matches!(
        torznab_handler(&tv, 100, true, true),
        Dispatch::Target(_, SearchAction::AnilistForSeason { tvdb_id: 100, season: 2 })
    ));
    tv.operation = Some("tv-search".to_string());
    assert!(matches!(
        torznab_handler(&tv, 100, false, true),
        Dispatch::Target(_, SearchAction::Respond(_))
    ));
    let mut movie = query();
    movie.operation = Some("movie".to_string());
    movie.tmdb_id = Some("5".to_string());
    assert!(matches!(
        torznab_handler(&movie, 100, true, true),
        Dispatch::Target(_, SearchAction::AnilistForTmdb { tmdb_id: 5 })
    ));
    q.operation = Some("rss".to_string());
    match torznab_handler(&q, 100, true, true) {
        Dispatch::Fail(HttpError::UnsupportedOperation(name)) => assert_eq!(name, "rss"),
        other => panic!("expected a failure, got {other:?}"),
    }
}

#[test]
fn servable_requests_name_what_their_operation_needs() {
    let mut q = query();
    assert!(!request_is_servable(&q));
    assert!(request_is_servable(&tv_query("1", "2")));
    assert!(!request_is_servable(&tv_query("1", "")));
    q.operation = Some("caps".to_string());
    assert!(request_is_servable(&q));
    q.operation = Some("search".to_string());
    assert!(request_is_servable(&q));
    q.cat = Some("1".to_string());
    assert!(!request_is_servable(&q));
    q.cat = Some("5000".to_string());
    q.query = Some("x".to_string());
    assert!(!request_is_servable(&q));
    q.operation = Some("moviesearch".to_string());
    assert!(!request_is_servable(&q));
    q.tmdb_id = Some("7".to_string());
    assert!(request_is_servable(&q));
    q.operation = Some("other".to_string());
    assert!(!request_is_servable(&q));
}

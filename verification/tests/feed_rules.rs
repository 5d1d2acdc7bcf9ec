use seadexerr::feed::{
    build_torznab_item, default_torrent_title, effective_limit, fetch_limit,
    format_movie_feed_title, format_series_feed_title, movie_category_ids, select_tvdb_and_season,
    tv_category_ids,
};
use seadexerr::mapping::TvdbMapping;
use seadexerr::query::{
    category_filter_matches, split_at_commas, TorznabOperation, TorznabQuery,
};
use seadexerr::releases::{Moment, Torrent, TorrentFile};
use seadexerr::torznab::{
    anime_category, default_categories, movie_category, ANIME_CATEGORY_ID, ANIME_SUBCATEGORY_ID,
    MOVIE_CATEGORY_ID,
};

fn query() -> TorznabQuery {
    TorznabQuery {
        operation: None,
        cat: None,
        limit: None,
        offset: None,
        imdbid: None,
        season: None,
        tvdb_id: None,
        tmdb_id: None,
        query: None,
    }
}

fn mapping(tvdb_id: i64, seasons: &[&str]) -> TvdbMapping {
    TvdbMapping { tvdb_id, seasons: seasons.iter().map(|s| s.to_string()).collect() }
}

fn cat(filter: &str) -> Option<String> {
    Some(filter.to_string())
}

#[test]
fn default_categories_are_series_then_movies() {
    let categories = default_categories();
    assert_eq!(categories.len(), 2);
    assert_eq!(categories[0].id, 5000);
    assert_eq!(categories[0].name, "TV");
    assert_eq!(categories[0].subcategories.len(), 1);
    assert_eq!(categories[0].subcategories[0].id, 5070);
    assert_eq!(categories[0].subcategories[0].name, "TV/Anime");
    assert_eq!(categories[1].id, 2000);
    assert_eq!(categories[1].name, "Movies");
    assert!(categories[1].subcategories.is_empty());
    assert_eq!(anime_category().id, ANIME_CATEGORY_ID);
    assert_eq!(anime_category().subcategories[0].id, ANIME_SUBCATEGORY_ID);
    assert_eq!(movie_category().id, MOVIE_CATEGORY_ID);
}

#[test]
fn category_ids_by_kind() {
    assert_eq!(tv_category_ids(), vec![5000, 5070]);
    assert_eq!(movie_category_ids(), vec![2000]);
}

#[test]
fn limit_is_clamped_between_one_and_default() {
    assert_eq!(effective_limit(None, 100), 100);
    assert_eq!(effective_limit(Some(10), 100), 10);
    assert_eq!(effective_limit(Some(0), 100), 1);
    assert_eq!(effective_limit(Some(100), 100), 100);
    assert_eq!(effective_limit(Some(1000), 100), 100);
    assert_eq!(effective_limit(Some(usize::MAX), 7), 7);
    assert_eq!(effective_limit(Some(5), 0), 0);
    assert_eq!(effective_limit(None, 0), 0);
}

#[test]
fn fetch_limit_covers_the_page_within_the_default() {
    assert_eq!(fetch_limit(0, 10, 100), 10);
    assert_eq!(fetch_limit(30, 10, 100), 40);
    assert_eq!(fetch_limit(95, 10, 100), 100);
    assert_eq!(fetch_limit(usize::MAX, 10, 100), 100);
    assert_eq!(fetch_limit(usize::MAX, usize::MAX, usize::MAX), usize::MAX);
}

#[test]
fn titles_are_formatted() {
    assert_eq!(format_series_feed_title("Frieren", 1), "Frieren S01 Bluray 1080p remux");
    assert_eq!(format_series_feed_title("Frieren", 0), "Frieren S00 Bluray 1080p remux");
    assert_eq!(format_series_feed_title("Long", 12), "Long S12 Bluray 1080p remux");
    assert_eq!(format_series_feed_title("Long", 123), "Long S123 Bluray 1080p remux");
    assert_eq!(format_series_feed_title("", 9), " S09 Bluray 1080p remux");
    assert_eq!(format_movie_feed_title("Akira", 1988), "Akira (1988) Bluray 1080p remux");
    assert_eq!(format_movie_feed_title("Akira", 0), "Akira Bluray 1080p remux");
    assert_eq!(format_movie_feed_title("Akira", 7), "Akira (7) Bluray 1080p remux");
    assert_eq!(default_torrent_title("abc123"), "Torrent abc123");
    assert_eq!(default_torrent_title(""), "Torrent ");
}

#[test]
fn operation_defaults_to_series_search() {
    let mut q = query();
    assert!(matches!(q.operation(), TorznabOperation::TvSearch));
    for (name, expected) in [
        ("caps", "caps"),
        ("search", "search"),
        ("tvsearch", "tv"),
        ("tv-search", "tv"),
        ("movie", "movie"),
        ("movie-search", "movie"),
        ("moviesearch", "movie"),
    ] {
        q.operation = Some(name.to_string());
        let found = match q.operation() {
            TorznabOperation::Caps => "caps",
            TorznabOperation::Search => "search",
            TorznabOperation::TvSearch => "tv",
            TorznabOperation::MovieSearch => "movie",
            TorznabOperation::Unsupported(_) => "unsupported",
        };
        assert_eq!(found, expected, "operation {name}");
    }
    q.operation = Some("TvSearch".to_string());
    assert!(matches!(q.operation(), TorznabOperation::Unsupported("TvSearch")));
    q.operation = Some(String::new());
    assert!(matches!(q.operation(), TorznabOperation::Unsupported("")));
}

#[test]
fn identifiers_are_read_after_trimming() {
    let mut q = query();
    assert_eq!(q.tvdb_identifier(), None);
    assert_eq!(q.tmdb_identifier(), None);
    assert_eq!(q.season_number(), None);
    q.tvdb_id = Some(" 100 ".to_string());
    q.tmdb_id = Some("-5".to_string());
    q.season = Some("02".to_string());
    assert_eq!(q.tvdb_identifier(), Some(100));
    assert_eq!(q.tmdb_identifier(), Some(-5));
    assert_eq!(q.season_number(), Some(2));
    q.tvdb_id = Some("1x".to_string());
    q.tmdb_id = Some(String::new());
    q.season = Some("-1".to_string());
    assert_eq!(q.tvdb_identifier(), None);
    assert_eq!(q.tmdb_identifier(), None);
    assert_eq!(q.season_number(), None);
}

#[test]
fn lists_are_split_at_commas() {
    let split = |s: &str| -> Vec<String> {
        split_at_commas(&s.chars().collect())
            .into_iter()
            .map(|field| field.into_iter().collect())
            .collect()
    };
    assert_eq!(split(""), vec![""]);
    assert_eq!(split("a"), vec!["a"]);
    assert_eq!(split("a,b"), vec!["a", "b"]);
    assert_eq!(split(",a,,b,"), vec!["", "a", "", "b", ""]);
    for sample in ["", ",", "5000, 2000", "a,,b", ",,,"] {
        let expected: Vec<String> = sample.split(',').map(|s| s.to_string()).collect();
        assert_eq!(split(sample), expected);
    }
}

#[test]
fn category_filter_accepts_supported_ids() {
    assert!(category_filter_matches(&None));
    assert!(category_filter_matches(&cat("")));
    assert!(category_filter_matches(&cat(" , ,")));
    assert!(category_filter_matches(&cat("5000")));
    assert!(category_filter_matches(&cat("5070")));
    assert!(category_filter_matches(&cat("2000")));
    assert!(category_filter_matches(&cat("1000, 5070 ,3000")));
    assert!(category_filter_matches(&cat("+2000")));
    assert!(category_filter_matches(&cat("0")));
    assert!(category_filter_matches(&cat("1000,0")));
    assert!(category_filter_matches(&cat("junk, 0 ")));
}

#[test]
fn category_filter_rejects_other_ids() {
    assert!(!category_filter_matches(&cat("1000")));
    assert!(!category_filter_matches(&cat("5001,2001")));
    assert!(!category_filter_matches(&cat("junk")));
    assert!(!category_filter_matches(&cat("00")));
    assert!(!category_filter_matches(&cat("+0")));
    assert!(!category_filter_matches(&cat("-5000")));
    assert!(!category_filter_matches(&cat("5000;2000")));
    assert!(!category_filter_matches(&cat("50 00")));
}

#[test]
fn display_mapping_has_the_earliest_season() {
    assert_eq!(select_tvdb_and_season(&[]), None);
    assert_eq!(select_tvdb_and_season(&[mapping(1, &[]), mapping(2, &["x"])]), None);
    assert_eq!(
        select_tvdb_and_season(&[mapping(1, &["s3", "s2"]), mapping(2, &["s1"]), mapping(3, &["s1"])]),
        Some((2, 1))
    );
    assert_eq!(
        select_tvdb_and_season(&[mapping(1, &["junk"]), mapping(2, &["s5"]), mapping(3, &["s0"])]),
        Some((3, 0))
    );
    assert_eq!(
        select_tvdb_and_season(&[mapping(9, &["s2"]), mapping(8, &["s2", "s4"])]),
        Some((9, 2))
    );
}

#[test]
fn item_lists_a_candidate() {
    let torrent = Torrent {
        id: "t1".to_string(),
        download_url: "https://nyaa.si/download/1.torrent".to_string(),
        source_url: "https://nyaa.si/view/1".to_string(),
        info_hash: Some("hash".to_string()),
        published: Some(Moment { unix_nanos: 5, offset_seconds: 0 }),
        files: vec![TorrentFile { length: 1, name: "a".to_string() }],
        size_bytes: 1234,
        is_best: true,
        anilist_id: Some(1),
    };
    let item = build_torznab_item(torrent.clone(), "Title".to_string(), vec![5000, 5070]);
    assert_eq!(item.title, "Title");
    assert_eq!(item.guid, "t1");
    assert_eq!(item.link, "https://nyaa.si/download/1.torrent");
    assert_eq!(item.comments, Some("https://nyaa.si/view/1".to_string()));
    assert_eq!(item.published, Some(Moment { unix_nanos: 5, offset_seconds: 0 }));
    assert_eq!(item.size_bytes, 1234);
    assert_eq!(item.info_hash, Some("hash".to_string()));
    assert_eq!(item.seeders, 1000);
    assert_eq!(item.leechers, 0);
    assert_eq!(item.categories, vec![5000, 5070]);
    let mut other = torrent;
    other.is_best = false;
    other.source_url = String::new();
    let item = build_torznab_item(other, "T".to_string(), vec![2000]);
    assert_eq!(item.seeders, 100);
    assert_eq!(item.comments, None);
}

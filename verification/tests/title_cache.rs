use seadexerr::radarr::{
    MovieLookupEntry, MovieLookupOutcome, MovieResolution, RadarrClient, RadarrError,
};
use seadexerr::sonarr::{
    SeriesLookupEntry, SeriesLookupOutcome, SeriesResolution, SonarrClient, SonarrError,
};
use seadexerr::titles::{load_cache, CacheRead, TitleCache, TitleCacheError};
use std::collections::HashSet;

fn keep(ids: &[i64]) -> HashSet<i64> {
    ids.iter().copied().collect()
}

#[test]
fn a_new_cache_is_empty() {
    let cache = TitleCache::new();
    assert!(cache.is_empty());
    assert_eq!(cache.cached_title(1), None);
}

#[test]
fn stored_titles_are_found_again() {
    let mut cache = TitleCache::new();
    cache.store_title(7, "Seven");
    cache.store_title(8, "Eight");
    cache.store_title(7, "Sept");
    assert!(!cache.is_empty());
    assert_eq!(cache.cached_title(7), Some("Sept".to_string()));
    assert_eq!(cache.cached_title(8), Some("Eight".to_string()));
    assert_eq!(cache.cached_title(9), None);
}

#[test]
fn retain_drops_what_is_not_kept() {
    let mut cache = TitleCache::new();
    cache.store_title(1, "one");
    cache.store_title(2, "two");
    cache.store_title(3, "three");
    assert!(!cache.retain(&keep(&[1, 2, 3, 4])));
    assert!(cache.retain(&keep(&[2, 9])));
    assert_eq!(cache.cached_title(1), None);
    assert_eq!(cache.cached_title(2), Some("two".to_string()));
    assert_eq!(cache.cached_title(3), None);
    assert!(!cache.retain(&keep(&[2])));
}

#[test]
fn retain_nothing_clears_the_cache() {
    let mut cache = TitleCache::new();
    assert!(!cache.retain(&keep(&[])));
    cache.store_title(1, "one");
    assert!(cache.retain(&keep(&[])));
    assert!(cache.is_empty());
    assert!(!cache.retain(&keep(&[])));
}

#[test]
fn absent_and_empty_files_stand_for_the_empty_cache() {
    assert!(load_cache(&CacheRead::Missing).unwrap().is_empty());
    assert!(load_cache(&CacheRead::Contents(Vec::new())).unwrap().is_empty());
}

#[test]
fn a_file_is_read_as_a_table_of_titles() {
    let bytes = br#"{"12": "Twelve", "-3": "Minus three"}"#.to_vec();
    let cache = load_cache(&CacheRead::Contents(bytes)).unwrap();
    assert_eq!(cache.cached_title(12), Some("Twelve".to_string()));
    assert_eq!(cache.cached_title(-3), Some("Minus three".to_string()));
    assert_eq!(cache.cached_title(3), None);
}

#[test]
fn cache_load_failures_are_told_apart() {
    assert!(matches!(load_cache(&CacheRead::NoDirectory), Err(TitleCacheError::Dir)));
    assert!(matches!(load_cache(&CacheRead::Unreadable), Err(TitleCacheError::Read)));
    assert!(matches!(
        load_cache(&CacheRead::Contents(b"not json".to_vec())),
        Err(TitleCacheError::Parse(_))
    ));
    assert!(matches!(
        load_cache(&CacheRead::Contents(br#"{"x": "y"}"#.to_vec())),
        Err(TitleCacheError::Parse(_))
    ));
    assert!(matches!(
        load_cache(&CacheRead::Contents(br#"["a"]"#.to_vec())),
        Err(TitleCacheError::Parse(_))
    ));
}

#[test]
fn an_encoded_cache_loads_back() {
    let mut cache = TitleCache::new();
    cache.store_title(100, "A \"quoted\" title");
    cache.store_title(-1, "\u{e9}t\u{e9}");
    let bytes = cache.encode().unwrap();
    assert_ne!(bytes, Vec::<u8>::new());
    let again = load_cache(&CacheRead::Contents(bytes)).unwrap();
    assert_eq!(again.cached_title(100), Some("A \"quoted\" title".to_string()));
    assert_eq!(again.cached_title(-1), Some("\u{e9}t\u{e9}".to_string()));
}

#[test]
fn series_title_is_looked_up_once() {
    let mut client =
        SonarrClient::new("http://localhost:8989/".to_string(), &CacheRead::Missing).unwrap();
    let url = match client.resolve_name(100) {
        SeriesResolution::Lookup(url) => url,
        other => panic!("expected a lookup, got {other:?}"),
    };
    assert_eq!(url, "http://localhost:8989/api/v3/series/lookup?term=tvdb%3A100");
    let entries = vec![
        SeriesLookupEntry { title: None },
        SeriesLookupEntry { title: Some("Frieren".to_string()) },
        SeriesLookupEntry { title: Some("Other".to_string()) },
    ];
    let title = client.accept_lookup(100, &SeriesLookupOutcome::Entries(entries)).unwrap();
    assert_eq!(title, "Frieren");
    match client.resolve_name(100) {
        SeriesResolution::Cached(title) => assert_eq!(title, "Frieren"),
        other => panic!("expected a cached title, got {other:?}"),
    }
    assert!(client.retain_titles(&keep(&[])));
    assert!(matches!(client.resolve_name(100), SeriesResolution::Lookup(_)));
}

#[test]
fn series_lookup_failures_leave_the_cache_alone() {
    let mut client =
        SonarrClient::new("http://localhost:8989/".to_string(), &CacheRead::Missing).unwrap();
    assert!(matches!(
        client.accept_lookup(5, &SeriesLookupOutcome::Unreachable),
        Err(SonarrError::Http)
    ));
    assert!(matches!(
        client.accept_lookup(5, &SeriesLookupOutcome::Entries(Vec::new())),
        Err(SonarrError::NotFound { tvdb_id: 5 })
    ));
    assert!(matches!(
        client.accept_lookup(
            5,
            &SeriesLookupOutcome::Entries(vec![SeriesLookupEntry { title: None }])
        ),
        Err(SonarrError::NotFound { tvdb_id: 5 })
    ));
    assert!(client.cache().is_empty());
}

#[test]
fn series_resolver_needs_an_address() {
    let client = SonarrClient::new("not an address".to_string(), &CacheRead::Missing).unwrap();
    assert!(matches!(client.resolve_name(1), SeriesResolution::Failed(SonarrError::Url)));
}

#[test]
fn series_resolver_reports_cache_failures() {
    assert!(matches!(
        SonarrClient::new(String::new(), &CacheRead::NoDirectory),
        Err(SonarrError::CacheDir)
    ));
    assert!(matches!(
        SonarrClient::new(String::new(), &CacheRead::Unreadable),
        Err(SonarrError::CacheRead)
    ));
    assert!(matches!(
        SonarrClient::new(String::new(), &CacheRead::Contents(b"?".to_vec())),
        Err(SonarrError::CacheParse(_))
    ));
}

#[test]
fn movie_name_is_looked_up_once() {
    let cache = CacheRead::Contents(br#"{"7": "Cached"}"#.to_vec());
    let mut client = RadarrClient::new("http://localhost:7878/".to_string(), &cache).unwrap();
    match client.resolve_name(7) {
        MovieResolution::Cached(name) => {
            assert_eq!(name.title, "Cached");
            assert_eq!(name.year, 0);
        }
        other => panic!("expected a cached name, got {other:?}"),
    }
    let url = match client.resolve_name(-8) {
        MovieResolution::Lookup(url) => url,
        other => panic!("expected a lookup, got {other:?}"),
    };
    assert_eq!(url, "http://localhost:7878/api/v3/movie/lookup/tmdb?tmdbId=-8");
    let entry = MovieLookupEntry { title: Some("Akira".to_string()), year: 1988 };
    let name = client.accept_lookup(-8, &MovieLookupOutcome::Entry(entry)).unwrap();
    assert_eq!(name.title, "Akira");
    assert_eq!(name.year, 1988);
    assert!(matches!(client.resolve_name(-8), MovieResolution::Cached(_)));
    assert!(client.retain_titles(&keep(&[7])));
    assert!(matches!(client.resolve_name(-8), MovieResolution::Lookup(_)));
    assert!(matches!(client.resolve_name(7), MovieResolution::Cached(_)));
}

#[test]
fn movie_lookup_failures_leave_the_cache_alone() {
    let mut client =
        RadarrClient::new("http://localhost:7878/".to_string(), &CacheRead::Missing).unwrap();
    assert!(matches!(
        client.accept_lookup(5, &MovieLookupOutcome::Unreachable),
        Err(RadarrError::Http)
    ));
    let untitled = MovieLookupEntry { title: None, year: 2001 };
    assert!(matches!(
        client.accept_lookup(5, &MovieLookupOutcome::Entry(untitled)),
        Err(RadarrError::NotFound { tmdb_id: 5 })
    ));
    assert!(client.cache().is_empty());
    let broken = RadarrClient::new("::".to_string(), &CacheRead::Missing).unwrap();
    assert!(matches!(broken.resolve_name(1), MovieResolution::Failed(RadarrError::Url)));
}

#[test]
fn cache_failures_become_resolver_failures() {
    assert!(matches!(SonarrError::from_cache(TitleCacheError::Read), SonarrError::CacheRead));
    assert!(matches!(SonarrError::from_cache(TitleCacheError::Write), SonarrError::CacheWrite));
    assert!(matches!(SonarrError::from_cache(TitleCacheError::Dir), SonarrError::CacheDir));
    assert!(matches!(RadarrError::from_cache(TitleCacheError::Read), RadarrError::CacheRead));
    assert!(matches!(RadarrError::from_cache(TitleCacheError::Write), RadarrError::CacheWrite));
    assert!(matches!(RadarrError::from_cache(TitleCacheError::Dir), RadarrError::CacheDir));
    let parse = |bytes: &[u8]| match load_cache(&CacheRead::Contents(bytes.to_vec())) {
        Err(error) => error,
        Ok(_) => panic!("expected a failure"),
    };
    assert!(matches!(SonarrError::from_cache(parse(b"{")), SonarrError::CacheParse(_)));
    assert!(matches!(RadarrError::from_cache(parse(b"{")), RadarrError::CacheParse(_)));
}

#[test]
fn every_written_cache_reads_back_as_it_was() {
    let empty = TitleCache::new();
    let bytes = empty.encode().unwrap();
    assert_eq!(bytes, b"{}".to_vec());
    assert!(load_cache(&CacheRead::Contents(bytes)).unwrap().is_empty());

    let titles = [
        (i64::MIN, ""),
        (i64::MAX, "plain"),
        (0, "quote \" backslash \\ slash /"),
        (-1, "line\nbreak\ttab\r\u{8}\u{c}\u{0}\u{1f}\u{7f}"),
        (7, "\u{e9}\u{3042}\u{1f600} {\"7\": \"nested\"}"),
        (42, "  spaces around  "),
    ];
    let mut cache = TitleCache::new();
    for (id, title) in titles {
        cache.store_title(id, title);
    }
    let bytes = cache.encode().unwrap();
    let mut again = load_cache(&CacheRead::Contents(bytes)).unwrap();
    for (id, title) in titles {
        assert_eq!(again.cached_title(id), Some(title.to_string()), "title of {id}");
    }
    let kept: HashSet<i64> = titles.iter().map(|(id, _)| *id).collect();
    assert!(!again.retain(&kept));
    assert!(again.retain(&keep(&[])));
    assert!(again.is_empty());
}

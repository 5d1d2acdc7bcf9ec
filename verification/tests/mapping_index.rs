use seadexerr::mapping::{MappingIndex, PlexAniBridgeMappings, RawMappingRecord, TmdbMovieId};
use seadexerr::season::{earliest_season, parse_season_key, season_key};

fn record(tvdb: Option<i64>, tmdb: Option<TmdbMovieId>, seasons: &[&str]) -> RawMappingRecord {
    RawMappingRecord {
        tvdb_id: tvdb,
        tmdb_movie_id: tmdb,
        tvdb_mappings: seasons.iter().map(|s| s.to_string()).collect(),
    }
}

#[test]
fn season_key_parses_plain_numbers() {
    assert_eq!(parse_season_key("s0"), Some(0));
    assert_eq!(parse_season_key("s1"), Some(1));
    assert_eq!(parse_season_key("s12"), Some(12));
    assert_eq!(parse_season_key("s007"), Some(7));
}

#[test]
fn season_key_stops_at_first_non_digit() {
    assert_eq!(parse_season_key("s3-extra"), Some(3));
    assert_eq!(parse_season_key("s10e2"), Some(10));
}

#[test]
fn season_key_rejects_other_shapes() {
    assert_eq!(parse_season_key(""), None);
    assert_eq!(parse_season_key("s"), None);
    assert_eq!(parse_season_key("S1"), None);
    assert_eq!(parse_season_key("1"), None);
    assert_eq!(parse_season_key("sx1"), None);
    assert_eq!(parse_season_key("s-1"), None);
    assert_eq!(parse_season_key(" s1"), None);
}

#[test]
fn season_key_rejects_numbers_beyond_u32() {
    assert_eq!(parse_season_key("s4294967295"), Some(u32::MAX));
    assert_eq!(parse_season_key("s4294967296"), None);
    assert_eq!(parse_season_key("s99999999999999999999999999"), None);
}

#[test]
fn season_key_is_written_in_decimal() {
    assert_eq!(season_key(0), "s0");
    assert_eq!(season_key(2), "s2");
    assert_eq!(season_key(10), "s10");
    assert_eq!(season_key(u32::MAX), "s4294967295");
}

#[test]
fn season_key_round_trip() {
    for season in [0u32, 1, 9, 10, 99, 100, 65535, u32::MAX] {
        assert_eq!(parse_season_key(&season_key(season)), Some(season));
    }
}

#[test]
fn earliest_season_is_the_minimum_of_parseable_keys() {
    let keys: Vec<String> = vec!["s3".into(), "junk".into(), "s1".into(), "s2".into()];
    assert_eq!(earliest_season(&keys), Some(1));
    let none: Vec<String> = vec!["junk".into(), "".into()];
    assert_eq!(earliest_season(&none), None);
    assert_eq!(earliest_season(&Vec::new()), None);
}

#[test]
fn lookup_by_season_is_exact() {
    let raw = vec![
        ("555".to_string(), record(Some(100), None, &["s1", "s2"])),
        ("556".to_string(), record(Some(100), None, &["s3"])),
    ];
    let index = MappingIndex::build(&raw);
    assert_eq!(index.lookup_by_tvdb_season(100, 1), Some(555));
    assert_eq!(index.lookup_by_tvdb_season(100, 2), Some(555));
    assert_eq!(index.lookup_by_tvdb_season(100, 3), Some(556));
    assert_eq!(index.lookup_by_tvdb_season(100, 4), None);
    assert_eq!(index.lookup_by_tvdb_season(100, 0), None);
    assert_eq!(index.lookup_by_tvdb_season(101, 1), None);
}

#[test]
fn lookup_by_season_does_not_match_loosely() {
    let raw = vec![("7".to_string(), record(Some(9), None, &["s01", "s2-part"]))];
    let index = MappingIndex::build(&raw);
    assert_eq!(index.lookup_by_tvdb_season(9, 1), None);
    assert_eq!(index.lookup_by_tvdb_season(9, 2), None);
}

#[test]
fn lookup_by_season_takes_the_first_entry_that_lists_it() {
    let raw = vec![
        ("1".to_string(), record(Some(5), None, &["s1"])),
        ("2".to_string(), record(Some(5), None, &["s1", "s2"])),
    ];
    let index = MappingIndex::build(&raw);
    assert_eq!(index.lookup_by_tvdb_season(5, 1), Some(1));
    assert_eq!(index.lookup_by_tvdb_season(5, 2), Some(2));
}

#[test]
fn best_for_tvdb_prefers_earliest_season() {
    let raw = vec![
        ("10".to_string(), record(Some(1), None, &["s3", "s2"])),
        ("11".to_string(), record(Some(1), None, &["s1"])),
        ("12".to_string(), record(Some(1), None, &["s4"])),
    ];
    let index = MappingIndex::build(&raw);
    assert_eq!(index.lookup_best_for_tvdb(1), Some(11));
    assert_eq!(index.lookup_best_for_tvdb(2), None);
}

#[test]
fn best_for_tvdb_ties_keep_first_seen() {
    let first = vec![
        ("20".to_string(), record(Some(1), None, &["s1"])),
        ("21".to_string(), record(Some(1), None, &["s1", "s2"])),
    ];
    assert_eq!(MappingIndex::build(&first).lookup_best_for_tvdb(1), Some(20));
    let second = vec![
        ("21".to_string(), record(Some(1), None, &["s1", "s2"])),
        ("20".to_string(), record(Some(1), None, &["s1"])),
    ];
    assert_eq!(MappingIndex::build(&second).lookup_best_for_tvdb(1), Some(21));
}

#[test]
fn best_for_tvdb_ranks_unparseable_seasons_last() {
    let raw = vec![
        ("30".to_string(), record(Some(1), None, &["special"])),
        ("31".to_string(), record(Some(1), None, &["s7"])),
    ];
    let index = MappingIndex::build(&raw);
    assert_eq!(index.lookup_best_for_tvdb(1), Some(31));
    let only = vec![
        ("30".to_string(), record(Some(1), None, &["special"])),
        ("32".to_string(), record(Some(1), None, &["other"])),
    ];
    assert_eq!(MappingIndex::build(&only).lookup_best_for_tvdb(1), Some(30));
}

#[test]
fn records_without_seasons_are_left_out_of_tvdb_tables() {
    let raw = vec![("40".to_string(), record(Some(1), None, &[]))];
    let index = MappingIndex::build(&raw);
    assert_eq!(index.lookup_best_for_tvdb(1), None);
    assert!(index.lookup_tvdb_mappings_for_anilist(40).is_empty());
}

#[test]
fn records_with_non_numeric_keys_are_skipped() {
    let raw = vec![
        ("abc".to_string(), record(Some(1), Some(TmdbMovieId::Single(9)), &["s1"])),
        ("".to_string(), record(Some(1), Some(TmdbMovieId::Single(9)), &["s1"])),
        ("1.5".to_string(), record(Some(1), Some(TmdbMovieId::Single(9)), &["s1"])),
    ];
    let index = MappingIndex::build(&raw);
    assert_eq!(index.lookup_by_tvdb_season(1, 1), None);
    assert_eq!(index.lookup_anilist_for_tmdb(9), None);
}

#[test]
fn tmdb_tables_take_first_of_list_and_last_write_wins() {
    let raw = vec![
        ("50".to_string(), record(None, Some(TmdbMovieId::Single(900)), &[])),
        ("51".to_string(), record(None, Some(TmdbMovieId::Multiple(vec![901, 902])), &[])),
        ("52".to_string(), record(None, Some(TmdbMovieId::Multiple(vec![])), &[])),
        ("53".to_string(), record(None, Some(TmdbMovieId::Single(900)), &[])),
    ];
    let index = MappingIndex::build(&raw);
    assert_eq!(index.lookup_anilist_for_tmdb(900), Some(53));
    assert_eq!(index.lookup_anilist_for_tmdb(901), Some(51));
    assert_eq!(index.lookup_anilist_for_tmdb(902), None);
    assert_eq!(index.lookup_tmdb_for_anilist(50), Some(900));
    assert_eq!(index.lookup_tmdb_for_anilist(51), Some(901));
    assert_eq!(index.lookup_tmdb_for_anilist(52), None);
    assert_eq!(index.lookup_tmdb_for_anilist(53), Some(900));
}

#[test]
fn reverse_lookup_lists_tvdb_ids_in_dataset_order() {
    let raw = vec![
        ("60".to_string(), record(Some(7), None, &["s2"])),
        ("61".to_string(), record(Some(8), None, &["s1"])),
        ("+60".to_string(), record(Some(9), None, &["s1", "s5"])),
    ];
    let index = MappingIndex::build(&raw);
    let found = index.lookup_tvdb_mappings_for_anilist(60);
    assert_eq!(found.len(), 2);
    assert_eq!(found[0].tvdb_id, 7);
    assert_eq!(found[0].seasons, vec!["s2".to_string()]);
    assert_eq!(found[1].tvdb_id, 9);
    assert_eq!(found[1].seasons, vec!["s1".to_string(), "s5".to_string()]);
    assert!(index.lookup_tvdb_mappings_for_anilist(62).is_empty());
}

#[test]
fn rebuilding_from_the_same_records_gives_the_same_answers() {
    let raw = vec![
        ("555".to_string(), record(Some(100), Some(TmdbMovieId::Single(1)), &["s1", "s2"])),
        ("556".to_string(), record(Some(100), None, &["s3"])),
    ];
    let direct = MappingIndex::build(&raw);
    let reloaded = MappingIndex::build(&raw.clone());
    for season in 0..5u32 {
        assert_eq!(
            direct.lookup_by_tvdb_season(100, season),
            reloaded.lookup_by_tvdb_season(100, season)
        );
    }
    assert_eq!(direct.lookup_best_for_tvdb(100), reloaded.lookup_best_for_tvdb(100));
    assert_eq!(direct.lookup_anilist_for_tmdb(1), reloaded.lookup_anilist_for_tmdb(1));
    assert_eq!(direct.lookup_tmdb_for_anilist(555), reloaded.lookup_tmdb_for_anilist(555));
}

#[test]
fn empty_index_knows_nothing() {
    let index = MappingIndex::empty();
    assert_eq!(index.lookup_by_tvdb_season(1, 1), None);
    assert_eq!(index.lookup_best_for_tvdb(1), None);
    assert_eq!(index.lookup_anilist_for_tmdb(1), None);
    assert_eq!(index.lookup_tmdb_for_anilist(1), None);
}

#[test]
fn into_first_takes_single_or_head() {
    assert_eq!(TmdbMovieId::Single(5).into_first(), Some(5));
    assert_eq!(TmdbMovieId::Multiple(vec![7, 8]).into_first(), Some(7));
    assert_eq!(TmdbMovieId::Multiple(vec![]).into_first(), None);
}

#[test]
fn the_store_builds_the_same_index() {
    let raw = vec![
        ("555".to_string(), record(Some(100), Some(TmdbMovieId::Single(1)), &["s1", "s2"])),
        ("556".to_string(), record(Some(100), None, &["s3"])),
    ];
    let index = PlexAniBridgeMappings::build_index(&raw);
    assert_eq!(index.lookup_by_tvdb_season(100, 3), Some(556));
    assert_eq!(index.lookup_best_for_tvdb(100), Some(555));
    assert_eq!(index.lookup_anilist_for_tmdb(1), Some(555));
}

#[test]
fn best_for_tvdb_ranks_every_season_before_no_season() {
    let raw = vec![
        ("1".to_string(), record(Some(100), None, &["x"])),
        ("2".to_string(), record(Some(100), None, &["s4294967295"])),
    ];
    assert_eq!(MappingIndex::build(&raw).lookup_best_for_tvdb(100), Some(2));
    let late = vec![
        ("3".to_string(), record(Some(100), None, &["s4294967295"])),
        ("4".to_string(), record(Some(100), None, &["s4294967294"])),
        ("5".to_string(), record(Some(100), None, &["s4294967296"])),
    ];
    assert_eq!(MappingIndex::build(&late).lookup_best_for_tvdb(100), Some(4));
    let beyond = vec![
        ("6".to_string(), record(Some(100), None, &["s4294967296"])),
        ("7".to_string(), record(Some(100), None, &["junk"])),
    ];
    assert_eq!(MappingIndex::build(&beyond).lookup_best_for_tvdb(100), Some(6));
}

use seadexerr::releases::{
    sorted_distinct_texts, extract_nyaa_id, parse_timestamp, rewritten_download_url, EntriesOutcome,
    EntriesResponse, EntryExpand, EntryRecord, IdentityStep, Moment, ReleasesClient, ReleasesError,
    ResolvedIds, Torrent, TorrentFile, TorrentRecord, TorrentsOutcome, TorrentsResponse,
    CHUNK_SIZE,
};
use seadexerr::text::text_before;

fn file(length: u64) -> TorrentFile {
    TorrentFile { length, name: "file.mkv".to_string() }
}

fn record(id: &str, url: &str, tracker: &str, files: usize) -> TorrentRecord {
    TorrentRecord {
        id: id.to_string(),
        url: url.to_string(),
        info_hash: Some("abcdef".to_string()),
        created: Some("2024-01-02 03:04:05.678Z".to_string()),
        updated: None,
        is_best: false,
        tracker: tracker.to_string(),
        files: (0..files).map(|_| file(10)).collect(),
    }
}

fn entry(al_id: Option<i64>, records: Vec<TorrentRecord>) -> EntryRecord {
    EntryRecord { al_id, expand: Some(EntryExpand { trs: records }) }
}

#[test]
fn rfc3339_timestamps_are_read() {
    assert_eq!(
        parse_timestamp("1970-01-01T00:00:00Z"),
        Some(Moment { unix_nanos: 0, offset_seconds: 0 })
    );
    assert_eq!(
        parse_timestamp("2024-01-02T03:04:05Z"),
        Some(Moment { unix_nanos: 1_704_164_645_000_000_000, offset_seconds: 0 })
    );
    assert_eq!(
        parse_timestamp("2024-01-02T03:04:05.5+02:00"),
        Some(Moment { unix_nanos: 1_704_157_445_500_000_000, offset_seconds: 7200 })
    );
}

#[test]
fn timestamps_with_a_space_are_normalized() {
    assert_eq!(
        parse_timestamp("2024-01-02 03:04:05Z"),
        Some(Moment { unix_nanos: 1_704_164_645_000_000_000, offset_seconds: 0 })
    );
    assert_eq!(
        parse_timestamp("2024-01-02 03:04:05.250"),
        Some(Moment { unix_nanos: 1_704_164_645_250_000_000, offset_seconds: 0 })
    );
    assert_eq!(
        parse_timestamp("2024-01-02T03:04:05"),
        Some(Moment { unix_nanos: 1_704_164_645_000_000_000, offset_seconds: 0 })
    );
}

#[test]
fn other_timestamps_are_not_read() {
    assert_eq!(parse_timestamp(""), None);
    assert_eq!(parse_timestamp("yesterday"), None);
    assert_eq!(parse_timestamp("2024-01-02"), None);
    assert_eq!(parse_timestamp("2024-13-02T03:04:05Z"), None);
    assert_eq!(parse_timestamp("2024-01-02T03:04:05+02:00Z"), None);
}

#[test]
fn a_timestamp_that_reads_as_it_stands_is_not_normalized() {
    assert_eq!(
        parse_timestamp("2024-01-02 03:04:05+02:00"),
        Some(Moment { unix_nanos: 1_704_157_445_000_000_000, offset_seconds: 7200 })
    );
}

#[test]
fn page_ids_are_read_from_addresses() {
    assert_eq!(extract_nyaa_id("https://nyaa.si/view/123456"), Some("123456".to_string()));
    assert_eq!(extract_nyaa_id("https://nyaa.si/view/1?x=2"), Some("1".to_string()));
    assert_eq!(extract_nyaa_id("https://nyaa.si/view/42#comments"), Some("42".to_string()));
    assert_eq!(extract_nyaa_id("https://nyaa.si/view/42/torrent"), Some("42".to_string()));
    assert_eq!(extract_nyaa_id("/view/7/view/8"), Some("7".to_string()));
    assert_eq!(extract_nyaa_id("https://nyaa.si/view/"), None);
    assert_eq!(extract_nyaa_id("https://nyaa.si/view/abc"), None);
    assert_eq!(extract_nyaa_id("https://nyaa.si/view/12a"), None);
    assert_eq!(extract_nyaa_id("https://nyaa.si/view/?id=12"), None);
    assert_eq!(extract_nyaa_id("https://nyaa.si/download/12.torrent"), None);
    assert_eq!(extract_nyaa_id("https://nyaa.si/view"), None);
    assert_eq!(extract_nyaa_id(""), None);
}

#[test]
fn download_address_is_made_of_the_page_id() {
    let listed = record("r1", "https://nyaa.si/view/1834567", "Nyaa", 2);
    assert_eq!(
        rewritten_download_url(&listed),
        Some("https://nyaa.si/download/1834567.torrent".to_string())
    );
    let elsewhere = record("r2", "https://example.org/t/5", "Nyaa", 2);
    assert_eq!(rewritten_download_url(&elsewhere), None);
}

#[test]
fn candidate_is_made_of_a_record() {
    let mut listed = record("r1", "https://nyaa.si/view/9", "Nyaa", 3);
    listed.updated = Some("2024-05-06T07:08:09Z".to_string());
    listed.is_best = true;
    let torrent = Torrent::from_record(&listed, Some(77));
    assert_eq!(torrent.id, "r1");
    assert_eq!(torrent.download_url, "https://nyaa.si/download/9.torrent");
    assert_eq!(torrent.source_url, "https://nyaa.si/view/9");
    assert_eq!(torrent.info_hash, Some("abcdef".to_string()));
    assert_eq!(
        torrent.published,
        Some(Moment { unix_nanos: 1_714_979_289_000_000_000, offset_seconds: 0 })
    );
    assert_eq!(torrent.files.len(), 3);
    assert_eq!(torrent.size_bytes, 30);
    assert!(torrent.is_best);
    assert_eq!(torrent.anilist_id, Some(77));
}

#[test]
fn candidate_falls_back_to_listed_address_and_creation_time() {
    let mut listed = record("r2", "https://example.org/t/5", "Other", 0);
    listed.updated = Some("garbage".to_string());
    let torrent = Torrent::from_record(&listed, None);
    assert_eq!(torrent.download_url, "https://example.org/t/5");
    assert_eq!(
        torrent.published,
        Some(Moment { unix_nanos: 1_704_164_645_678_000_000, offset_seconds: 0 })
    );
    assert_eq!(torrent.size_bytes, 0);
    assert_eq!(torrent.anilist_id, None);
    listed.created = None;
    assert_eq!(Torrent::from_record(&listed, None).published, None);
}

#[test]
fn candidate_size_wraps_at_64_bits() {
    let mut listed = record("r3", "", "Nyaa", 0);
    listed.files = vec![file(u64::MAX), file(2), file(u64::MAX)];
    assert_eq!(Torrent::from_record(&listed, None).size_bytes, 0);
    listed.files = vec![file(u64::MAX), file(5)];
    assert_eq!(Torrent::from_record(&listed, None).size_bytes, 4);
}

#[test]
fn search_keeps_served_torrents_up_to_the_limit() {
    let page = EntriesResponse {
        items: vec![
            entry(
                Some(1),
                vec![
                    record("a", "https://nyaa.si/view/1", "Nyaa", 2),
                    record("b", "https://nyaa.si/view/2", "AB", 2),
                    record("c", "https://example.org/3", "Nyaa", 2),
                ],
            ),
            EntryRecord { al_id: Some(2), expand: None },
            entry(None, vec![record("d", "https://nyaa.si/view/4", "Nyaa", 1)]),
            entry(Some(3), vec![record("e", "https://nyaa.si/view/5", "Nyaa", 1)]),
        ],
    };
    let outcome = EntriesOutcome::Answer(page);
    let all = ReleasesClient::search_torrents(10, &outcome).unwrap();
    let ids: Vec<&str> = all.iter().map(|t| t.id.as_str()).collect();
    assert_eq!(ids, vec!["a", "d", "e"]);
    assert_eq!(all[0].anilist_id, Some(1));
    assert_eq!(all[1].anilist_id, None);
    assert_eq!(all[2].anilist_id, Some(3));
    let two = ReleasesClient::search_torrents(2, &outcome).unwrap();
    assert_eq!(two.len(), 2);
    assert_eq!(two[1].id, "d");
    assert!(ReleasesClient::search_torrents(0, &outcome).unwrap().is_empty());
}

#[test]
fn search_failures_are_told_apart() {
    assert_eq!(
        ReleasesClient::search_torrents(5, &EntriesOutcome::Unreachable).unwrap_err(),
        ReleasesError::Http
    );
    assert_eq!(
        ReleasesClient::search_torrents(5, &EntriesOutcome::Undecodable).unwrap_err(),
        ReleasesError::Deserialisation
    );
    assert_eq!(
        ReleasesClient::recent_public_torrents(&TorrentsOutcome::Unreachable).unwrap_err(),
        ReleasesError::Http
    );
    assert_eq!(
        ReleasesClient::recent_public_torrents(&TorrentsOutcome::Undecodable).unwrap_err(),
        ReleasesError::Deserialisation
    );
}

#[test]
fn recent_torrents_come_without_anilist_ids() {
    let page = TorrentsResponse {
        items: vec![
            record("a", "https://nyaa.si/view/1", "Nyaa", 2),
            record("b", "https://example.org/2", "Other", 1),
        ],
    };
    let found = ReleasesClient::recent_public_torrents(&TorrentsOutcome::Answer(page)).unwrap();
    assert_eq!(found.len(), 2);
    assert_eq!(found[0].id, "a");
    assert_eq!(found[0].anilist_id, None);
    assert_eq!(found[1].download_url, "https://example.org/2");
}

#[test]
fn request_addresses_carry_the_query() {
    let client = ReleasesClient::new("https://releases.moe/api/".to_string(), 100);
    assert_eq!(client.default_limit(), 100);
    assert_eq!(
        client.search_address(555, 20).unwrap(),
        "https://releases.moe/api/collections/entries/records?filter=%28alID%3D555%29&expand=trs&page=1&perPage=20"
    );
    assert_eq!(
        client.search_address(-1, 500).unwrap(),
        "https://releases.moe/api/collections/entries/records?filter=%28alID%3D-1%29&expand=trs&page=1&perPage=100"
    );
    assert_eq!(
        client.recent_address(7).unwrap(),
        "https://releases.moe/api/collections/torrents/records?filter=%28tracker%3D%27Nyaa%27%29&sort=-updated&page=1&perPage=7"
    );
    let ids = vec!["abc".to_string(), "d e".to_string()];
    assert_eq!(
        client.identity_address(&ids).unwrap(),
        "https://releases.moe/api/collections/entries/records?filter=%28trs%7E%27abc%27%29+%7C%7C+%28trs%7E%27d+e%27%29&expand=trs&perPage=100"
    );
}

#[test]
fn request_addresses_need_a_base() {
    let client = ReleasesClient::new("releases".to_string(), 100);
    assert_eq!(client.search_address(1, 1).unwrap_err(), ReleasesError::Url);
    assert_eq!(client.recent_address(1).unwrap_err(), ReleasesError::Url);
    assert_eq!(client.identity_address(&vec!["x".to_string()]).unwrap_err(), ReleasesError::Url);
}

#[test]
fn texts_are_sorted_and_told_apart() {
    let texts: Vec<String> =
        ["b", "a", "b", "", "c", "a", "ab", "B", "\u{e9}", "z"].iter().map(|s| s.to_string()).collect();
    let mut expected = texts.clone();
    expected.sort_unstable();
    expected.dedup();
    assert_eq!(sorted_distinct_texts(&texts), expected);
    assert_eq!(expected[0], "");
    assert!(sorted_distinct_texts(&[]).is_empty());
}

#[test]
fn text_order_agrees_with_the_standard_library() {
    let samples = ["", "a", "ab", "b", "B", "a\u{e9}", "a\u{1f600}", "aa", "\u{ffff}", "\u{10000}"];
    for a in samples {
        for b in samples {
            assert_eq!(text_before(a, b), a < b, "comparing {a:?} and {b:?}");
        }
    }
}

#[test]
fn resolved_ids_keep_the_last_finding() {
    let mut resolved = ResolvedIds::new();
    assert_eq!(resolved.get("a"), None);
    resolved.insert("a".to_string(), 1);
    resolved.insert("b".to_string(), 2);
    resolved.insert("a".to_string(), 3);
    assert_eq!(resolved.get("a"), Some(3));
    assert_eq!(resolved.get("b"), Some(2));
    assert_eq!(resolved.get("c"), None);
}

#[test]
fn identity_lookup_of_nothing_asks_for_nothing() {
    let client = ReleasesClient::new("https://releases.moe/api/".to_string(), 100);
    let (lookup, step) = client.resolve_anilist_ids_for_torrents(&[]);
    assert!(matches!(step, IdentityStep::Done));
    assert_eq!(lookup.into_resolved().get("x"), None);
}

#[test]
fn identity_lookup_asks_in_chunks_and_keeps_what_was_asked_for() {
    let client = ReleasesClient::new("https://releases.moe/api/".to_string(), 5);
    let mut ids: Vec<String> = (0..45).rev().map(|i| format!("t{i}")).collect();
    ids.push("t3".to_string());
    let mut sorted = ids.clone();
    sorted.sort_unstable();
    sorted.dedup();
    let (mut lookup, mut step) = client.resolve_anilist_ids_for_torrents(&ids);
    let mut requests = 0;
    loop {
        match step {
            IdentityStep::Request(url) => {
                requests += 1;
                let per_page = if requests < 3 { CHUNK_SIZE } else { 5 };
                assert!(url.ends_with(&format!("&expand=trs&perPage={per_page}")), "{url}");
                let first = &sorted[(requests - 1) * CHUNK_SIZE];
                let second = &sorted[(requests - 1) * CHUNK_SIZE + 1];
                assert!(url.contains(&format!("filter=%28trs%7E%27{first}%27%29+%7C%7C+")), "{url}");
                let page = EntriesResponse {
                    items: vec![
                        entry(
                            Some(1000 + requests as i64),
                            vec![
                                record(first, "", "Nyaa", 1),
                                record(first, "", "AB", 1),
                                record("t9", "", "Nyaa", 1),
                                record("stranger", "", "Nyaa", 1),
                            ],
                        ),
                        entry(None, vec![record(second, "", "Nyaa", 1)]),
                        EntryRecord { al_id: Some(5), expand: None },
                    ],
                };
                let next = lookup.step(&EntriesOutcome::Answer(page));
                lookup = next.0;
                step = next.1;
            }
            IdentityStep::Done => break,
            IdentityStep::Failed(error) => panic!("lookup failed: {error:?}"),
        }
    }
    assert_eq!(requests, 3);
    assert_eq!((sorted[0].as_str(), sorted[20].as_str(), sorted[40].as_str()), ("t0", "t27", "t5"));
    let resolved = lookup.into_resolved();
    assert_eq!(resolved.get("t0"), Some(1001));
    assert_eq!(resolved.get("t27"), Some(1002));
    assert_eq!(resolved.get("t5"), Some(1003));
    assert_eq!(resolved.get("t9"), Some(1003));
    assert_eq!(resolved.get("t1"), None);
    assert_eq!(resolved.get("t28"), None);
    assert_eq!(resolved.get("stranger"), None);
}

#[test]
fn identity_lookup_stops_at_the_first_failure() {
    let client = ReleasesClient::new("https://releases.moe/api/".to_string(), 5);
    let ids = vec!["a".to_string()];
    let (lookup, step) = client.resolve_anilist_ids_for_torrents(&ids);
    assert!(matches!(step, IdentityStep::Request(_)));
    let (lookup, step) = lookup.step(&EntriesOutcome::Unreachable);
    assert!(matches!(step, IdentityStep::Failed(ReleasesError::Http)));
    let (_, step) = lookup.step(&EntriesOutcome::Unreachable);
    assert!(matches!(step, IdentityStep::Done));

    let (lookup, _) = client.resolve_anilist_ids_for_torrents(&ids);
    let (_, step) = lookup.step(&EntriesOutcome::Undecodable);
    assert!(matches!(step, IdentityStep::Failed(ReleasesError::Deserialisation)));

    let nowhere = ReleasesClient::new("nowhere".to_string(), 5);
    let (_, step) = nowhere.resolve_anilist_ids_for_torrents(&ids);
    assert!(matches!(step, IdentityStep::Failed(ReleasesError::Url)));
}

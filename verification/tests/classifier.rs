use seadexerr::anilist::{
    absorb_response, format_allowed, movie_format_allowed, unique_sorted, AniListError,
    AniListMedia, GraphqlData, GraphqlError, GraphqlMedia, GraphqlPage, GraphqlResponse, MediaFetch,
    MediaFetchStep, MediaFormat, PageOutcome, MAX_IDS_PER_REQUEST,
};
use std::collections::HashMap;

fn media(id: i64, format: Option<&str>) -> GraphqlMedia {
    GraphqlMedia { id, format: format.map(|f| f.to_string()) }
}

fn answer(entries: Vec<GraphqlMedia>) -> GraphqlResponse {
    GraphqlResponse {
        data: Some(GraphqlData { page: Some(GraphqlPage { media: entries }) }),
        errors: None,
    }
}

#[test]
fn format_names_are_read_exactly() {
    assert_eq!(MediaFormat::from_str("TV"), Some(MediaFormat::Tv));
    assert_eq!(MediaFormat::from_str("TV_SHORT"), Some(MediaFormat::TvShort));
    assert_eq!(MediaFormat::from_str("ONA"), Some(MediaFormat::Ona));
    assert_eq!(MediaFormat::from_str("MOVIE"), Some(MediaFormat::Movie));
    assert_eq!(MediaFormat::from_str("SPECIAL"), Some(MediaFormat::Special));
    assert_eq!(MediaFormat::from_str("OVA"), Some(MediaFormat::Ova));
    assert_eq!(MediaFormat::from_str("MUSIC"), Some(MediaFormat::Music));
    assert_eq!(MediaFormat::from_str("MANGA"), Some(MediaFormat::Manga));
    assert_eq!(MediaFormat::from_str("NOVEL"), Some(MediaFormat::Novel));
    assert_eq!(MediaFormat::from_str("ONE_SHOT"), Some(MediaFormat::OneShot));
    assert_eq!(MediaFormat::from_str("tv"), None);
    assert_eq!(MediaFormat::from_str("TV "), None);
    assert_eq!(MediaFormat::from_str(""), None);
}

#[test]
fn series_formats_are_tv_short_and_ona() {
    let series = [MediaFormat::Tv, MediaFormat::TvShort, MediaFormat::Ona];
    let others = [
        MediaFormat::Movie,
        MediaFormat::Special,
        MediaFormat::Ova,
        MediaFormat::Music,
        MediaFormat::Manga,
        MediaFormat::Novel,
        MediaFormat::OneShot,
    ];
    for format in series {
        assert!(format_allowed(&format));
        assert!(!movie_format_allowed(&format));
    }
    for format in others {
        assert!(!format_allowed(&format));
        assert_eq!(movie_format_allowed(&format), format == MediaFormat::Movie);
    }
}

#[test]
fn unique_sorted_orders_and_dedups() {
    assert_eq!(unique_sorted(&[]), Vec::<i64>::new());
    assert_eq!(unique_sorted(&[3, 1, 2, 3, 1, -5, 2]), vec![-5, 1, 2, 3]);
    assert_eq!(unique_sorted(&[7, 7, 7]), vec![7]);
    assert_eq!(unique_sorted(&[i64::MAX, i64::MIN, 0]), vec![i64::MIN, 0, i64::MAX]);
}

#[test]
fn absorbing_a_page_keeps_the_first_entry_of_each_id() {
    let mut known: HashMap<i64, AniListMedia> = HashMap::new();
    let page = answer(vec![
        media(1, Some("TV")),
        media(2, None),
        media(3, Some("UNKNOWN")),
        media(1, Some("MOVIE")),
        media(4, Some("MOVIE")),
    ]);
    assert!(absorb_response(&mut known, &page).is_ok());
    assert_eq!(known.len(), 2);
    assert_eq!(known[&1], AniListMedia { id: 1, format: MediaFormat::Tv });
    assert_eq!(known[&4], AniListMedia { id: 4, format: MediaFormat::Movie });
    let later = answer(vec![media(4, Some("TV")), media(2, Some("OVA"))]);
    assert!(absorb_response(&mut known, &later).is_ok());
    assert_eq!(known[&4].format, MediaFormat::Movie);
    assert_eq!(known[&2].format, MediaFormat::Ova);
}

#[test]
fn reported_errors_come_before_missing_data() {
    let mut known: HashMap<i64, AniListMedia> = HashMap::new();
    let response = GraphqlResponse {
        data: None,
        errors: Some(vec![
            GraphqlError { message: "first".to_string() },
            GraphqlError { message: "second".to_string() },
        ]),
    };
    match absorb_response(&mut known, &response) {
        Err(AniListError::Graphql(text)) => assert_eq!(text, "first, second"),
        other => panic!("unexpected outcome {other:?}"),
    }
    assert!(known.is_empty());
}

#[test]
fn an_empty_error_list_is_no_error() {
    let mut known: HashMap<i64, AniListMedia> = HashMap::new();
    let mut response = answer(vec![media(9, Some("ONA"))]);
    response.errors = Some(Vec::new());
    assert!(absorb_response(&mut known, &response).is_ok());
    assert_eq!(known[&9].format, MediaFormat::Ona);
}

#[test]
fn missing_data_or_page_is_an_error() {
    let mut known: HashMap<i64, AniListMedia> = HashMap::new();
    let no_data = GraphqlResponse { data: None, errors: None };
    assert!(matches!(absorb_response(&mut known, &no_data), Err(AniListError::MissingData)));
    let no_page = GraphqlResponse { data: Some(GraphqlData { page: None }), errors: None };
    assert!(matches!(absorb_response(&mut known, &no_page), Err(AniListError::MissingData)));
}

#[test]
fn lookup_of_nothing_asks_for_nothing() {
    let (fetch, step) = MediaFetch::begin(&[]);
    assert!(matches!(step, MediaFetchStep::Done));
    assert!(fetch.into_known().is_empty());
}

#[test]
fn lookup_asks_for_each_id_once_in_batches() {
    let mut ids: Vec<i64> = (0..120).rev().collect();
    ids.extend(0..30);
    let (mut fetch, mut step) = MediaFetch::begin(&ids);
    let mut asked: Vec<i64> = Vec::new();
    let mut requests = 0;
    loop {
        match step {
            MediaFetchStep::Request(batch) => {
                assert!(!batch.is_empty());
                assert!(batch.len() <= MAX_IDS_PER_REQUEST);
                requests += 1;
                let entries = batch.iter().map(|id| media(*id, Some("TV"))).collect();
                asked.extend(batch);
                let next = fetch.step(&PageOutcome::Answer(answer(entries)));
                fetch = next.0;
                step = next.1;
            }
            MediaFetchStep::Done => break,
            MediaFetchStep::Failed(error) => panic!("lookup failed: {error:?}"),
        }
    }
    assert_eq!(requests, 3);
    assert_eq!(asked, (0..120).collect::<Vec<i64>>());
    assert_eq!(fetch.into_known().len(), 120);
}

#[test]
fn lookup_stops_at_the_first_failure() {
    let (fetch, step) = MediaFetch::begin(&[1, 2, 3]);
    assert!(matches!(step, MediaFetchStep::Request(ref batch) if batch == &vec![1, 2, 3]));
    let (fetch, step) = fetch.step(&PageOutcome::Unreachable);
    assert!(matches!(step, MediaFetchStep::Failed(AniListError::Http)));
    let (_, step) = fetch.step(&PageOutcome::Answer(answer(Vec::new())));
    assert!(matches!(step, MediaFetchStep::Done));

    let (fetch, _) = MediaFetch::begin(&[1]);
    let (_, step) = fetch.step(&PageOutcome::Undecodable);
    assert!(matches!(step, MediaFetchStep::Failed(AniListError::Deserialisation)));

    let (fetch, _) = MediaFetch::begin(&[1]);
    let broken = GraphqlResponse { data: None, errors: None };
    let (_, step) = fetch.step(&PageOutcome::Answer(broken));
    assert!(matches!(step, MediaFetchStep::Failed(AniListError::MissingData)));
}

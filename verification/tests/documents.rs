use seadexerr::config::{
    build_channel_metadata, listen_target, parse_root_url, AppConfig, ConfigError, Environment,
    UrlSetting,
};
use seadexerr::releases::Moment;
use seadexerr::search::HttpError;
use seadexerr::xml::{attribute, indentation_fits, render_document, tag, XmlEvent, XmlFailure};
use seadexerr::torznab::{render_caps, render_feed, ChannelMetadata, TorznabBuildError, TorznabItem};
use seadexerr::weburl::normalized_url;

fn metadata() -> ChannelMetadata {
    ChannelMetadata {
        title: "Seadexer".to_string(),
        description: "Bridge & more".to_string(),
        site_link: "http://localhost:6767/".to_string(),
    }
}

fn item() -> TorznabItem {
    TorznabItem {
        title: "Frieren S01 <remux>".to_string(),
        guid: "abc".to_string(),
        link: "https://nyaa.si/download/1.torrent?a=1&b=2".to_string(),
        comments: Some("https://nyaa.si/view/1".to_string()),
        published: Some(Moment { unix_nanos: 1_704_164_645_000_000_000, offset_seconds: 0 }),
        size_bytes: 1234,
        info_hash: Some("deadbeef".to_string()),
        seeders: 1000,
        leechers: 0,
        categories: vec![5000, 5070],
    }
}

fn env() -> Environment {
    Environment {
        host: None,
        port: None,
        releases_base_url: None,
        data_path: None,
        mapping_source_url: None,
        mapping_refresh_secs: None,
        public_base_url: None,
        releases_timeout_secs: None,
        mapping_timeout_secs: None,
        title: None,
        description: None,
        default_limit: None,
        anilist_base_url: None,
        anilist_timeout_secs: None,
        sonarr_enabled: None,
        sonarr_base_url: None,
        sonarr_api_key: Some("SECRET-REDACTED".to_string()),
        sonarr_timeout_secs: None,
        radarr_enabled: None,
        radarr_base_url: None,
        radarr_api_key: Some("SECRET-REDACTED".to_string()),
        radarr_timeout_secs: None,
    }
}

fn some(text: &str) -> Option<String> {
    Some(text.to_string())
}

#[test]
fn caps_document_is_rendered() {
    let text = render_caps(&metadata(), "1.2.3").unwrap();
    let expected = r#"<?xml version="1.0" encoding="UTF-8"?>
<caps>
    <server title="Seadexer" description="Bridge &amp; more" version="1.2.3"/>
    <limits default="100" max="100" min="1"/>
    <registration available="no" open="no"/>
    <searching>
        <search available="yes"/>
        <tv-search available="yes" supportedParams="tvdbid,season"/>
        <movie-search available="yes" supportedParams="tmdbid"/>
    </searching>
    <categories>
        <category id="5000" name="TV">
            <subcat id="5070" name="TV/Anime"/>
        </category>
        <category id="2000" name="Movies"/>
    </categories>
    <tags>
        <tag name="internal" description="Description"/>
    </tags>
</caps>"#;
    assert_eq!(text, expected);
}

#[test]
fn empty_feed_is_rendered() {
    let text = render_feed(&metadata(), &[], 0, 0).unwrap();
    let expected = r#"<?xml version="1.0" encoding="UTF-8"?>
<rss version="2.0" xmlns:torznab="http://torznab.com/schemas/2015/feed">
  <channel>
    <title>Seadexer</title>
    <description>Bridge &amp; more</description>
    <link>http://localhost:6767/</link>
  </channel>
</rss>"#;
    assert_eq!(text, expected);
    assert_eq!(render_feed(&metadata(), &[], 40, 7).unwrap(), expected);
}

#[test]
fn feed_items_are_rendered() {
    let mut bare = item();
    bare.title = "Plain".to_string();
    bare.comments = None;
    bare.published = None;
    bare.info_hash = None;
    bare.categories = Vec::new();
    bare.seeders = 100;
    let text = render_feed(&metadata(), &[item(), bare], 0, 2).unwrap();
    let expected = r#"<?xml version="1.0" encoding="UTF-8"?>
<rss version="2.0" xmlns:torznab="http://torznab.com/schemas/2015/feed">
  <channel>
    <title>Seadexer</title>
    <description>Bridge &amp; more</description>
    <link>http://localhost:6767/</link>
    <item>
      <title>Frieren S01 &lt;remux&gt;</title>
      <guid>abc</guid>
      <link>https://nyaa.si/download/1.torrent?a=1&amp;b=2</link>
      <comments>https://nyaa.si/view/1</comments>
      <pubDate>Tue, 02 Jan 2024 03:04:05 +0000</pubDate>
      <size>1234</size>
      <infohash>deadbeef</infohash>
      <enclosure url="https://nyaa.si/download/1.torrent?a=1&amp;b=2" type="application/x-bittorrent" length="1234"/>
      <torznab:attr name="category" value="5000"/>
      <torznab:attr name="category" value="5070"/>
      <torznab:attr name="seeders" value="1000"/>
      <torznab:attr name="leechers" value="0"/>
      <torznab:attr name="tag" value="internal"/>
    </item>
    <item>
      <title>Plain</title>
      <guid>abc</guid>
      <link>https://nyaa.si/download/1.torrent?a=1&amp;b=2</link>
      <size>1234</size>
      <enclosure url="https://nyaa.si/download/1.torrent?a=1&amp;b=2" type="application/x-bittorrent" length="1234"/>
      <torznab:attr name="category" value="5000"/>
      <torznab:attr name="category" value="5070"/>
      <torznab:attr name="seeders" value="100"/>
      <torznab:attr name="leechers" value="0"/>
      <torznab:attr name="tag" value="internal"/>
    </item>
  </channel>
</rss>"#;
    assert_eq!(text, expected);
}

#[test]
fn feed_dates_keep_their_offset() {
    let moment = Moment { unix_nanos: 1_704_164_645_000_000_000, offset_seconds: 7200 };
    assert_eq!(moment.to_rfc2822(), Some("Tue, 02 Jan 2024 05:04:05 +0200".to_string()));
    let epoch = Moment { unix_nanos: 0, offset_seconds: -3600 };
    assert_eq!(epoch.to_rfc2822(), Some("Wed, 31 Dec 1969 23:00:00 -0100".to_string()));
}

#[test]
fn a_date_that_cannot_be_written_fails_the_feed() {
    let mut early = item();
    early.published = Some(Moment { unix_nanos: -3_000_000_000_000_000_000, offset_seconds: 0 });
    assert_eq!(early.published.unwrap().to_rfc2822(), None);
    assert_eq!(
        render_feed(&metadata(), &[item(), early], 0, 2).unwrap_err(),
        TorznabBuildError::Timestamp
    );
    let mut odd = item();
    odd.published = Some(Moment { unix_nanos: 0, offset_seconds: 100_000_000 });
    assert_eq!(render_feed(&metadata(), &[odd], 0, 1).unwrap_err(), TorznabBuildError::Timestamp);
}

#[test]
fn addresses_are_normalized() {
    assert_eq!(normalized_url("HTTP://Example.COM"), some("http://example.com/"));
    assert_eq!(normalized_url("https://a.b/c d"), some("https://a.b/c%20d"));
    assert_eq!(normalized_url("no address"), None);
    assert_eq!(normalized_url(""), None);
    assert_eq!(parse_root_url("  http://localhost:8989  "), some("http://localhost:8989/"));
    assert_eq!(parse_root_url("http://host/api"), some("http://host/api/"));
    assert_eq!(parse_root_url("http://host/api/"), some("http://host/api/"));
    assert_eq!(parse_root_url(""), None);
    assert_eq!(parse_root_url("host"), None);
}

#[test]
fn listen_target_has_defaults() {
    assert_eq!(listen_target(&env()), Ok(("0.0.0.0".to_string(), 6767)));
    let mut e = env();
    e.host = some("127.0.0.1");
    e.port = some("+8080");
    assert_eq!(listen_target(&e), Ok(("127.0.0.1".to_string(), 8080)));
    for bad in ["", "65536", " 80", "80 ", "-1", "http"] {
        e.port = some(bad);
        assert_eq!(listen_target(&e), Err(ConfigError::InvalidPort), "port {bad:?}");
    }
    e.port = some("65535");
    assert_eq!(listen_target(&e).unwrap().1, 65535);
    e.port = some("0");
    assert_eq!(listen_target(&e).unwrap().1, 0);
}

#[test]
fn settings_have_defaults() {
    let config = AppConfig::from_env(&env(), "0.0.0.0:6767".to_string()).unwrap();
    assert_eq!(config.listen_addr, "0.0.0.0:6767");
    assert_eq!(config.public_base_url, None);
    assert_eq!(config.releases_base_url, "https://releases.moe/api/");
    assert_eq!(config.releases_timeout_secs, 10);
    assert_eq!(config.data_path, "data");
    assert_eq!(
        config.mapping_source_url,
        "https://raw.githubusercontent.com/eliasbenb/PlexAniBridge-Mappings/refs/heads/v2/mappings.json"
    );
    assert_eq!(config.mapping_refresh_secs, 21_600);
    assert_eq!(config.mapping_timeout_secs, 10);
    assert_eq!(config.application_title, "Seadexer");
    assert_eq!(config.application_description, "Indexer bridge for releases.moe");
    assert_eq!(config.default_limit, 100);
    assert_eq!(config.anilist_base_url, "https://graphql.anilist.co/");
    assert_eq!(config.anilist_timeout_secs, 10);
    let sonarr = config.sonarr.unwrap();
    assert_eq!(sonarr.url, "http://localhost:8989/");
    assert_eq!(sonarr.api_key, "SECRET-REDACTED");
    assert_eq!(sonarr.timeout_secs, 10);
    let radarr = config.radarr.unwrap();
    assert_eq!(radarr.url, "http://localhost:7878/");
    assert_eq!(radarr.timeout_secs, 10);
}

#[test]
fn settings_are_read() {
    let mut e = env();
    e.releases_base_url = some(" https://mirror.example/api ");
    e.data_path = some("/var/lib/seadexer");
    e.mapping_source_url = some("https://example.org/m.json");
    e.mapping_refresh_secs = some("0");
    e.public_base_url = some("https://indexer.example");
    e.releases_timeout_secs = some("30");
    e.mapping_timeout_secs = some("0");
    e.title = some("T");
    e.description = some("D");
    e.default_limit = some("25");
    e.anilist_base_url = some("https://anilist.example/graphql");
    e.anilist_timeout_secs = some("x");
    e.sonarr_enabled = some("FALSE");
    e.sonarr_base_url = some("http://sonarr:1/base");
    e.sonarr_timeout_secs = some("5");
    e.radarr_enabled = some("false");
    e.radarr_api_key = None;
    e.radarr_base_url = some("not an address");
    let config = AppConfig::from_env(&e, "h:1".to_string()).unwrap();
    assert_eq!(config.releases_base_url, "https://mirror.example/api/");
    assert_eq!(config.data_path, "/var/lib/seadexer");
    assert_eq!(config.mapping_source_url, "https://example.org/m.json");
    assert_eq!(config.mapping_refresh_secs, 21_600);
    assert_eq!(config.public_base_url, some("https://indexer.example/"));
    assert_eq!(config.releases_timeout_secs, 30);
    assert_eq!(config.mapping_timeout_secs, 1);
    assert_eq!(config.application_title, "T");
    assert_eq!(config.application_description, "D");
    assert_eq!(config.default_limit, 25);
    assert_eq!(config.anilist_base_url, "https://anilist.example/graphql");
    assert_eq!(config.anilist_timeout_secs, 30);
    let sonarr = config.sonarr.unwrap();
    assert_eq!(sonarr.url, "http://sonarr:1/base/");
    assert_eq!(sonarr.timeout_secs, 5);
    assert!(config.radarr.is_none());
    e.default_limit = some("0");
    e.mapping_refresh_secs = some("7");
    let config = AppConfig::from_env(&e, "h:1".to_string()).unwrap();
    assert_eq!(config.default_limit, 100);
    assert_eq!(config.mapping_refresh_secs, 7);
}

#[test]
fn unusable_settings_are_told_apart_in_order() {
    let fail = |e: &Environment| AppConfig::from_env(e, String::new()).unwrap_err();
    let mut e = env();
    e.sonarr_enabled = some("false");
    e.radarr_enabled = some("false");
    assert_eq!(fail(&e), ConfigError::NoManagerEnabled);
    e.radarr_enabled = None;
    e.radarr_api_key = None;
    assert_eq!(fail(&e), ConfigError::MissingRadarrApiKey);
    e.radarr_base_url = some("::");
    assert_eq!(fail(&e), ConfigError::InvalidUrl(UrlSetting::RadarrBaseUrl));
    e.sonarr_enabled = None;
    e.sonarr_api_key = None;
    assert_eq!(fail(&e), ConfigError::MissingSonarrApiKey);
    e.sonarr_base_url = some("::");
    assert_eq!(fail(&e), ConfigError::InvalidUrl(UrlSetting::SonarrBaseUrl));
    e.anilist_base_url = some("");
    assert_eq!(fail(&e), ConfigError::InvalidUrl(UrlSetting::AnilistBaseUrl));
    e.public_base_url = some("/relative");
    assert_eq!(fail(&e), ConfigError::InvalidUrl(UrlSetting::PublicBaseUrl));
    e.mapping_source_url = some("mappings.json");
    assert_eq!(fail(&e), ConfigError::InvalidUrl(UrlSetting::MappingSourceUrl));
    e.releases_base_url = some("releases");
    assert_eq!(fail(&e), ConfigError::InvalidUrl(UrlSetting::ReleasesBaseUrl));
}

#[test]
fn channel_metadata_takes_the_public_address_or_the_listen_address() {
    let mut e = env();
    let config = AppConfig::from_env(&e, "0.0.0.0:6767".to_string()).unwrap();
    let metadata = build_channel_metadata(&config).unwrap();
    assert_eq!(metadata.title, "Seadexer");
    assert_eq!(metadata.description, "Indexer bridge for releases.moe");
    assert_eq!(metadata.site_link, "http://0.0.0.0:6767/");
    e.public_base_url = some("https://indexer.example/base");
    let config = AppConfig::from_env(&e, "0.0.0.0:6767".to_string()).unwrap();
    assert_eq!(build_channel_metadata(&config).unwrap().site_link, "https://indexer.example/base");
    e.public_base_url = None;
    let config = AppConfig::from_env(&e, "bad host:1".to_string()).unwrap();
    match build_channel_metadata(&config) {
        Err(HttpError::BaseUrl(text)) => assert_eq!(text, "http://bad host:1"),
        other => panic!("expected a failure, got {other:?}"),
    }
}

#[test]
fn failures_carry_a_message() {
    assert_eq!(
        HttpError::UnsupportedOperation("rss".to_string()).message(),
        "unsupported torznab operation `rss`"
    );
    assert_eq!(
        HttpError::BaseUrl("x".to_string()).message(),
        "Failed to construct public facing URL for seadexerr indexer"
    );
    assert_eq!(
        HttpError::Torznab(TorznabBuildError::Xml).message(),
        "Failed to render torznab payload"
    );
}

#[test]
fn a_document_is_indented_by_the_given_number_of_spaces() {
    let events = vec![
        XmlEvent::Start(tag("a", vec![attribute("k", "v<")])),
        XmlEvent::Start(tag("b", Vec::new())),
        XmlEvent::Text("1 & 2".to_string()),
        XmlEvent::End("b".to_string()),
        XmlEvent::Empty(tag("c", Vec::new())),
        XmlEvent::End("a".to_string()),
    ];
    assert_eq!(
        render_document(3, &events).unwrap(),
        "<a k=\"v&lt;\">\n   <b>1 &amp; 2</b>\n   <c/>\n</a>"
    );
    assert_eq!(render_document(0, &events).unwrap(), "<a k=\"v&lt;\">\n<b>1 &amp; 2</b>\n<c/>\n</a>");
    assert_eq!(render_document(3, &Vec::new()).unwrap(), "");
}

#[test]
fn a_document_that_cannot_be_indented_is_not_written() {
    let nested = vec![
        XmlEvent::Start(tag("a", Vec::new())),
        XmlEvent::Start(tag("b", Vec::new())),
        XmlEvent::End("b".to_string()),
        XmlEvent::End("a".to_string()),
    ];
    assert!(indentation_fits(usize::MAX / 4, nested.len()));
    assert!(!indentation_fits(usize::MAX / 4 + 1, nested.len()));
    assert!(indentation_fits(usize::MAX, 1));
    assert!(indentation_fits(usize::MAX, 0));
    assert!(indentation_fits(0, usize::MAX));
    assert!(!indentation_fits(usize::MAX, 2));
    assert_eq!(render_document(usize::MAX, &nested).unwrap_err(), XmlFailure::Write);
    assert_eq!(render_document(usize::MAX / 2, &nested).unwrap_err(), XmlFailure::Write);
}

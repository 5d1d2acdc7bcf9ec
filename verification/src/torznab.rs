//! The Torznab side of the feed: channel metadata, feed items and the
//! categories that the indexer announces.

use crate::releases::{rfc2822_text, Moment};
use crate::text::{decimal_digits, option_text, push_decimal, string_of, text_of};
use crate::xml::{
    attribute, document_text, render_document, tag, XmlAttribute, XmlEvent,
    XmlEventView, XmlFailure,
};
use vstd::prelude::*;
use vstd::utf8::valid_utf8;

verus! {

/// An item of the feed.
#[derive(Debug, Clone)]
pub struct TorznabItem {
    pub title: String,
    pub guid: String,
    pub link: String,
    pub comments: Option<String>,
    pub published: Option<Moment>,
    pub size_bytes: u64,
    pub info_hash: Option<String>,
    pub seeders: u32,
    pub leechers: u32,
    pub categories: Vec<u32>,
}

pub struct TorznabItemView {
    pub title: Seq<char>,
    pub guid: Seq<char>,
    pub link: Seq<char>,
    pub comments: Option<Seq<char>>,
    pub published: Option<(int, int)>,
    pub size_bytes: u64,
    pub info_hash: Option<Seq<char>>,
    pub seeders: u32,
    pub leechers: u32,
    pub categories: Seq<u32>,
}

impl View for TorznabItem {
    type V = TorznabItemView;

    open spec fn view(&self) -> TorznabItemView {
        TorznabItemView {
            title: self.title@,
            guid: self.guid@,
            link: self.link@,
            comments: option_text(self.comments),
            published: crate::releases::moment_numbers(self.published),
            size_bytes: self.size_bytes,
            info_hash: option_text(self.info_hash),
            seeders: self.seeders,
            leechers: self.leechers,
            categories: self.categories@,
        }
    }
}

impl DeepView for TorznabItem {
    type V = TorznabItemView;

    open spec fn deep_view(&self) -> TorznabItemView {
        self@
    }
}

/// What the feed says of the indexer itself.
#[derive(Debug, Clone)]
pub struct ChannelMetadata {
    pub title: String,
    pub description: String,
    pub site_link: String,
}

/// A category below a top-level category.
#[derive(Debug, Clone)]
pub struct TorznabSubCategory {
    pub id: u32,
    pub name: &'static str,
}

/// A top-level category of the indexer.
#[derive(Debug, Clone)]
pub struct TorznabCategory {
    pub id: u32,
    pub name: &'static str,
    pub subcategories: &'static [TorznabSubCategory],
}

/// The id of the category for series.
pub const ANIME_CATEGORY_ID: u32 = 5000;

/// The id of the category for anime series, below the one for series.
pub const ANIME_SUBCATEGORY_ID: u32 = 5070;

/// The id of the category for movies.
pub const MOVIE_CATEGORY_ID: u32 = 2000;

/// The category for series, with the one for anime series below it.
pub fn anime_category() -> (r: TorznabCategory)
    ensures
        r.id == ANIME_CATEGORY_ID,
        r.name@ == "TV"@,
        r.subcategories@.len() == 1,
        r.subcategories@[0].id == ANIME_SUBCATEGORY_ID,
        r.subcategories@[0].name@ == "TV/Anime"@,
{
    TorznabCategory {
        id: ANIME_CATEGORY_ID,
        name: "TV",
        subcategories: &[TorznabSubCategory { id: ANIME_SUBCATEGORY_ID, name: "TV/Anime" }],
    }
}

/// The category for movies.
pub fn movie_category() -> (r: TorznabCategory)
    ensures
        r.id == MOVIE_CATEGORY_ID,
        r.name@ == "Movies"@,
        r.subcategories@.len() == 0,
{
    TorznabCategory { id: MOVIE_CATEGORY_ID, name: "Movies", subcategories: &[] }
}

/// An id that names one of the indexer's categories, top-level or below.
pub open spec fn is_supported_category(id: u32) -> bool {
    id == ANIME_CATEGORY_ID || id == ANIME_SUBCATEGORY_ID || id == MOVIE_CATEGORY_ID
}

/// The categories that the indexer announces: series first, then movies.
pub fn default_categories() -> (r: Vec<TorznabCategory>)
    ensures
        r@.len() == 2,
        r@[0].id == ANIME_CATEGORY_ID,
        r@[0].name@ == "TV"@,
        r@[0].subcategories@.len() == 1,
        r@[0].subcategories@[0].id == ANIME_SUBCATEGORY_ID,
        r@[0].subcategories@[0].name@ == "TV/Anime"@,
        r@[1].id == MOVIE_CATEGORY_ID,
        r@[1].name@ == "Movies"@,
        r@[1].subcategories@.len() == 0,
{
    let mut categories: Vec<TorznabCategory> = Vec::new();
    categories.push(anime_category());
    categories.push(movie_category());
    categories
}

/// Why a document of the indexer could not be built.
#[derive(Debug, Clone, Copy, PartialEq, Eq, Structural)]
pub enum TorznabBuildError {
    /// The document could not be written.
    Xml,
    /// What was written is not text.
    Utf8,
    /// The date of an item could not be written.
    Timestamp,
}

/// The tag that marks the items of the indexer.
pub open spec fn item_tag() -> Seq<char> {
    "internal"@
}

/// The declaration at the head of a document.
pub open spec fn declaration() -> XmlEventView {
    XmlEventView::Decl { version: "1.0"@, encoding: "UTF-8"@ }
}

/// The opening of an element.
pub open spec fn opening(name: Seq<char>, attributes: Seq<(Seq<char>, Seq<char>)>) -> XmlEventView {
    XmlEventView::Start { name, attributes }
}

/// An element without content.
pub open spec fn bare(name: Seq<char>, attributes: Seq<(Seq<char>, Seq<char>)>) -> XmlEventView {
    XmlEventView::Empty { name, attributes }
}

/// The closing of an element.
pub open spec fn closing(name: Seq<char>) -> XmlEventView {
    XmlEventView::End { name }
}

/// An element that holds a text and nothing else.
pub open spec fn text_element(name: Seq<char>, value: Seq<char>) -> Seq<XmlEventView> {
    seq![opening(name, Seq::empty()), XmlEventView::Text { text: value }, closing(name)]
}

/// A Torznab attribute of an item.
pub open spec fn torznab_attr(name: Seq<char>, value: Seq<char>) -> XmlEventView {
    bare("torznab:attr"@, seq![("name"@, name), ("value"@, value)])
}

/// The events that announce a category: an element that holds one element
/// for each category below it, or one without content where there is none.
pub open spec fn category_events(
    id: u32,
    name: Seq<char>,
    subcategories: Seq<(u32, Seq<char>)>,
) -> Seq<XmlEventView> {
    let attributes = seq![("id"@, decimal_digits(id as nat)), ("name"@, name)];
    if subcategories.len() > 0 {
        seq![opening("category"@, attributes)] + Seq::new(
            subcategories.len(),
            |i: int|
                bare(
                    "subcat"@,
                    seq![
                        ("id"@, decimal_digits(subcategories[i].0 as nat)),
                        ("name"@, subcategories[i].1),
                    ],
                ),
        ) + seq![closing("category"@)]
    } else {
        seq![bare("category"@, attributes)]
    }
}

/// The document that tells what the indexer can do.
pub open spec fn caps_document(title: Seq<char>, description: Seq<char>, version: Seq<char>) -> Seq<
    XmlEventView,
> {
    seq![
        declaration(),
        opening("caps"@, Seq::empty()),
        bare(
            "server"@,
            seq![("title"@, title), ("description"@, description), ("version"@, version)],
        ),
        bare("limits"@, seq![("default"@, "100"@), ("max"@, "100"@), ("min"@, "1"@)]),
        bare("registration"@, seq![("available"@, "no"@), ("open"@, "no"@)]),
        opening("searching"@, Seq::empty()),
        bare("search"@, seq![("available"@, "yes"@)]),
        bare("tv-search"@, seq![("available"@, "yes"@), ("supportedParams"@, "tvdbid,season"@)]),
        bare("movie-search"@, seq![("available"@, "yes"@), ("supportedParams"@, "tmdbid"@)]),
        closing("searching"@),
        opening("categories"@, Seq::empty()),
    ] + category_events(ANIME_CATEGORY_ID, "TV"@, seq![(ANIME_SUBCATEGORY_ID, "TV/Anime"@)])
        + category_events(MOVIE_CATEGORY_ID, "Movies"@, Seq::empty()) + seq![
        closing("categories"@),
        opening("tags"@, Seq::empty()),
        bare("tag"@, seq![("name"@, item_tag()), ("description"@, "Description"@)]),
        closing("tags"@),
        closing("caps"@),
    ]
}

/// The categories that an item is announced under: its own, or those of a
/// series where it has none.
pub open spec fn announced_categories(categories: Seq<u32>) -> Seq<u32> {
    if categories.len() == 0 {
        seq![ANIME_CATEGORY_ID, ANIME_SUBCATEGORY_ID]
    } else {
        categories
    }
}

/// The date of an item as the feed shows it, where the item has one.
pub open spec fn item_date(item: TorznabItemView) -> Option<Option<Seq<char>>> {
    match item.published {
        Some((unix_nanos, offset_seconds)) => Some(rfc2822_text(unix_nanos, offset_seconds)),
        None => None,
    }
}

/// The events that open the listing of an item and tell what it is; `date`
/// is the date as the feed shows it, where the item has one.
pub open spec fn item_body(item: TorznabItemView, date: Option<Seq<char>>) -> Seq<XmlEventView> {
    let size = decimal_digits(item.size_bytes as nat);
    seq![opening("item"@, Seq::empty())] + text_element("title"@, item.title) + text_element(
        "guid"@,
        item.guid,
    ) + text_element("link"@, item.link) + (match item.comments {
        Some(comments) => text_element("comments"@, comments),
        None => Seq::empty(),
    }) + (match date {
        Some(date) => text_element("pubDate"@, date),
        None => Seq::empty(),
    }) + text_element("size"@, size) + (match item.info_hash {
        Some(hash) => text_element("infohash"@, hash),
        None => Seq::empty(),
    }) + seq![
        bare(
            "enclosure"@,
            seq![("url"@, item.link), ("type"@, "application/x-bittorrent"@), ("length"@, size)],
        ),
    ]
}

/// The events that announce the categories of an item.
pub open spec fn item_categories(categories: Seq<u32>) -> Seq<XmlEventView> {
    let ids = announced_categories(categories);
    Seq::new(ids.len(), |i: int| torznab_attr("category"@, decimal_digits(ids[i] as nat)))
}

/// The events that close the listing of an item.
pub open spec fn item_tail(item: TorznabItemView) -> Seq<XmlEventView> {
    seq![
        torznab_attr("seeders"@, decimal_digits(item.seeders as nat)),
        torznab_attr("leechers"@, decimal_digits(item.leechers as nat)),
        torznab_attr("tag"@, item_tag()),
        closing("item"@),
    ]
}

/// The events that list an item; `date` is the date as the feed shows it,
/// where the item has one.
pub open spec fn item_events(item: TorznabItemView, date: Option<Seq<char>>) -> Seq<XmlEventView> {
    item_body(item, date) + item_categories(item.categories) + item_tail(item)
}

/// The events that list the items one after another, or `None` where the
/// date of one of them cannot be written.
pub open spec fn items_events(items: Seq<TorznabItemView>) -> Option<Seq<XmlEventView>>
    decreases items.len(),
{
    if items.len() == 0 {
        Some(Seq::empty())
    } else {
        match (items_events(items.drop_last()), item_date(items.last())) {
            (Some(earlier), Some(Some(date))) => Some(
                earlier + item_events(items.last(), Some(date)),
            ),
            (Some(earlier), None) => Some(earlier + item_events(items.last(), None)),
            _ => None,
        }
    }
}

/// The head of a feed: the declaration, and the channel with what it says of
/// the indexer.
pub open spec fn feed_head(title: Seq<char>, description: Seq<char>, site_link: Seq<char>) -> Seq<
    XmlEventView,
> {
    seq![
        declaration(),
        opening(
            "rss"@,
            seq![("version"@, "2.0"@), ("xmlns:torznab"@, "http://torznab.com/schemas/2015/feed"@)],
        ),
        opening("channel"@, Seq::empty()),
    ] + text_element("title"@, title) + text_element("description"@, description) + text_element(
        "link"@,
        site_link,
    )
}

/// The end of a feed.
pub open spec fn feed_tail() -> Seq<XmlEventView> {
    seq![closing("channel"@), closing("rss"@)]
}

fn push_event(out: &mut Vec<XmlEvent>, event: XmlEvent)
    ensures
        final(out).deep_view() == old(out).deep_view().push(event@),
{
    out.push(event);
    assert(final(out).deep_view() =~= old(out).deep_view().push(event@));
}

fn push_opening(out: &mut Vec<XmlEvent>, name: &str, attributes: Vec<XmlAttribute>)
    ensures
        final(out).deep_view() == old(out).deep_view().push(
            opening(name@, attributes.deep_view()),
        ),
{
    push_event(out, XmlEvent::Start(tag(name, attributes)));
}

fn push_bare(out: &mut Vec<XmlEvent>, name: &str, attributes: Vec<XmlAttribute>)
    ensures
        final(out).deep_view() == old(out).deep_view().push(bare(name@, attributes.deep_view())),
{
    push_event(out, XmlEvent::Empty(tag(name, attributes)));
}

fn push_closing(out: &mut Vec<XmlEvent>, name: &str)
    ensures
        final(out).deep_view() == old(out).deep_view().push(closing(name@)),
{
    push_event(out, XmlEvent::End(text_of(name)));
}

fn push_text_element(out: &mut Vec<XmlEvent>, name: &str, value: &str)
    ensures
        final(out).deep_view() == old(out).deep_view() + text_element(name@, value@),
{
    push_opening(out, name, no_attributes());
    push_event(out, XmlEvent::Text(text_of(value)));
    push_closing(out, name);
    assert(final(out).deep_view() =~= old(out).deep_view() + text_element(name@, value@));
}

fn no_attributes() -> (r: Vec<XmlAttribute>)
    ensures
        r.deep_view() == Seq::<(Seq<char>, Seq<char>)>::empty(),
{
    let r: Vec<XmlAttribute> = Vec::new();
    assert(r.deep_view() =~= Seq::<(Seq<char>, Seq<char>)>::empty());
    r
}

fn attributes1(n1: &str, v1: &str) -> (r: Vec<XmlAttribute>)
    ensures
        r.deep_view() == seq![(n1@, v1@)],
{
    let mut r: Vec<XmlAttribute> = Vec::new();
    r.push(attribute(n1, v1));
    assert(r.deep_view() =~= seq![(n1@, v1@)]);
    r
}

fn attributes2(n1: &str, v1: &str, n2: &str, v2: &str) -> (r: Vec<XmlAttribute>)
    ensures
        r.deep_view() == seq![(n1@, v1@), (n2@, v2@)],
{
    let mut r: Vec<XmlAttribute> = Vec::new();
    r.push(attribute(n1, v1));
    r.push(attribute(n2, v2));
    assert(r.deep_view() =~= seq![(n1@, v1@), (n2@, v2@)]);
    r
}

fn attributes3(n1: &str, v1: &str, n2: &str, v2: &str, n3: &str, v3: &str) -> (r: Vec<XmlAttribute>)
    ensures
        r.deep_view() == seq![(n1@, v1@), (n2@, v2@), (n3@, v3@)],
{
    let mut r: Vec<XmlAttribute> = Vec::new();
    r.push(attribute(n1, v1));
    r.push(attribute(n2, v2));
    r.push(attribute(n3, v3));
    assert(r.deep_view() =~= seq![(n1@, v1@), (n2@, v2@), (n3@, v3@)]);
    r
}

fn push_torznab_attr(out: &mut Vec<XmlEvent>, name: &str, value: &str)
    ensures
        final(out).deep_view() == old(out).deep_view().push(torznab_attr(name@, value@)),
{
    push_bare(out, "torznab:attr", attributes2("name", name, "value", value));
}

/// The decimal rendering of a number.
pub fn decimal_text(n: u64) -> (r: String)
    ensures
        r@ == decimal_digits(n as nat),
{
    let mut out: Vec<char> = Vec::new();
    push_decimal(&mut out, n);
    assert(out@ =~= decimal_digits(n as nat));
    string_of(&out)
}

/// The pairs of id and name of the categories below a category.
pub open spec fn subcategory_pairs(subcategories: Seq<TorznabSubCategory>) -> Seq<(u32, Seq<char>)> {
    Seq::new(subcategories.len(), |i: int| (subcategories[i].id, subcategories[i].name@))
}

fn push_category(out: &mut Vec<XmlEvent>, category: &TorznabCategory)
    ensures
        final(out).deep_view() == old(out).deep_view() + category_events(
            category.id,
            category.name@,
            subcategory_pairs(category.subcategories@),
        ),
{
    let ghost pairs = subcategory_pairs(category.subcategories@);
    let ghost before = out.deep_view();
    let id = decimal_text(category.id as u64);
    let attributes = attributes2("id", id.as_str(), "name", category.name);
    let n = category.subcategories.len();
    if n > 0 {
        push_opening(out, "category", attributes);
        let ghost opened = out.deep_view();
        let mut i: usize = 0;
        while i < n
            invariant
                i <= n == category.subcategories@.len(),
                pairs == subcategory_pairs(category.subcategories@),
                out.deep_view() == opened + Seq::new(
                    i as nat,
                    |k: int|
                        bare(
                            "subcat"@,
                            seq![("id"@, decimal_digits(pairs[k].0 as nat)), ("name"@, pairs[k].1)],
                        ),
                ),
            decreases n - i,
        {
            let sub = &category.subcategories[i];
            let sub_id = decimal_text(sub.id as u64);
            push_bare(out, "subcat", attributes2("id", sub_id.as_str(), "name", sub.name));
            assert(out.deep_view() =~= opened + Seq::new(
                (i + 1) as nat,
                |k: int|
                    bare(
                        "subcat"@,
                        seq![("id"@, decimal_digits(pairs[k].0 as nat)), ("name"@, pairs[k].1)],
                    ),
            ));
            i += 1;
        }
        push_closing(out, "category");
        assert(out.deep_view() =~= before + category_events(category.id, category.name@, pairs));
    } else {
        push_bare(out, "category", attributes);
        assert(out.deep_view() =~= before + category_events(category.id, category.name@, pairs));
    }
}

/// The events of the document that tells what the indexer can do.
pub fn caps_events(metadata: &ChannelMetadata, version: &str) -> (r: Vec<XmlEvent>)
    ensures
        r.deep_view() == caps_document(metadata.title@, metadata.description@, version@),
{
    let mut out: Vec<XmlEvent> = Vec::new();
    push_event(&mut out, XmlEvent::Decl { version: text_of("1.0"), encoding: text_of("UTF-8") });
    push_opening(&mut out, "caps", no_attributes());
    push_bare(
        &mut out,
        "server",
        attributes3(
            "title",
            metadata.title.as_str(),
            "description",
            metadata.description.as_str(),
            "version",
            version,
        ),
    );
    push_bare(&mut out, "limits", attributes3("default", "100", "max", "100", "min", "1"));
    push_bare(&mut out, "registration", attributes2("available", "no", "open", "no"));
    push_opening(&mut out, "searching", no_attributes());
    push_bare(&mut out, "search", attributes1("available", "yes"));
    push_bare(
        &mut out,
        "tv-search",
        attributes2("available", "yes", "supportedParams", "tvdbid,season"),
    );
    push_bare(
        &mut out,
        "movie-search",
        attributes2("available", "yes", "supportedParams", "tmdbid"),
    );
    push_closing(&mut out, "searching");
    push_opening(&mut out, "categories", no_attributes());
    let anime = anime_category();
    let movie = movie_category();
    assert(subcategory_pairs(anime.subcategories@) =~= seq![(ANIME_SUBCATEGORY_ID, "TV/Anime"@)]);
    assert(subcategory_pairs(movie.subcategories@) =~= Seq::<(u32, Seq<char>)>::empty());
    push_category(&mut out, &anime);
    push_category(&mut out, &movie);
    push_closing(&mut out, "categories");
    push_opening(&mut out, "tags", no_attributes());
    push_bare(&mut out, "tag", attributes2("name", "internal", "description", "Description"));
    push_closing(&mut out, "tags");
    push_closing(&mut out, "caps");
    assert(out.deep_view() =~= caps_document(metadata.title@, metadata.description@, version@));
    out
}

/// The document that tells what the indexer can do, as text.
pub fn render_caps(metadata: &ChannelMetadata, version: &str) -> (r: Result<String, TorznabBuildError>)
    ensures
        match r {
            Ok(text) => document_text(
                4,
                caps_document(metadata.title@, metadata.description@, version@),
                text@,
            ),
            Err(error) => error != TorznabBuildError::Timestamp && !exists|text: Seq<char>|
                document_text(
                    4,
                    caps_document(metadata.title@, metadata.description@, version@),
                    text,
                ),
        },
{
    let events = caps_events(metadata, version);
    match render_document(4, &events) {
        Ok(text) => Ok(text),
        Err(XmlFailure::Write) => Err(TorznabBuildError::Xml),
        Err(XmlFailure::Utf8) => Err(TorznabBuildError::Utf8),
    }
}

fn push_item_body(out: &mut Vec<XmlEvent>, item: &TorznabItem, date: &Option<String>)
    ensures
        final(out).deep_view() == old(out).deep_view() + item_body(item@, option_text(*date)),
{
    let ghost before = out.deep_view();
    let size = decimal_text(item.size_bytes);
    push_opening(out, "item", no_attributes());
    push_text_element(out, "title", item.title.as_str());
    push_text_element(out, "guid", item.guid.as_str());
    push_text_element(out, "link", item.link.as_str());
    let ghost linked = out.deep_view();
    assert(linked =~= before + seq![opening("item"@, Seq::empty())] + text_element(
        "title"@,
        item.title@,
    ) + text_element("guid"@, item.guid@) + text_element("link"@, item.link@));
    if let Some(comments) = &item.comments {
        push_text_element(out, "comments", comments.as_str());
    }
    let ghost commented = out.deep_view();
    assert(commented =~= linked + (match item@.comments {
        Some(comments) => text_element("comments"@, comments),
        None => Seq::empty(),
    }));
    if let Some(date) = date {
        push_text_element(out, "pubDate", date.as_str());
    }
    let ghost dated = out.deep_view();
    assert(dated =~= commented + (match option_text(*date) {
        Some(date) => text_element("pubDate"@, date),
        None => Seq::empty(),
    }));
    push_text_element(out, "size", size.as_str());
    let ghost sized = out.deep_view();
    if let Some(hash) = &item.info_hash {
        push_text_element(out, "infohash", hash.as_str());
    }
    let ghost hashed = out.deep_view();
    assert(hashed =~= sized + (match item@.info_hash {
        Some(hash) => text_element("infohash"@, hash),
        None => Seq::empty(),
    }));
    push_bare(
        out,
        "enclosure",
        attributes3(
            "url",
            item.link.as_str(),
            "type",
            "application/x-bittorrent",
            "length",
            size.as_str(),
        ),
    );
    assert(out.deep_view() =~= before + item_body(item@, option_text(*date)));
}

fn push_item_categories(out: &mut Vec<XmlEvent>, categories: &Vec<u32>)
    ensures
        final(out).deep_view() == old(out).deep_view() + item_categories(categories@),
{
    let ghost ids = announced_categories(categories@);
    let ghost head = out.deep_view();
    if categories.len() == 0 {
        let first = decimal_text(ANIME_CATEGORY_ID as u64);
        let second = decimal_text(ANIME_SUBCATEGORY_ID as u64);
        push_torznab_attr(out, "category", first.as_str());
        push_torznab_attr(out, "category", second.as_str());
    } else {
        let mut i: usize = 0;
        assert(out.deep_view() =~= head + Seq::new(
            0,
            |k: int| torznab_attr("category"@, decimal_digits(ids[k] as nat)),
        ));
        while i < categories.len()
            invariant
                i <= categories@.len(),
                ids == categories@,
                out.deep_view() == head + Seq::new(
                    i as nat,
                    |k: int| torznab_attr("category"@, decimal_digits(ids[k] as nat)),
                ),
            decreases categories.len() - i,
        {
            let id = decimal_text(categories[i] as u64);
            push_torznab_attr(out, "category", id.as_str());
            assert(out.deep_view() =~= head + Seq::new(
                (i + 1) as nat,
                |k: int| torznab_attr("category"@, decimal_digits(ids[k] as nat)),
            ));
            i += 1;
        }
    }
    assert(out.deep_view() =~= head + item_categories(categories@));
}

fn push_item_tail(out: &mut Vec<XmlEvent>, item: &TorznabItem)
    ensures
        final(out).deep_view() == old(out).deep_view() + item_tail(item@),
{
    let ghost before = out.deep_view();
    let seeders = decimal_text(item.seeders as u64);
    let leechers = decimal_text(item.leechers as u64);
    push_torznab_attr(out, "seeders", seeders.as_str());
    push_torznab_attr(out, "leechers", leechers.as_str());
    push_torznab_attr(out, "tag", "internal");
    push_closing(out, "item");
    assert(out.deep_view() =~= before + item_tail(item@));
}

fn push_item(out: &mut Vec<XmlEvent>, item: &TorznabItem) -> (written: bool)
    ensures
        match item_date(item@) {
            Some(None) => !written && final(out).deep_view() == old(out).deep_view(),
            Some(Some(date)) => written && final(out).deep_view() == old(out).deep_view()
                + item_events(item@, Some(date)),
            None => written && final(out).deep_view() == old(out).deep_view() + item_events(
                item@,
                None,
            ),
        },
{
    let ghost before = out.deep_view();
    let date = match item.published {
        Some(moment) => match moment.to_rfc2822() {
            Some(date) => Some(date),
            None => {
                return false;
            },
        },
        None => None,
    };
    push_item_body(out, item, &date);
    push_item_categories(out, &item.categories);
    push_item_tail(out, item);
    assert(out.deep_view() =~= before + item_events(item@, option_text(date)));
    true
}

/// The events of a feed, or `None` where the date of an item cannot be
/// written.
pub fn feed_events(metadata: &ChannelMetadata, items: &[TorznabItem]) -> (r: Option<Vec<XmlEvent>>)
    ensures
        match items_events(items.deep_view()) {
            Some(listing) => r matches Some(events) && events.deep_view() == feed_head(
                metadata.title@,
                metadata.description@,
                metadata.site_link@,
            ) + listing + feed_tail(),
            None => r is None,
        },
{
    let mut out: Vec<XmlEvent> = Vec::new();
    push_event(&mut out, XmlEvent::Decl { version: text_of("1.0"), encoding: text_of("UTF-8") });
    push_opening(
        &mut out,
        "rss",
        attributes2("version", "2.0", "xmlns:torznab", "http://torznab.com/schemas/2015/feed"),
    );
    push_opening(&mut out, "channel", no_attributes());
    push_text_element(&mut out, "title", metadata.title.as_str());
    push_text_element(&mut out, "description", metadata.description.as_str());
    push_text_element(&mut out, "link", metadata.site_link.as_str());
    let ghost head = feed_head(metadata.title@, metadata.description@, metadata.site_link@);
    assert(out.deep_view() =~= head);
    let ghost views = items.deep_view();
    let mut i: usize = 0;
    assert(views.take(0) =~= Seq::<TorznabItemView>::empty());
    assert(head + Seq::<XmlEventView>::empty() =~= head);
    while i < items.len()
        invariant
            i <= items.len(),
            views == items.deep_view(),
            items_events(views.take(i as int)) is Some,
            out.deep_view() == head + items_events(views.take(i as int)).unwrap(),
        decreases items.len() - i,
    {
        proof {
            assert(views.take(i + 1).drop_last() =~= views.take(i as int));
            assert(views.take(i + 1).last() == items@[i as int]@);
        }
        let ghost earlier = items_events(views.take(i as int)).unwrap();
        if !push_item(&mut out, &items[i]) {
            proof {
                lemma_failed_listing(views, i + 1);
            }
            return None;
        }
        assert(out.deep_view() =~= head + items_events(views.take(i + 1)).unwrap());
        i += 1;
    }
    assert(views.take(items.len() as int) =~= views);
    let ghost listing = items_events(views).unwrap();
    push_closing(&mut out, "channel");
    push_closing(&mut out, "rss");
    assert(out.deep_view() =~= head + listing + feed_tail());
    Some(out)
}

/// Once the first `k` items cannot be listed, the items cannot.
proof fn lemma_failed_listing(items: Seq<TorznabItemView>, k: int)
    requires
        0 <= k <= items.len(),
        items_events(items.take(k)) is None,
    ensures
        items_events(items) is None,
    decreases items.len() - k,
{
    if k < items.len() {
        assert(items.take(k + 1).drop_last() =~= items.take(k));
        lemma_failed_listing(items, k + 1);
    } else {
        assert(items.take(k) =~= items);
    }
}

/// The feed as text. The offset and the total of the page are not written.
pub fn render_feed(
    metadata: &ChannelMetadata,
    items: &[TorznabItem],
    _offset: usize,
    _total: usize,
) -> (r: Result<String, TorznabBuildError>)
    ensures
        match items_events(items.deep_view()) {
            None => r == Err::<String, TorznabBuildError>(TorznabBuildError::Timestamp),
            Some(listing) => match r {
                Ok(text) => document_text(
                    2,
                    feed_head(metadata.title@, metadata.description@, metadata.site_link@) + listing
                        + feed_tail(),
                    text@,
                ),
                Err(error) => error != TorznabBuildError::Timestamp && !exists|text: Seq<char>|
                    document_text(
                        2,
                        feed_head(metadata.title@, metadata.description@, metadata.site_link@)
                            + listing + feed_tail(),
                        text,
                    ),
            },
        },
{
    let events = match feed_events(metadata, items) {
        Some(events) => events,
        None => {
            return Err(TorznabBuildError::Timestamp);
        },
    };
    match render_document(2, &events) {
        Ok(text) => Ok(text),
        Err(XmlFailure::Write) => Err(TorznabBuildError::Xml),
        Err(XmlFailure::Utf8) => Err(TorznabBuildError::Utf8),
    }
}

} // verus!

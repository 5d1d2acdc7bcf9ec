//! The rules of feed assembly: which candidates a feed serves, which of them
//! a page shows, what each is called and how it is listed.

use crate::anilist::{format_allowed, movie_format_allowed, AniListMedia};
use crate::mapping::{TvdbMapping, TvdbMappingView};
use crate::releases::{Torrent, TorrentView};
use crate::season::{earliest_season, min_season};
use crate::text::{
    decimal_digits, push_decimal, push_str, push_two_digit_decimal, string_of, two_digit_decimal,
};
use crate::torznab::{
    TorznabItem, TorznabItemView, ANIME_CATEGORY_ID, ANIME_SUBCATEGORY_ID, MOVIE_CATEGORY_ID,
};
use std::collections::HashMap;
use vstd::prelude::*;

verus! {

broadcast use vstd::std_specs::hash::group_hash_axioms;

/// The number of items that a page may hold: what the request asks for, or
/// the default where it asks for none; at least one, and no more than the
/// default.
pub open spec fn page_limit(requested: Option<usize>, default_limit: usize) -> usize {
    let asked = match requested {
        Some(n) => n,
        None => default_limit,
    };
    let raised = if asked < 1 {
        1
    } else {
        asked
    };
    if raised < default_limit {
        raised
    } else {
        default_limit
    }
}

/// Settles the number of items that a page may hold.
pub fn effective_limit(requested: Option<usize>, default_limit: usize) -> (r: usize)
    ensures
        r == page_limit(requested, default_limit),
        r <= default_limit,
{
    let asked = match requested {
        Some(n) => n,
        None => default_limit,
    };
    let raised = if asked < 1 {
        1
    } else {
        asked
    };
    if raised < default_limit {
        raised
    } else {
        default_limit
    }
}

/// The number of candidates to ask the release source for, so that the page
/// at `offset` can be filled: `offset + limit`, but no more than the default.
pub fn fetch_limit(offset: usize, limit: usize, default_limit: usize) -> (r: usize)
    ensures
        r == (if offset + limit < default_limit {
            (offset + limit) as usize
        } else {
            default_limit
        }),
{
    let wanted = offset.saturating_add(limit);
    if wanted < default_limit {
        wanted
    } else {
        default_limit
    }
}

/// The page of `all` that starts at `offset` and holds `limit` elements, or
/// as many as are left.
pub open spec fn page_of<T>(all: Seq<T>, offset: nat, limit: nat) -> Seq<T> {
    if offset >= all.len() {
        Seq::empty()
    } else if offset + limit >= all.len() {
        all.skip(offset as int)
    } else {
        all.subrange(offset as int, (offset + limit) as int)
    }
}

/// A page holds no more than its limit, and what it holds are the elements
/// that follow the first `offset`, in their order. Past the end it holds
/// nothing, whatever the number of elements.
pub proof fn lemma_page_of<T>(all: Seq<T>, offset: nat, limit: nat)
    ensures
        page_of(all, offset, limit).len() <= limit,
        page_of(all, offset, limit).len() <= all.len(),
        offset >= all.len() ==> page_of(all, offset, limit).len() == 0,
        offset < all.len() ==> page_of(all, offset, limit).len() == (if offset + limit >= all.len() {
            all.len() - offset
        } else {
            limit as int
        }),
        forall|k: int|
            0 <= k < page_of(all, offset, limit).len() ==> #[trigger] page_of(all, offset, limit)[k]
                == all[offset + k],
{
}

/// Whether a feed serves a candidate, given the formats known: the format of
/// the candidate's AniList id is known, and it is a movie, or a series of
/// which the candidate bundles more than one file.
pub open spec fn is_eligible(torrent: TorrentView, media: Map<i64, AniListMedia>) -> bool {
    match torrent.anilist_id {
        Some(id) => media.contains_key(id) && (media[id].format.is_movie() || (
        media[id].format.is_series() && torrent.files.len() > 1)),
        None => false,
    }
}

/// The candidates that a feed serves, in their order.
pub open spec fn eligible(torrents: Seq<TorrentView>, media: Map<i64, AniListMedia>) -> Seq<
    TorrentView,
>
    decreases torrents.len(),
{
    if torrents.len() == 0 {
        Seq::empty()
    } else {
        let earlier = eligible(torrents.drop_last(), media);
        if is_eligible(torrents.last(), media) {
            earlier.push(torrents.last())
        } else {
            earlier
        }
    }
}

/// The candidates that a feed serves are candidates that it was given, each
/// of which it serves; there are no more of them than were given.
pub proof fn lemma_eligible_are_served(torrents: Seq<TorrentView>, media: Map<i64, AniListMedia>)
    ensures
        eligible(torrents, media).len() <= torrents.len(),
        forall|k: int|
            0 <= k < eligible(torrents, media).len() ==> is_eligible(
                #[trigger] eligible(torrents, media)[k],
                media,
            ) && torrents.contains(eligible(torrents, media)[k]),
    decreases torrents.len(),
{
    if torrents.len() > 0 {
        let front = torrents.drop_last();
        lemma_eligible_are_served(front, media);
        let earlier = eligible(front, media);
        assert forall|k: int| 0 <= k < eligible(torrents, media).len() implies is_eligible(
            #[trigger] eligible(torrents, media)[k],
            media,
        ) && torrents.contains(eligible(torrents, media)[k]) by {
            if k < earlier.len() {
                assert(eligible(torrents, media)[k] == earlier[k]);
                assert(front.contains(earlier[k]));
                let w = choose|w: int| 0 <= w < front.len() && front[w] == earlier[k];
                assert(torrents[w] == earlier[k]);
            } else {
                assert(torrents[torrents.len() - 1] == eligible(torrents, media)[k]);
            }
        }
    }
}

/// Tells whether a feed serves a candidate.
pub fn torrent_is_eligible(torrent: &Torrent, media: &HashMap<i64, AniListMedia>) -> (r: bool)
    ensures
        r == is_eligible(torrent@, media@),
{
    match torrent.anilist_id {
        Some(id) => match media.get(&id) {
            Some(entry) => {
                if movie_format_allowed(&entry.format) {
                    true
                } else if format_allowed(&entry.format) {
                    torrent.files.len() > 1
                } else {
                    false
                }
            },
            None => false,
        },
        None => false,
    }
}

/// A candidate bundles more than one file: a season pack.
pub open spec fn is_pack(torrent: TorrentView) -> bool {
    torrent.files.len() > 1
}

/// The season packs among the candidates, in their order.
pub open spec fn packs(torrents: Seq<TorrentView>) -> Seq<TorrentView>
    decreases torrents.len(),
{
    if torrents.len() == 0 {
        Seq::empty()
    } else {
        let earlier = packs(torrents.drop_last());
        if is_pack(torrents.last()) {
            earlier.push(torrents.last())
        } else {
            earlier
        }
    }
}

/// The title of a series feed: the series' title, the season in two digits
/// or more, and the marks of the release.
pub open spec fn series_feed_title(series_title: Seq<char>, season: u32) -> Seq<char> {
    series_title + " S"@ + two_digit_decimal(season as nat) + " Bluray 1080p remux"@
}

/// The title of a movie feed: the movie's title, its year in brackets where
/// the year is known, and the marks of the release.
pub open spec fn movie_feed_title(title: Seq<char>, year: u32) -> Seq<char> {
    if year == 0 {
        title + " Bluray 1080p remux"@
    } else {
        title + " ("@ + decimal_digits(year as nat) + ") Bluray 1080p remux"@
    }
}

/// The title of a candidate of which no better one is known.
pub open spec fn placeholder_title(id: Seq<char>) -> Seq<char> {
    "Torrent "@ + id
}

/// Writes the title of a series feed.
pub fn format_series_feed_title(series_title: &str, season: u32) -> (r: String)
    ensures
        r@ == series_feed_title(series_title@, season),
{
    let mut out: Vec<char> = Vec::new();
    push_str(&mut out, series_title);
    push_str(&mut out, " S");
    push_two_digit_decimal(&mut out, season as u64);
    push_str(&mut out, " Bluray 1080p remux");
    assert(out@ =~= series_feed_title(series_title@, season));
    string_of(&out)
}

/// Writes the title of a movie feed.
pub fn format_movie_feed_title(title: &str, year: u32) -> (r: String)
    ensures
        r@ == movie_feed_title(title@, year),
{
    let mut out: Vec<char> = Vec::new();
    push_str(&mut out, title);
    if year == 0 {
        push_str(&mut out, " Bluray 1080p remux");
    } else {
        push_str(&mut out, " (");
        push_decimal(&mut out, year as u64);
        push_str(&mut out, ") Bluray 1080p remux");
    }
    assert(out@ =~= movie_feed_title(title@, year));
    string_of(&out)
}

/// Writes the title of a candidate of which no better one is known.
pub fn default_torrent_title(id: &str) -> (r: String)
    ensures
        r@ == placeholder_title(id@),
{
    let mut out: Vec<char> = Vec::new();
    push_str(&mut out, "Torrent ");
    push_str(&mut out, id);
    assert(out@ =~= placeholder_title(id@));
    string_of(&out)
}

/// The categories under which a series is listed.
pub fn tv_category_ids() -> (r: Vec<u32>)
    ensures
        r@ == seq![ANIME_CATEGORY_ID, ANIME_SUBCATEGORY_ID],
{
    let mut ids: Vec<u32> = Vec::new();
    ids.push(ANIME_CATEGORY_ID);
    ids.push(ANIME_SUBCATEGORY_ID);
    assert(ids@ =~= seq![ANIME_CATEGORY_ID, ANIME_SUBCATEGORY_ID]);
    ids
}

/// The categories under which a movie is listed.
pub fn movie_category_ids() -> (r: Vec<u32>)
    ensures
        r@ == seq![MOVIE_CATEGORY_ID],
{
    let mut ids: Vec<u32> = Vec::new();
    ids.push(MOVIE_CATEGORY_ID);
    assert(ids@ =~= seq![MOVIE_CATEGORY_ID]);
    ids
}

/// The number of seeders announced for the best release of an entry.
pub const BEST_SEEDERS: u32 = 1000;

/// The number of seeders announced for any other release.
pub const OTHER_SEEDERS: u32 = 100;

/// The item that lists a candidate under a title and categories. The best
/// release of an entry is announced with more seeders than the others; the
/// page of the torrent is given as comments where it is known.
pub open spec fn item_of(torrent: TorrentView, title: Seq<char>, categories: Seq<u32>) -> TorznabItemView {
    TorznabItemView {
        title,
        guid: torrent.id,
        link: torrent.download_url,
        comments: if torrent.source_url.len() == 0 {
            None
        } else {
            Some(torrent.source_url)
        },
        published: torrent.published,
        size_bytes: torrent.size_bytes,
        info_hash: torrent.info_hash,
        seeders: if torrent.is_best {
            BEST_SEEDERS
        } else {
            OTHER_SEEDERS
        },
        leechers: 0,
        categories,
    }
}

/// Makes the item that lists a candidate.
pub fn build_torznab_item(torrent: Torrent, title: String, categories: Vec<u32>) -> (r: TorznabItem)
    ensures
        r@ == item_of(torrent@, title@, categories@),
{
    let Torrent {
        id,
        download_url,
        source_url,
        info_hash,
        published,
        files: _,
        size_bytes,
        is_best,
        anilist_id: _,
    } = torrent;
    let seeders = if is_best {
        BEST_SEEDERS
    } else {
        OTHER_SEEDERS
    };
    let comments = if source_url.as_str().is_empty() {
        None
    } else {
        Some(source_url)
    };
    TorznabItem {
        title,
        guid: id,
        link: download_url,
        comments,
        published,
        size_bytes,
        info_hash,
        seeders,
        leechers: 0,
        categories,
    }
}

/// Mapping `k` is the one that names a series for display: it names a
/// season, none names an earlier one, and all before it that name a season
/// name a later one.
pub open spec fn is_display_mapping(mappings: Seq<TvdbMappingView>, k: int) -> bool {
    &&& 0 <= k < mappings.len()
    &&& min_season(mappings[k].seasons) is Some
    &&& forall|j: int|
        0 <= j < mappings.len() ==> match min_season((#[trigger] mappings[j]).seasons) {
            Some(other) => min_season(mappings[k].seasons).unwrap() <= other,
            None => true,
        }
    &&& forall|j: int|
        0 <= j < k ==> match min_season((#[trigger] mappings[j]).seasons) {
            Some(other) => min_season(mappings[k].seasons).unwrap() < other,
            None => true,
        }
}

/// At most one mapping names a series for display.
pub proof fn lemma_display_mapping_unique(mappings: Seq<TvdbMappingView>, a: int, b: int)
    requires
        is_display_mapping(mappings, a),
        is_display_mapping(mappings, b),
    ensures
        a == b,
{
    if a < b {
        assert(min_season(mappings[a].seasons) is Some);
    } else if b < a {
        assert(min_season(mappings[b].seasons) is Some);
    }
}

/// Picks the TVDB id and season under which a candidate is shown: those of
/// the mapping with the earliest season, the first such mapping where several
/// share it. Mappings that name no season do not count.
pub fn select_tvdb_and_season(mappings: &[TvdbMapping]) -> (r: Option<(i64, u32)>)
    ensures
        match r {
            Some((tvdb_id, season)) => exists|k: int|
                is_display_mapping(mappings.deep_view(), k) && (#[trigger] mappings.deep_view()[k]).tvdb_id
                    == tvdb_id && min_season(mappings.deep_view()[k].seasons) == Some(season),
            None => forall|k: int|
                0 <= k < mappings.deep_view().len() ==> min_season(
                    (#[trigger] mappings.deep_view()[k]).seasons,
                ) is None,
        },
{
    let ghost views = mappings.deep_view();
    let mut best: Option<(usize, u32)> = None;
    let mut i: usize = 0;
    while i < mappings.len()
        invariant
            i <= mappings.len(),
            views == mappings.deep_view(),
            match best {
                Some((at, season)) => {
                    &&& at < i
                    &&& min_season(views[at as int].seasons) == Some(season)
                    &&& forall|j: int|
                        0 <= j < i ==> match min_season((#[trigger] views[j]).seasons) {
                            Some(other) => season <= other,
                            None => true,
                        }
                    &&& forall|j: int|
                        0 <= j < at ==> match min_season((#[trigger] views[j]).seasons) {
                            Some(other) => season < other,
                            None => true,
                        }
                },
                None => forall|j: int| 0 <= j < i ==> min_season((#[trigger] views[j]).seasons) is None,
            },
        decreases mappings.len() - i,
    {
        let found = earliest_season(&mappings[i].seasons);
        assert(views[i as int].seasons == mappings@[i as int].seasons.deep_view());
        if let Some(season) = found {
            let better = match best {
                Some((_, current)) => season < current,
                None => true,
            };
            if better {
                best = Some((i, season));
            }
        }
        i += 1;
    }
    match best {
        Some((at, season)) => {
            assert(is_display_mapping(views, at as int));
            assert(views[at as int].tvdb_id == mappings@[at as int].tvdb_id);
            Some((mappings[at].tvdb_id, season))
        },
        None => None,
    }
}

} // verus!

//! The release source: the torrents it lists, and what its answers amount
//! to.

use crate::text::{
    all_digits, char_is_digit, chars_of, decimal_digits, find_chars, first_occurrence, joined,
    lemma_precedes_total, lemma_precedes_transitive, option_text, push_decimal,
    push_signed_decimal, push_str, same_text, signed_decimal, string_of, subrange_of, text_before,
    text_of, text_precedes,
};
use crate::weburl::{request_address, request_url, QueryPair};
use vstd::prelude::*;

verus! {

/// A point in time with the offset from UTC under which it was written.
#[derive(Debug, Clone, Copy, PartialEq, Eq, Structural)]
pub struct Moment {
    /// Nanoseconds since the Unix epoch.
    pub unix_nanos: i128,
    /// The offset from UTC, in seconds.
    pub offset_seconds: i32,
}

/// The moment that `time::OffsetDateTime::parse` reads from a text in the
/// format of RFC 3339, as nanoseconds since the Unix epoch and the offset from
/// UTC in seconds; `None` where the text is not in that format.
pub uninterp spec fn rfc3339_moment(text: Seq<char>) -> Option<(int, int)>;

/// Reads a moment written in the format of RFC 3339. Wraps
/// `time::OffsetDateTime::parse` with the `Rfc3339` description; the moment
/// comes back as its `unix_timestamp_nanos` and the `whole_seconds` of its
/// offset. The contract names the moment read, and claims no more of it than
/// that it depends on the text alone.
#[verifier::external_body]
fn parse_rfc3339(text: &str) -> (r: Option<Moment>)
    ensures
        match r {
            Some(moment) => rfc3339_moment(text@) == Some(
                (moment.unix_nanos as int, moment.offset_seconds as int),
            ),
            None => rfc3339_moment(text@) is None,
        },
{
    let format = time::format_description::well_known::Rfc3339;
    let parsed = time::OffsetDateTime::parse(text, &format).ok()?;
    Some(
        Moment {
            unix_nanos: parsed.unix_timestamp_nanos(),
            offset_seconds: parsed.offset().whole_seconds(),
        },
    )
}

/// The text that `time::OffsetDateTime::format` writes in the format of RFC
/// 2822 for the moment that lies `unix_nanos` nanoseconds after the Unix
/// epoch, seen under the offset of `offset_seconds` seconds from UTC; `None`
/// where there is no such moment or offset, or the format cannot write it.
pub uninterp spec fn rfc2822_text(unix_nanos: int, offset_seconds: int) -> Option<Seq<char>>;

/// Writes a moment in the format of RFC 2822. Wraps
/// `time::OffsetDateTime::format` with the `Rfc2822` description, on the
/// moment that `from_unix_timestamp_nanos` and `checked_to_offset` make of
/// the two numbers. The contract names the text written, and claims no more
/// of it than that it depends on the two numbers alone.
#[verifier::external_body]
fn format_rfc2822(moment: Moment) -> (r: Option<String>)
    ensures
        option_text(r) == rfc2822_text(moment.unix_nanos as int, moment.offset_seconds as int),
{
    let offset = time::UtcOffset::from_whole_seconds(moment.offset_seconds).ok()?;
    let utc = time::OffsetDateTime::from_unix_timestamp_nanos(moment.unix_nanos).ok()?;
    let format = time::format_description::well_known::Rfc2822;
    utc.checked_to_offset(offset)?.format(&format).ok()
}

impl Moment {
    /// The moment as the date of a feed item.
    pub fn to_rfc2822(&self) -> (r: Option<String>)
        ensures
            option_text(r) == rfc2822_text(self.unix_nanos as int, self.offset_seconds as int),
    {
        format_rfc2822(*self)
    }
}

/// A timestamp brought nearer to RFC 3339: each space becomes a `T`, and a
/// `Z` is added at the end where there is none.
pub open spec fn normalized_timestamp(text: Seq<char>) -> Seq<char> {
    let spaced = Seq::new(
        text.len(),
        |i: int|
            if text[i] == ' ' {
                'T'
            } else {
                text[i]
            },
    );
    if spaced.len() > 0 && spaced.last() == 'Z' {
        spaced
    } else {
        spaced.push('Z')
    }
}

/// The moment that a timestamp of the release source means: what it reads
/// as in the format of RFC 3339, as it stands or else once normalized.
pub open spec fn timestamp_moment(text: Seq<char>) -> Option<(int, int)> {
    match rfc3339_moment(text) {
        Some(moment) => Some(moment),
        None => rfc3339_moment(normalized_timestamp(text)),
    }
}

/// A moment as the pair of its numbers.
pub open spec fn moment_numbers(moment: Option<Moment>) -> Option<(int, int)> {
    match moment {
        Some(moment) => Some((moment.unix_nanos as int, moment.offset_seconds as int)),
        None => None,
    }
}

/// What a timestamp means once it has been read as it stands, with `direct`
/// the outcome of that reading, and, where that failed, once normalized, with
/// `normalized` the outcome of that.
pub fn timestamp_from_readings(direct: Option<Moment>, normalized: Option<Moment>) -> (r: Option<
    Moment,
>)
    ensures
        r == match direct {
            Some(moment) => Some(moment),
            None => normalized,
        },
{
    match direct {
        Some(moment) => Some(moment),
        None => normalized,
    }
}

/// Reads a timestamp of the release source.
pub fn parse_timestamp(value: &str) -> (r: Option<Moment>)
    ensures
        moment_numbers(r) == timestamp_moment(value@),
{
    let direct = parse_rfc3339(value);
    if direct.is_some() {
        return timestamp_from_readings(direct, None);
    }
    let chars = chars_of(value);
    let mut normalized: Vec<char> = Vec::new();
    let mut i: usize = 0;
    while i < chars.len()
        invariant
            i <= chars.len(),
            normalized@.len() == i,
            forall|j: int|
                0 <= j < i ==> normalized@[j] == (if chars@[j] == ' ' {
                    'T'
                } else {
                    chars@[j]
                }),
        decreases chars.len() - i,
    {
        let c = chars[i];
        normalized.push(
            if c == ' ' {
                'T'
            } else {
                c
            },
        );
        i += 1;
    }
    let n = normalized.len();
    if n == 0 || normalized[n - 1] != 'Z' {
        normalized.push('Z');
    }
    assert(normalized@ =~= normalized_timestamp(value@));
    let text = string_of(&normalized);
    timestamp_from_readings(direct, parse_rfc3339(text.as_str()))
}

/// A file of a torrent.
#[derive(Debug, Clone)]
pub struct TorrentFile {
    pub length: u64,
    pub name: String,
}

pub struct TorrentFileView {
    pub length: u64,
    pub name: Seq<char>,
}

impl View for TorrentFile {
    type V = TorrentFileView;

    open spec fn view(&self) -> TorrentFileView {
        TorrentFileView { length: self.length, name: self.name@ }
    }
}

impl DeepView for TorrentFile {
    type V = TorrentFileView;

    open spec fn deep_view(&self) -> TorrentFileView {
        self@
    }
}

/// A torrent as the release source lists it.
#[derive(Debug, Clone)]
pub struct TorrentRecord {
    pub id: String,
    pub url: String,
    pub info_hash: Option<String>,
    pub created: Option<String>,
    pub updated: Option<String>,
    pub is_best: bool,
    pub tracker: String,
    pub files: Vec<TorrentFile>,
}

/// A torrent as a candidate for the feed.
#[derive(Debug, Clone)]
pub struct Torrent {
    pub id: String,
    pub download_url: String,
    pub source_url: String,
    pub info_hash: Option<String>,
    pub published: Option<Moment>,
    pub files: Vec<TorrentFile>,
    pub size_bytes: u64,
    pub is_best: bool,
    pub anilist_id: Option<i64>,
}

pub struct TorrentView {
    pub id: Seq<char>,
    pub download_url: Seq<char>,
    pub source_url: Seq<char>,
    pub info_hash: Option<Seq<char>>,
    pub published: Option<(int, int)>,
    pub files: Seq<TorrentFileView>,
    pub size_bytes: u64,
    pub is_best: bool,
    pub anilist_id: Option<i64>,
}

impl View for Torrent {
    type V = TorrentView;

    open spec fn view(&self) -> TorrentView {
        TorrentView {
            id: self.id@,
            download_url: self.download_url@,
            source_url: self.source_url@,
            info_hash: option_text(self.info_hash),
            published: moment_numbers(self.published),
            files: self.files.deep_view(),
            size_bytes: self.size_bytes,
            is_best: self.is_best,
            anilist_id: self.anilist_id,
        }
    }
}

impl DeepView for Torrent {
    type V = TorrentView;

    open spec fn deep_view(&self) -> TorrentView {
        self@
    }
}

/// A character that ends the id in the address of a torrent's page.
pub open spec fn ends_page_id(c: char) -> bool {
    c == '?' || c == '#' || c == '/'
}

/// The end of the part of `s` that starts at `from` and runs up to the next
/// character that ends a page id, or to the end of `s`.
pub open spec fn page_id_end(s: Seq<char>, from: int) -> int
    decreases s.len() - from,
{
    if 0 <= from < s.len() && !ends_page_id(s[from]) {
        page_id_end(s, from + 1)
    } else {
        from
    }
}

/// The marker before the id in the address of a torrent's page.
pub open spec fn page_marker() -> Seq<char> {
    "/view/"@
}

/// Where the id of a torrent's page starts and ends in the address of the
/// page: after the first `/view/`, up to the next `?`, `#` or `/`, and made
/// of one decimal digit or more.
pub open spec fn nyaa_id_bounds(url: Seq<char>) -> Option<(int, int)> {
    match first_occurrence(url, page_marker(), 0) {
        Some(at) => {
            let start = at + page_marker().len();
            let end = page_id_end(url, start);
            if start < end && all_digits(url.subrange(start, end)) {
                Some((start, end))
            } else {
                None
            }
        },
        None => None,
    }
}

/// The id of a torrent's page, read from the address of the page.
pub open spec fn nyaa_id(url: Seq<char>) -> Option<Seq<char>> {
    match nyaa_id_bounds(url) {
        Some((start, end)) => Some(url.subrange(start, end)),
        None => None,
    }
}

/// The address from which the torrent of a page is downloaded.
pub open spec fn download_address(url: Seq<char>) -> Option<Seq<char>> {
    match nyaa_id(url) {
        Some(id) => Some("https://nyaa.si/download/"@ + id + ".torrent"@),
        None => None,
    }
}

proof fn lemma_page_id_end(s: Seq<char>, from: int)
    requires
        0 <= from <= s.len(),
    ensures
        from <= page_id_end(s, from) <= s.len(),
    decreases s.len() - from,
{
    if from < s.len() && !ends_page_id(s[from]) {
        lemma_page_id_end(s, from + 1);
    }
}

/// Reads the id of a torrent's page from the address of the page.
pub fn extract_nyaa_id(url: &str) -> (r: Option<String>)
    ensures
        option_text(r) == nyaa_id(url@),
{
    let chars = chars_of(url);
    let marker = chars_of("/view/");
    let at = match find_chars(&chars, &marker) {
        Some(at) => at,
        None => {
            return None;
        },
    };
    let n = chars.len();
    let start = at + marker.len();
    let mut end: usize = start;
    let mut digits = true;
    assert(all_digits(chars@.subrange(start as int, start as int)));
    while end < n && !(chars[end] == '?' || chars[end] == '#' || chars[end] == '/')
        invariant
            start <= end <= n == chars.len(),
            page_id_end(chars@, start as int) == page_id_end(chars@, end as int),
            digits == all_digits(chars@.subrange(start as int, end as int)),
        decreases n - end,
    {
        let ghost before = chars@.subrange(start as int, end as int);
        if !char_is_digit(chars[end]) {
            digits = false;
        }
        proof {
            let after = chars@.subrange(start as int, end + 1);
            assert(after =~= before.push(chars@[end as int]));
            if all_digits(before) && crate::text::is_digit(chars@[end as int]) {
                assert(all_digits(after));
            }
            if all_digits(after) {
                assert(crate::text::is_digit(after[end - start]));
                assert forall|j: int| 0 <= j < before.len() implies crate::text::is_digit(
                    #[trigger] before[j],
                ) by {
                    assert(after[j] == before[j]);
                }
            }
        }
        end += 1;
    }
    if start < end && digits {
        Some(string_of(&subrange_of(&chars, start, end)))
    } else {
        None
    }
}

/// The address from which a listed torrent is downloaded, where the address
/// of its page tells the id of the page.
pub fn rewritten_download_url(record: &TorrentRecord) -> (r: Option<String>)
    ensures
        option_text(r) == download_address(record.url@),
{
    match extract_nyaa_id(record.url.as_str()) {
        Some(id) => {
            let mut out: Vec<char> = Vec::new();
            push_str(&mut out, "https://nyaa.si/download/");
            push_str(&mut out, id.as_str());
            push_str(&mut out, ".torrent");
            Some(string_of(&out))
        },
        None => None,
    }
}

/// The lengths of the files, added up.
pub open spec fn total_length(files: Seq<TorrentFileView>) -> nat
    decreases files.len(),
{
    if files.len() == 0 {
        0
    } else {
        total_length(files.drop_last()) + files.last().length as nat
    }
}

/// The moment at which a listed torrent was published: that of its last
/// update where that can be read, else that of its creation.
pub open spec fn published_moment(record: TorrentRecord) -> Option<(int, int)> {
    let updated = match record.updated {
        Some(text) => timestamp_moment(text@),
        None => None,
    };
    match updated {
        Some(moment) => Some(moment),
        None => match record.created {
            Some(text) => timestamp_moment(text@),
            None => None,
        },
    }
}

/// The candidate that a listed torrent makes. It is downloaded from the
/// address that the id of its page gives, or else from the address listed;
/// its size is the sum of the lengths of its files, as far as 64 bits hold
/// it.
pub open spec fn torrent_of(record: TorrentRecord, anilist_id: Option<i64>) -> TorrentView {
    TorrentView {
        id: record.id@,
        download_url: match download_address(record.url@) {
            Some(address) => address,
            None => record.url@,
        },
        source_url: record.url@,
        info_hash: option_text(record.info_hash),
        published: published_moment(record),
        files: record.files.deep_view(),
        size_bytes: (total_length(record.files.deep_view()) % 0x1_0000_0000_0000_0000) as u64,
        is_best: record.is_best,
        anilist_id,
    }
}

/// Copies a text that may be absent.
pub fn clone_option_text(text: &Option<String>) -> (r: Option<String>)
    ensures
        option_text(r) == option_text(*text),
{
    match text {
        Some(text) => Some(text.clone()),
        None => None,
    }
}

/// Copies a list of files.
pub fn clone_files(files: &Vec<TorrentFile>) -> (r: Vec<TorrentFile>)
    ensures
        r.deep_view() == files.deep_view(),
{
    let mut copy: Vec<TorrentFile> = Vec::new();
    let mut i: usize = 0;
    while i < files.len()
        invariant
            i <= files.len(),
            copy@.len() == i,
            forall|j: int| 0 <= j < i ==> (#[trigger] copy@[j])@ == files@[j]@,
        decreases files.len() - i,
    {
        copy.push(TorrentFile { length: files[i].length, name: files[i].name.clone() });
        i += 1;
    }
    assert(copy.deep_view() =~= files.deep_view());
    copy
}

/// Adds up the lengths of the files.
pub fn sum_lengths(files: &Vec<TorrentFile>) -> (r: u64)
    ensures
        r == (total_length(files.deep_view()) % 0x1_0000_0000_0000_0000) as u64,
{
    let mut total: u128 = 0;
    let mut i: usize = 0;
    while i < files.len()
        invariant
            i <= files.len(),
            total == total_length(files.deep_view().take(i as int)),
            total <= i * 0xffff_ffff_ffff_ffff,
        decreases files.len() - i,
    {
        proof {
            assert(files.deep_view().take(i + 1).drop_last() =~= files.deep_view().take(i as int));
            assert(files.deep_view().take(i + 1).last().length == files@[i as int].length);
            assert((i + 1) * 0xffff_ffff_ffff_ffff == i * 0xffff_ffff_ffff_ffff
                + 0xffff_ffff_ffff_ffff) by (nonlinear_arith);
            assert(i * 0xffff_ffff_ffff_ffff <= 0xffff_ffff_ffff_ffff * 0xffff_ffff_ffff_ffff)
                by (nonlinear_arith)
                requires
                    i <= 0xffff_ffff_ffff_ffff,
            ;
        }
        total = total + files[i].length as u128;
        i += 1;
    }
    assert(files.deep_view().take(files.len() as int) =~= files.deep_view());
    (total % 0x1_0000_0000_0000_0000) as u64
}

impl Torrent {
    /// Makes a candidate of a listed torrent.
    pub fn from_record(record: &TorrentRecord, anilist_id: Option<i64>) -> (r: Torrent)
        ensures
            r@ == torrent_of(*record, anilist_id),
    {
        let download_url = match rewritten_download_url(record) {
            Some(address) => address,
            None => record.url.clone(),
        };
        let updated = match &record.updated {
            Some(text) => parse_timestamp(text.as_str()),
            None => None,
        };
        let published = match updated {
            Some(moment) => Some(moment),
            None => match &record.created {
                Some(text) => parse_timestamp(text.as_str()),
                None => None,
            },
        };
        Torrent {
            id: record.id.clone(),
            download_url,
            source_url: record.url.clone(),
            info_hash: clone_option_text(&record.info_hash),
            published,
            files: clone_files(&record.files),
            size_bytes: sum_lengths(&record.files),
            is_best: record.is_best,
            anilist_id,
        }
    }
}

/// The torrents listed under an entry of the release source.
#[derive(Debug, Clone)]
pub struct EntryExpand {
    pub trs: Vec<TorrentRecord>,
}

/// An entry of the release source: an AniList id with the torrents listed
/// for it.
#[derive(Debug, Clone)]
pub struct EntryRecord {
    pub al_id: Option<i64>,
    pub expand: Option<EntryExpand>,
}

/// A page of entries.
#[derive(Debug, Clone)]
pub struct EntriesResponse {
    pub items: Vec<EntryRecord>,
}

/// A page of torrents.
#[derive(Debug, Clone)]
pub struct TorrentsResponse {
    pub items: Vec<TorrentRecord>,
}

/// Why the release source could not be asked.
#[derive(Debug, Clone, Copy, PartialEq, Eq, Structural)]
pub enum ReleasesError {
    /// The address of the request could not be built.
    Url,
    /// The request did not go through, or was answered with an error status.
    Http,
    /// The answer could not be read.
    Deserialisation,
}

/// How a request for entries ended.
#[derive(Debug, Clone)]
pub enum EntriesOutcome {
    Unreachable,
    Undecodable,
    Answer(EntriesResponse),
}

/// How a request for torrents ended.
#[derive(Debug, Clone)]
pub enum TorrentsOutcome {
    Unreachable,
    Undecodable,
    Answer(TorrentsResponse),
}

/// A torrent listed under an entry, with the AniList id of the entry.
pub struct ListedTorrent {
    pub al_id: Option<i64>,
    pub record: TorrentRecord,
}

/// The torrents listed under one entry, in their order.
pub open spec fn listed_under(entry: EntryRecord) -> Seq<ListedTorrent> {
    match entry.expand {
        Some(expand) => Seq::new(
            expand.trs@.len(),
            |i: int| ListedTorrent { al_id: entry.al_id, record: expand.trs@[i] },
        ),
        None => Seq::empty(),
    }
}

/// The torrents listed on a page of entries, entry by entry, in their order.
pub open spec fn listed_torrents(items: Seq<EntryRecord>) -> Seq<ListedTorrent>
    decreases items.len(),
{
    if items.len() == 0 {
        Seq::empty()
    } else {
        listed_torrents(items.drop_last()) + listed_under(items.last())
    }
}

/// The tracker whose torrents are served.
pub open spec fn served_tracker() -> Seq<char> {
    "Nyaa"@
}

/// A listed torrent that a search serves: the address of its page tells the
/// id of the page, and it is on the tracker that is served.
pub open spec fn is_hit(record: TorrentRecord) -> bool {
    download_address(record.url@) is Some && record.tracker@ == served_tracker()
}

/// The candidates that the listed torrents make, in their order.
pub open spec fn hits(listed: Seq<ListedTorrent>) -> Seq<TorrentView>
    decreases listed.len(),
{
    if listed.len() == 0 {
        Seq::empty()
    } else {
        let earlier = hits(listed.drop_last());
        if is_hit(listed.last().record) {
            earlier.push(torrent_of(listed.last().record, listed.last().al_id))
        } else {
            earlier
        }
    }
}

/// The first `limit` elements, or all where there are fewer.
pub open spec fn at_most<T>(all: Seq<T>, limit: nat) -> Seq<T> {
    if limit < all.len() {
        all.take(limit as int)
    } else {
        all
    }
}

/// The result of a search: the first `limit` candidates of the page.
pub open spec fn search_result(items: Seq<EntryRecord>, limit: nat) -> Seq<TorrentView> {
    at_most(hits(listed_torrents(items)), limit)
}

/// The candidates that a page of torrents makes: one for each, in their
/// order, none with an AniList id.
pub open spec fn recent_result(items: Seq<TorrentRecord>) -> Seq<TorrentView> {
    Seq::new(items.len(), |i: int| torrent_of(items[i], None))
}

/// The candidates that a page of entries makes, all of them.
pub fn collect_hits(items: &Vec<EntryRecord>) -> (r: Vec<Torrent>)
    ensures
        r.deep_view() == hits(listed_torrents(items@)),
{
    let mut found: Vec<Torrent> = Vec::new();
    let mut i: usize = 0;
    assert(found.deep_view() =~= hits(listed_torrents(items@.take(0))));
    while i < items.len()
        invariant
            i <= items.len(),
            found.deep_view() == hits(listed_torrents(items@.take(i as int))),
        decreases items.len() - i,
    {
        let entry = &items[i];
        let ghost before = listed_torrents(items@.take(i as int));
        proof {
            assert(items@.take(i + 1).drop_last() =~= items@.take(i as int));
            assert(items@.take(i + 1).last() == items@[i as int]);
        }
        if let Some(expand) = &entry.expand {
            let mut j: usize = 0;
            assert(before + listed_under(*entry).take(0) =~= before);
            while j < expand.trs.len()
                invariant
                    j <= expand.trs.len(),
                    entry.expand == Some(*expand),
                    found.deep_view() == hits(before + listed_under(*entry).take(j as int)),
                decreases expand.trs.len() - j,
            {
                let record = &expand.trs[j];
                let ghost so_far = before + listed_under(*entry).take(j as int);
                let ghost next = before + listed_under(*entry).take(j + 1);
                proof {
                    assert(next.drop_last() =~= so_far);
                    assert(next.last() == ListedTorrent { al_id: entry.al_id, record: *record });
                }
                if rewritten_download_url(record).is_some() && same_text(
                    record.tracker.as_str(),
                    "Nyaa",
                ) {
                    let ghost old_found = found.deep_view();
                    let torrent = Torrent::from_record(record, entry.al_id);
                    found.push(torrent);
                    assert(found.deep_view() =~= old_found.push(torrent@));
                }
                j += 1;
            }
            assert(listed_under(*entry).take(expand.trs.len() as int) =~= listed_under(*entry));
        } else {
            assert(before + listed_under(*entry) =~= before);
        }
        i += 1;
    }
    assert(items@.take(items.len() as int) =~= items@);
    found
}

/// Keeps the first `limit` candidates.
pub fn keep_at_most(mut torrents: Vec<Torrent>, limit: usize) -> (r: Vec<Torrent>)
    ensures
        r.deep_view() == at_most(torrents.deep_view(), limit as nat),
{
    let ghost before = torrents.deep_view();
    if limit < torrents.len() {
        torrents.truncate(limit);
        assert(torrents.deep_view() =~= before.take(limit as int));
    }
    torrents
}

/// The release source as far as requests and answers go: where it is, and
/// how many torrents it is asked for at most.
#[derive(Debug, Clone)]
pub struct ReleasesClient {
    base_url: String,
    default_limit: usize,
}

/// The path under which the release source lists entries.
pub open spec fn entries_path() -> Seq<char> {
    "collections/entries/records"@
}

/// The path under which the release source lists torrents.
pub open spec fn torrents_path() -> Seq<char> {
    "collections/torrents/records"@
}

/// The smaller of two numbers.
pub open spec fn smaller(a: usize, b: usize) -> usize {
    if a < b {
        a
    } else {
        b
    }
}

/// The query of a search for the torrents of an AniList id.
pub open spec fn search_query(anilist_id: i64, per_page: usize) -> Seq<(Seq<char>, Seq<char>)> {
    seq![
        ("filter"@, "(alID="@ + signed_decimal(anilist_id as int) + ")"@),
        ("expand"@, "trs"@),
        ("page"@, "1"@),
        ("perPage"@, decimal_digits(per_page as nat)),
    ]
}

/// The query for the torrents that were updated last.
pub open spec fn recent_query(per_page: usize) -> Seq<(Seq<char>, Seq<char>)> {
    seq![
        ("filter"@, "(tracker='Nyaa')"@),
        ("sort"@, "-updated"@),
        ("page"@, "1"@),
        ("perPage"@, decimal_digits(per_page as nat)),
    ]
}

impl ReleasesClient {
    /// The address of the release source.
    pub closed spec fn base(&self) -> Seq<char> {
        self.base_url@
    }

    /// The largest number of torrents asked for in one request.
    pub closed spec fn limit(&self) -> usize {
        self.default_limit
    }

    pub fn new(base_url: String, default_limit: usize) -> (r: ReleasesClient)
        ensures
            r.base() == base_url@,
            r.limit() == default_limit,
    {
        ReleasesClient { base_url, default_limit }
    }

    /// The largest number of torrents asked for in one request.
    pub fn default_limit(&self) -> (r: usize)
        ensures
            r == self.limit(),
    {
        self.default_limit
    }

    /// The address at which the torrents of an AniList id are asked for, no
    /// more of them than `limit` or than the source is ever asked for.
    pub fn search_address(&self, anilist_id: i64, limit: usize) -> (r: Result<String, ReleasesError>)
        ensures
            match request_address(
                self.base(),
                entries_path(),
                search_query(anilist_id, smaller(limit, self.limit())),
            ) {
                Some(address) => r matches Ok(url) && url@ == address,
                None => r == Err::<String, ReleasesError>(ReleasesError::Url),
            },
    {
        let per_page = if limit < self.default_limit {
            limit
        } else {
            self.default_limit
        };
        let mut filter: Vec<char> = Vec::new();
        push_str(&mut filter, "(alID=");
        push_signed_decimal(&mut filter, anilist_id);
        push_str(&mut filter, ")");
        let mut count: Vec<char> = Vec::new();
        push_decimal(&mut count, per_page as u64);
        let mut pairs: Vec<QueryPair> = Vec::new();
        pairs.push(QueryPair { name: text_of("filter"), value: string_of(&filter) });
        pairs.push(QueryPair { name: text_of("expand"), value: text_of("trs") });
        pairs.push(QueryPair { name: text_of("page"), value: text_of("1") });
        pairs.push(QueryPair { name: text_of("perPage"), value: string_of(&count) });
        assert(pairs.deep_view() =~= search_query(anilist_id, smaller(limit, self.limit())));
        match request_url(self.base_url.as_str(), "collections/entries/records", &pairs) {
            Some(url) => Ok(url),
            None => Err(ReleasesError::Url),
        }
    }

    /// The address at which the torrents updated last are asked for.
    pub fn recent_address(&self, limit: usize) -> (r: Result<String, ReleasesError>)
        ensures
            match request_address(
                self.base(),
                torrents_path(),
                recent_query(smaller(limit, self.limit())),
            ) {
                Some(address) => r matches Ok(url) && url@ == address,
                None => r == Err::<String, ReleasesError>(ReleasesError::Url),
            },
    {
        let per_page = if limit < self.default_limit {
            limit
        } else {
            self.default_limit
        };
        let mut count: Vec<char> = Vec::new();
        push_decimal(&mut count, per_page as u64);
        let mut pairs: Vec<QueryPair> = Vec::new();
        pairs.push(QueryPair { name: text_of("filter"), value: text_of("(tracker='Nyaa')") });
        pairs.push(QueryPair { name: text_of("sort"), value: text_of("-updated") });
        pairs.push(QueryPair { name: text_of("page"), value: text_of("1") });
        pairs.push(QueryPair { name: text_of("perPage"), value: string_of(&count) });
        assert(pairs.deep_view() =~= recent_query(smaller(limit, self.limit())));
        match request_url(self.base_url.as_str(), "collections/torrents/records", &pairs) {
            Some(url) => Ok(url),
            None => Err(ReleasesError::Url),
        }
    }

    /// What a search found: the first `limit` candidates that the page of
    /// entries makes.
    pub fn search_torrents(limit: usize, outcome: &EntriesOutcome) -> (r: Result<
        Vec<Torrent>,
        ReleasesError,
    >)
        ensures
            match *outcome {
                EntriesOutcome::Unreachable => r == Err::<Vec<Torrent>, ReleasesError>(
                    ReleasesError::Http,
                ),
                EntriesOutcome::Undecodable => r == Err::<Vec<Torrent>, ReleasesError>(
                    ReleasesError::Deserialisation,
                ),
                EntriesOutcome::Answer(page) => r matches Ok(found) && found.deep_view()
                    == search_result(page.items@, limit as nat),
            },
    {
        match outcome {
            EntriesOutcome::Unreachable => Err(ReleasesError::Http),
            EntriesOutcome::Undecodable => Err(ReleasesError::Deserialisation),
            EntriesOutcome::Answer(page) => Ok(keep_at_most(collect_hits(&page.items), limit)),
        }
    }

    /// What the request for the torrents updated last found: a candidate for
    /// each torrent of the page.
    pub fn recent_public_torrents(outcome: &TorrentsOutcome) -> (r: Result<
        Vec<Torrent>,
        ReleasesError,
    >)
        ensures
            match *outcome {
                TorrentsOutcome::Unreachable => r == Err::<Vec<Torrent>, ReleasesError>(
                    ReleasesError::Http,
                ),
                TorrentsOutcome::Undecodable => r == Err::<Vec<Torrent>, ReleasesError>(
                    ReleasesError::Deserialisation,
                ),
                TorrentsOutcome::Answer(page) => r matches Ok(found) && found.deep_view()
                    == recent_result(page.items@),
            },
    {
        match outcome {
            TorrentsOutcome::Unreachable => Err(ReleasesError::Http),
            TorrentsOutcome::Undecodable => Err(ReleasesError::Deserialisation),
            TorrentsOutcome::Answer(page) => {
                let mut found: Vec<Torrent> = Vec::new();
                let mut i: usize = 0;
                while i < page.items.len()
                    invariant
                        i <= page.items.len(),
                        found@.len() == i,
                        forall|j: int|
                            0 <= j < i ==> (#[trigger] found@[j])@ == torrent_of(
                                page.items@[j],
                                None,
                            ),
                    decreases page.items.len() - i,
                {
                    found.push(Torrent::from_record(&page.items[i], None));
                    i += 1;
                }
                assert(found.deep_view() =~= recent_result(page.items@));
                Ok(found)
            },
        }
    }
}

/// The largest number of torrents whose AniList ids are asked for in one
/// request.
pub const CHUNK_SIZE: usize = 20;

/// Tells whether `texts` holds `text`.
pub fn holds_text(texts: &Vec<String>, text: &str) -> (r: bool)
    ensures
        r == texts.deep_view().contains(text@),
{
    let mut i: usize = 0;
    while i < texts.len()
        invariant
            i <= texts.len(),
            forall|j: int| 0 <= j < i ==> texts.deep_view()[j] != text@,
        decreases texts.len() - i,
    {
        if same_text(texts[i].as_str(), text) {
            assert(texts.deep_view()[i as int] == text@);
            return true;
        }
        i += 1;
    }
    false
}

/// Each text comes before the next.
pub open spec fn strictly_ascending(texts: Seq<Seq<char>>) -> bool {
    forall|i: int, j: int| 0 <= i < j < texts.len() ==> text_precedes(texts[i], texts[j])
}

/// The texts of a list in rising order, each once.
pub fn sorted_distinct_texts(texts: &[String]) -> (r: Vec<String>)
    ensures
        strictly_ascending(r.deep_view()),
        forall|text: Seq<char>| r.deep_view().contains(text) <==> texts.deep_view().contains(text),
{
    let ghost given = texts.deep_view();
    let mut sorted: Vec<String> = Vec::new();
    let mut i: usize = 0;
    while i < texts.len()
        invariant
            i <= texts.len(),
            given == texts.deep_view(),
            strictly_ascending(sorted.deep_view()),
            forall|text: Seq<char>|
                sorted.deep_view().contains(text) <==> given.take(i as int).contains(text),
        decreases texts.len() - i,
    {
        let id = &texts[i];
        let ghost added = id@;
        let mut at: usize = 0;
        while at < sorted.len() && text_before(sorted[at].as_str(), id.as_str())
            invariant
                at <= sorted.len(),
                forall|j: int| 0 <= j < at ==> text_precedes(sorted.deep_view()[j], id@),
            decreases sorted.len() - at,
        {
            at += 1;
        }
        let ghost before = sorted.deep_view();
        let present = at < sorted.len() && same_text(sorted[at].as_str(), id.as_str());
        if !present {
            sorted.insert(at, id.clone());
            proof {
                let after = sorted.deep_view();
                assert(after =~= before.insert(at as int, added));
                assert forall|a: int, b: int| 0 <= a < b < after.len() implies text_precedes(
                    after[a],
                    after[b],
                ) by {
                    let x = if a < at { a } else { a - 1 };
                    let y = if b < at { b } else { b - 1 };
                    if a != at && b != at {
                        assert(text_precedes(before[x], before[y]));
                    } else if a == at {
                        lemma_precedes_total(before[at as int], added);
                        if (at as int) < y {
                            assert(text_precedes(before[at as int], before[y]));
                            lemma_precedes_transitive(added, before[at as int], before[y]);
                        }
                    }
                }
            }
        }
        proof {
            let taken = given.take(i as int);
            let next = given.take(i + 1);
            let after = sorted.deep_view();
            assert(next =~= taken.push(added));
            assert(given[i as int] == added);
            assert forall|text: Seq<char>| after.contains(text) <==> next.contains(text) by {
                if after.contains(text) {
                    let k = choose|k: int| 0 <= k < after.len() && after[k] == text;
                    if present {
                        assert(taken.contains(text));
                        let w = choose|w: int| 0 <= w < taken.len() && taken[w] == text;
                        assert(next[w] == text);
                    } else if k == at {
                        assert(next[i as int] == text);
                    } else {
                        let o = if k < at { k } else { k - 1 };
                        assert(before[o] == text);
                        assert(before.contains(text));
                        let w = choose|w: int| 0 <= w < taken.len() && taken[w] == text;
                        assert(next[w] == text);
                    }
                }
                if next.contains(text) {
                    let w = choose|w: int| 0 <= w < next.len() && next[w] == text;
                    if w == i {
                        assert(after[at as int] == text);
                    } else {
                        assert(taken[w] == text);
                        assert(before.contains(text));
                        let o = choose|o: int| 0 <= o < before.len() && before[o] == text;
                        if present {
                            assert(after[o] == text);
                        } else {
                            let k = if o < at { o } else { o + 1 };
                            assert(after[k] == text);
                        }
                    }
                }
            }
        }
        i += 1;
    }
    assert(given.take(texts.len() as int) =~= given);
    sorted
}

/// The AniList id found for a torrent.
#[derive(Debug, Clone)]
pub struct ResolvedId {
    pub torrent_id: String,
    pub anilist_id: i64,
}

/// The AniList ids found for torrents, by the id of the torrent.
#[derive(Debug, Clone)]
pub struct ResolvedIds {
    found: Vec<ResolvedId>,
}

/// What a run of findings tells: for each torrent the id found last.
pub open spec fn findings_map(found: Seq<ResolvedId>) -> Map<Seq<char>, i64>
    decreases found.len(),
{
    if found.len() == 0 {
        Map::empty()
    } else {
        findings_map(found.drop_last()).insert(found.last().torrent_id@, found.last().anilist_id)
    }
}

impl View for ResolvedIds {
    type V = Map<Seq<char>, i64>;

    closed spec fn view(&self) -> Map<Seq<char>, i64> {
        findings_map(self.found@)
    }
}

impl ResolvedIds {
    /// Nothing found.
    pub fn new() -> (r: ResolvedIds)
        ensures
            r@ == Map::<Seq<char>, i64>::empty(),
    {
        ResolvedIds { found: Vec::new() }
    }

    /// Notes the AniList id found for a torrent, in place of one noted
    /// before.
    pub fn insert(&mut self, torrent_id: String, anilist_id: i64)
        ensures
            final(self)@ == old(self)@.insert(torrent_id@, anilist_id),
    {
        self.found.push(ResolvedId { torrent_id, anilist_id });
        assert(self.found@.drop_last() =~= old(self).found@);
    }

    /// The AniList id found for a torrent.
    pub fn get(&self, torrent_id: &str) -> (r: Option<i64>)
        ensures
            r == (if self@.contains_key(torrent_id@) {
                Some(self@[torrent_id@])
            } else {
                None
            }),
    {
        let mut i: usize = self.found.len();
        assert(self.found@.take(i as int) =~= self.found@);
        while i > 0
            invariant
                i <= self.found.len(),
                self@.contains_key(torrent_id@) == findings_map(
                    self.found@.take(i as int),
                ).contains_key(torrent_id@),
                self@.contains_key(torrent_id@) ==> self@[torrent_id@] == findings_map(
                    self.found@.take(i as int),
                )[torrent_id@],
            decreases i,
        {
            proof {
                assert(self.found@.take(i as int).drop_last() =~= self.found@.take(i - 1));
                assert(self.found@.take(i as int).last() == self.found@[i - 1]);
            }
            i -= 1;
            if same_text(self.found[i].torrent_id.as_str(), torrent_id) {
                return Some(self.found[i].anilist_id);
            }
        }
        None
    }
}

/// What the torrents listed on a page tell of the torrents asked for: each
/// one that is listed under an entry with an AniList id, on the tracker that
/// is served, gets the id of the entry, a later listing counting over an
/// earlier one.
pub open spec fn with_identities(
    known: Map<Seq<char>, i64>,
    asked: Seq<Seq<char>>,
    listed: Seq<ListedTorrent>,
) -> Map<Seq<char>, i64>
    decreases listed.len(),
{
    if listed.len() == 0 {
        known
    } else {
        let before = with_identities(known, asked, listed.drop_last());
        let torrent = listed.last();
        match torrent.al_id {
            Some(anilist_id) => if torrent.record.tracker@ == served_tracker() && asked.contains(
                torrent.record.id@,
            ) {
                before.insert(torrent.record.id@, anilist_id)
            } else {
                before
            },
            None => before,
        }
    }
}

/// Takes the torrents listed on a page into what is known of the torrents
/// asked for.
pub fn absorb_identities(known: &mut ResolvedIds, asked: &Vec<String>, items: &Vec<EntryRecord>)
    ensures
        final(known)@ == with_identities(old(known)@, asked.deep_view(), listed_torrents(items@)),
{
    let mut i: usize = 0;
    assert(listed_torrents(items@.take(0)) =~= Seq::<ListedTorrent>::empty());
    while i < items.len()
        invariant
            i <= items.len(),
            known@ == with_identities(
                old(known)@,
                asked.deep_view(),
                listed_torrents(items@.take(i as int)),
            ),
        decreases items.len() - i,
    {
        let entry = &items[i];
        let ghost before = listed_torrents(items@.take(i as int));
        proof {
            assert(items@.take(i + 1).drop_last() =~= items@.take(i as int));
            assert(items@.take(i + 1).last() == items@[i as int]);
        }
        if let Some(expand) = &entry.expand {
            let mut j: usize = 0;
            assert(before + listed_under(*entry).take(0) =~= before);
            while j < expand.trs.len()
                invariant
                    j <= expand.trs.len(),
                    entry.expand == Some(*expand),
                    known@ == with_identities(
                        old(known)@,
                        asked.deep_view(),
                        before + listed_under(*entry).take(j as int),
                    ),
                decreases expand.trs.len() - j,
            {
                let record = &expand.trs[j];
                proof {
                    let so_far = before + listed_under(*entry).take(j as int);
                    let next = before + listed_under(*entry).take(j + 1);
                    assert(next.drop_last() =~= so_far);
                    assert(next.last() == ListedTorrent { al_id: entry.al_id, record: *record });
                }
                if let Some(anilist_id) = entry.al_id {
                    if same_text(record.tracker.as_str(), "Nyaa") && holds_text(
                        asked,
                        record.id.as_str(),
                    ) {
                        known.insert(record.id.clone(), anilist_id);
                    }
                }
                j += 1;
            }
            assert(listed_under(*entry).take(expand.trs.len() as int) =~= listed_under(*entry));
        } else {
            assert(before + listed_under(*entry) =~= before);
        }
        i += 1;
    }
    assert(items@.take(items.len() as int) =~= items@);
}

/// The filter that asks for the entries that list any of the torrents.
pub open spec fn identity_filter(batch: Seq<Seq<char>>) -> Seq<char> {
    joined(Seq::new(batch.len(), |i: int| "(trs~'"@ + batch[i] + "')"@), " || "@)
}

/// The larger of two numbers.
pub open spec fn larger(a: usize, b: usize) -> usize {
    if a < b {
        b
    } else {
        a
    }
}

/// The query that asks for the entries that list any of the torrents.
pub open spec fn identity_query(batch: Seq<Seq<char>>, per_page: usize) -> Seq<
    (Seq<char>, Seq<char>),
> {
    seq![
        ("filter"@, identity_filter(batch)),
        ("expand"@, "trs"@),
        ("perPage"@, decimal_digits(per_page as nat)),
    ]
}

impl ReleasesClient {
    /// The address at which the entries that list any of the torrents of a
    /// batch are asked for.
    pub fn identity_address(&self, batch: &Vec<String>) -> (r: Result<String, ReleasesError>)
        ensures
            match request_address(
                self.base(),
                entries_path(),
                identity_query(batch.deep_view(), larger(self.limit(), batch.len())),
            ) {
                Some(address) => r matches Ok(url) && url@ == address,
                None => r == Err::<String, ReleasesError>(ReleasesError::Url),
            },
    {
        let mut clauses: Vec<String> = Vec::new();
        let mut i: usize = 0;
        while i < batch.len()
            invariant
                i <= batch.len(),
                clauses@.len() == i,
                forall|j: int|
                    0 <= j < i ==> (#[trigger] clauses@[j])@ == "(trs~'"@ + batch@[j]@ + "')"@,
            decreases batch.len() - i,
        {
            let mut clause: Vec<char> = Vec::new();
            push_str(&mut clause, "(trs~'");
            push_str(&mut clause, batch[i].as_str());
            push_str(&mut clause, "')");
            clauses.push(string_of(&clause));
            i += 1;
        }
        assert(clauses.deep_view() =~= Seq::new(
            batch.deep_view().len(),
            |i: int| "(trs~'"@ + batch.deep_view()[i] + "')"@,
        ));
        let filter = crate::text::join_strings(&clauses, " || ");
        let per_page = if self.default_limit < batch.len() {
            batch.len()
        } else {
            self.default_limit
        };
        let mut count: Vec<char> = Vec::new();
        push_decimal(&mut count, per_page as u64);
        let mut pairs: Vec<QueryPair> = Vec::new();
        pairs.push(QueryPair { name: text_of("filter"), value: filter });
        pairs.push(QueryPair { name: text_of("expand"), value: text_of("trs") });
        pairs.push(QueryPair { name: text_of("perPage"), value: string_of(&count) });
        assert(pairs.deep_view() =~= identity_query(
            batch.deep_view(),
            larger(self.limit(), batch.len()),
        ));
        match request_url(self.base_url.as_str(), "collections/entries/records", &pairs) {
            Some(url) => Ok(url),
            None => Err(ReleasesError::Url),
        }
    }
}

/// What a lookup of AniList ids asks of its caller next.
#[derive(Debug, Clone)]
pub enum IdentityStep {
    /// Ask the release source at this address, and hand back how that ended.
    Request(String),
    /// Every torrent has been asked for: what is known is the result.
    Done,
    /// The lookup failed.
    Failed(ReleasesError),
}

/// A lookup of the AniList ids of torrents in progress. The torrents are
/// asked for in the rising order of their ids, each once, at most
/// `CHUNK_SIZE` per request.
pub struct IdentityLookup {
    client: ReleasesClient,
    ids: Vec<String>,
    /// Where the torrents that are still to be asked for start.
    sent: usize,
    /// The torrents that are being asked for.
    batch: Vec<String>,
    known: ResolvedIds,
}

impl IdentityLookup {
    #[verifier::type_invariant]
    spec fn well_formed(self) -> bool {
        &&& self.batch@.len() <= self.sent <= self.ids@.len()
        &&& self.batch@.len() <= CHUNK_SIZE
        &&& self.batch.deep_view() =~= self.ids.deep_view().subrange(
            self.sent - self.batch@.len(),
            self.sent as int,
        )
    }

    /// The release source that is asked.
    pub closed spec fn source(self) -> ReleasesClient {
        self.client
    }

    /// The torrents wanted, in the order in which they are asked for.
    pub closed spec fn wanted(self) -> Seq<Seq<char>> {
        self.ids.deep_view()
    }

    /// The torrents that have been asked for and answered.
    pub closed spec fn answered(self) -> Seq<Seq<char>> {
        self.ids.deep_view().take(self.sent - self.batch@.len())
    }

    /// The torrents that are being asked for.
    pub closed spec fn in_flight(self) -> Seq<Seq<char>> {
        self.batch.deep_view()
    }

    /// The torrents that are still to be asked for.
    pub closed spec fn pending(self) -> Seq<Seq<char>> {
        self.ids.deep_view().skip(self.sent as int)
    }

    /// What the answers so far have told.
    pub closed spec fn known(self) -> Map<Seq<char>, i64> {
        self.known@
    }

    /// The batch that comes first among `pending`: all of it, or its first
    /// `CHUNK_SIZE` torrents.
    pub open spec fn first_batch(pending: Seq<Seq<char>>) -> Seq<Seq<char>> {
        if pending.len() <= CHUNK_SIZE {
            pending
        } else {
            pending.take(CHUNK_SIZE as int)
        }
    }

    /// The address at which a batch is asked for.
    pub open spec fn batch_address(source: ReleasesClient, batch: Seq<Seq<char>>) -> Option<
        Seq<char>,
    > {
        request_address(
            source.base(),
            entries_path(),
            identity_query(batch, larger(source.limit(), batch.len() as usize)),
        )
    }

    /// What moving on to the next batch comes to: the request for the batch,
    /// the end of the lookup where nothing is left, or its failure where the
    /// address of the request cannot be built.
    pub open spec fn moved_on(
        before_pending: Seq<Seq<char>>,
        after: IdentityLookup,
        step: IdentityStep,
    ) -> bool {
        let batch = Self::first_batch(before_pending);
        if batch.len() == 0 {
            step is Done && after.in_flight().len() == 0 && after.pending().len() == 0
        } else {
            match Self::batch_address(after.source(), batch) {
                Some(address) => {
                    &&& step matches IdentityStep::Request(url)
                    &&& url@ == address
                    &&& after.in_flight() == batch
                    &&& after.pending() == before_pending.skip(batch.len() as int)
                },
                None => {
                    &&& step == IdentityStep::Failed(ReleasesError::Url)
                    &&& after.in_flight().len() == 0
                    &&& after.pending().len() == 0
                },
            }
        }
    }

    /// Moves on to the next batch.
    fn advance(self) -> (r: (IdentityLookup, IdentityStep))
        requires
            self.in_flight().len() == 0,
        ensures
            r.0.wanted() == self.wanted(),
            r.0.source() == self.source(),
            r.0.known() == self.known(),
            Self::moved_on(self.pending(), r.0, r.1),
            r.1 is Request ==> r.0.answered() == self.answered(),
    {
        proof {
            use_type_invariant(&self);
        }
        let IdentityLookup { client, ids, sent, batch: _, known } = self;
        let total = ids.len();
        let end = if total - sent <= CHUNK_SIZE {
            total
        } else {
            sent + CHUNK_SIZE
        };
        let mut batch: Vec<String> = Vec::new();
        let mut i: usize = sent;
        while i < end
            invariant
                sent <= i <= end <= ids@.len(),
                batch@.len() == i - sent,
                forall|j: int| 0 <= j < i - sent ==> (#[trigger] batch@[j])@ == ids@[sent + j]@,
            decreases end - i,
        {
            batch.push(ids[i].clone());
            i += 1;
        }
        assert(batch.deep_view() =~= ids.deep_view().subrange(sent as int, end as int));
        assert(batch.deep_view() =~= Self::first_batch(ids.deep_view().skip(sent as int)));
        if sent == end {
            let next = IdentityLookup { client, ids, sent: end, batch, known };
            assert(next.pending().len() == 0);
            return (next, IdentityStep::Done);
        }
        match client.identity_address(&batch) {
            Ok(url) => {
                let next = IdentityLookup { client, ids, sent: end, batch, known };
                proof {
                    assert(next.pending() =~= self.pending().skip(next.in_flight().len() as int));
                    assert(next.answered() =~= self.answered());
                }
                (next, IdentityStep::Request(url))
            },
            Err(_) => {
                let next = IdentityLookup { client, ids, sent: total, batch: Vec::new(), known };
                assert(next.pending().len() == 0);
                (next, IdentityStep::Failed(ReleasesError::Url))
            },
        }
    }

    /// Takes in how the request for the batch in flight ended, and tells what
    /// to do next. An answer adds to what is known and moves the lookup on to
    /// the next batch; a failure ends the lookup and leaves what is known as
    /// it was. With no batch in flight there is nothing to take in.
    pub fn step(self, outcome: &EntriesOutcome) -> (r: (IdentityLookup, IdentityStep))
        ensures
            r.0.wanted() == self.wanted(),
            r.0.source() == self.source(),
            self.in_flight().len() == 0 ==> r.1 is Done && r.0.known() == self.known(),
            self.in_flight().len() > 0 ==> match *outcome {
                EntriesOutcome::Unreachable => r.1 == IdentityStep::Failed(ReleasesError::Http)
                    && r.0.known() == self.known() && r.0.in_flight().len() == 0
                    && r.0.pending().len() == 0,
                EntriesOutcome::Undecodable => r.1 == IdentityStep::Failed(
                    ReleasesError::Deserialisation,
                ) && r.0.known() == self.known() && r.0.in_flight().len() == 0
                    && r.0.pending().len() == 0,
                EntriesOutcome::Answer(page) => {
                    &&& r.0.known() == with_identities(
                        self.known(),
                        self.in_flight(),
                        listed_torrents(page.items@),
                    )
                    &&& Self::moved_on(self.pending(), r.0, r.1)
                    &&& r.1 is Request ==> r.0.answered() == self.answered() + self.in_flight()
                },
            },
    {
        proof {
            use_type_invariant(&self);
        }
        if self.batch.len() == 0 {
            return (self, IdentityStep::Done);
        }
        let ghost before = self;
        let IdentityLookup { client, ids, sent, batch, mut known } = self;
        let total = ids.len();
        match outcome {
            EntriesOutcome::Unreachable => {
                let ended = IdentityLookup { client, ids, sent: total, batch: Vec::new(), known };
                (ended, IdentityStep::Failed(ReleasesError::Http))
            },
            EntriesOutcome::Undecodable => {
                let ended = IdentityLookup { client, ids, sent: total, batch: Vec::new(), known };
                (ended, IdentityStep::Failed(ReleasesError::Deserialisation))
            },
            EntriesOutcome::Answer(page) => {
                absorb_identities(&mut known, &batch, &page.items);
                let moved = IdentityLookup { client, ids, sent, batch: Vec::new(), known };
                proof {
                    assert(moved.pending() == before.pending());
                    assert(moved.answered() =~= before.answered() + before.in_flight());
                }
                moved.advance()
            },
        }
    }

    /// Ends the lookup and hands out what is known.
    pub fn into_resolved(self) -> (r: ResolvedIds)
        ensures
            r@ == self.known(),
    {
        self.known
    }
}

impl ReleasesClient {
    /// Starts a lookup of the AniList ids of the given torrents. Nothing is
    /// asked for where no torrent is given.
    pub fn resolve_anilist_ids_for_torrents(&self, torrent_ids: &[String]) -> (r: (
        IdentityLookup,
        IdentityStep,
    ))
        ensures
            r.0.source() == *self,
            strictly_ascending(r.0.wanted()),
            forall|id: Seq<char>|
                r.0.wanted().contains(id) <==> torrent_ids.deep_view().contains(id),
            (r.0.wanted().len() == 0) == (torrent_ids@.len() == 0),
            r.0.known() == Map::<Seq<char>, i64>::empty(),
            IdentityLookup::moved_on(r.0.wanted(), r.0, r.1),
            r.1 is Request ==> r.0.answered().len() == 0,
    {
        let ids = sorted_distinct_texts(torrent_ids);
        let lookup = IdentityLookup {
            client: ReleasesClient {
                base_url: self.base_url.clone(),
                default_limit: self.default_limit,
            },
            ids,
            sent: 0,
            batch: Vec::new(),
            known: ResolvedIds::new(),
        };
        proof {
            assert(lookup.pending() =~= lookup.wanted());
            let wanted = lookup.wanted();
            let given = torrent_ids.deep_view();
            if wanted.len() == 0 && given.len() > 0 {
                assert(given.contains(given[0]));
                assert(wanted.contains(given[0]));
            }
            if wanted.len() > 0 && given.len() == 0 {
                assert(wanted.contains(wanted[0]));
                assert(given.contains(wanted[0]));
            }
        }
        lookup.advance()
    }
}

} // verus!

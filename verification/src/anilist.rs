//! The media classifier: the formats that the catalogue knows, and the batched
//! lookup that tells the format of each AniList id.

use crate::text::{join_strings, joined, same_text};
use std::collections::HashMap;
use vstd::prelude::*;

verus! {

broadcast use vstd::std_specs::hash::group_hash_axioms;

/// The largest number of ids that one request may ask for.
pub const MAX_IDS_PER_REQUEST: usize = 50;

/// The format of a catalogue entry.
#[derive(Debug, Clone, Copy, PartialEq, Eq, Structural)]
pub enum MediaFormat {
    Tv,
    TvShort,
    Movie,
    Special,
    Ova,
    Ona,
    Music,
    Manga,
    Novel,
    OneShot,
}

/// The format that a name of the catalogue stands for.
pub open spec fn format_named(name: Seq<char>) -> Option<MediaFormat> {
    if name == "TV"@ {
        Some(MediaFormat::Tv)
    } else if name == "TV_SHORT"@ {
        Some(MediaFormat::TvShort)
    } else if name == "ONA"@ {
        Some(MediaFormat::Ona)
    } else if name == "MOVIE"@ {
        Some(MediaFormat::Movie)
    } else if name == "SPECIAL"@ {
        Some(MediaFormat::Special)
    } else if name == "OVA"@ {
        Some(MediaFormat::Ova)
    } else if name == "MUSIC"@ {
        Some(MediaFormat::Music)
    } else if name == "MANGA"@ {
        Some(MediaFormat::Manga)
    } else if name == "NOVEL"@ {
        Some(MediaFormat::Novel)
    } else if name == "ONE_SHOT"@ {
        Some(MediaFormat::OneShot)
    } else {
        None
    }
}

impl MediaFormat {
    /// Reads a format from its name in the catalogue.
    pub fn from_str(value: &str) -> (r: Option<MediaFormat>)
        ensures
            r == format_named(value@),
    {
        if same_text(value, "TV") {
            Some(MediaFormat::Tv)
        } else if same_text(value, "TV_SHORT") {
            Some(MediaFormat::TvShort)
        } else if same_text(value, "ONA") {
            Some(MediaFormat::Ona)
        } else if same_text(value, "MOVIE") {
            Some(MediaFormat::Movie)
        } else if same_text(value, "SPECIAL") {
            Some(MediaFormat::Special)
        } else if same_text(value, "OVA") {
            Some(MediaFormat::Ova)
        } else if same_text(value, "MUSIC") {
            Some(MediaFormat::Music)
        } else if same_text(value, "MANGA") {
            Some(MediaFormat::Manga)
        } else if same_text(value, "NOVEL") {
            Some(MediaFormat::Novel)
        } else if same_text(value, "ONE_SHOT") {
            Some(MediaFormat::OneShot)
        } else {
            None
        }
    }

    /// A format that a series search serves: a television series, a short
    /// one, or a series first shown on the net.
    pub open spec fn is_series(self) -> bool {
        self == MediaFormat::Tv || self == MediaFormat::TvShort || self == MediaFormat::Ona
    }

    /// The format that a movie search serves.
    pub open spec fn is_movie(self) -> bool {
        self == MediaFormat::Movie
    }
}

/// Tells whether a series search serves the format.
pub fn format_allowed(format: &MediaFormat) -> (r: bool)
    ensures
        r == format.is_series(),
{
    match format {
        MediaFormat::Tv | MediaFormat::TvShort | MediaFormat::Ona => true,
        _ => false,
    }
}

/// Tells whether a movie search serves the format.
pub fn movie_format_allowed(format: &MediaFormat) -> (r: bool)
    ensures
        r == format.is_movie(),
{
    match format {
        MediaFormat::Movie => true,
        _ => false,
    }
}

/// A catalogue entry as far as it matters here: its id and its format.
#[derive(Debug, Clone, Copy, PartialEq, Eq, Structural)]
pub struct AniListMedia {
    pub id: i64,
    pub format: MediaFormat,
}

/// One entry of a page of the catalogue's answer.
#[derive(Debug, Clone)]
pub struct GraphqlMedia {
    pub id: i64,
    /// The name of the entry's format, where the catalogue gave one.
    pub format: Option<String>,
}

/// One error of the catalogue's answer.
#[derive(Debug, Clone)]
pub struct GraphqlError {
    pub message: String,
}

/// A page of entries.
#[derive(Debug, Clone)]
pub struct GraphqlPage {
    pub media: Vec<GraphqlMedia>,
}

/// The data node of the catalogue's answer.
#[derive(Debug, Clone)]
pub struct GraphqlData {
    pub page: Option<GraphqlPage>,
}

/// The catalogue's answer to one request.
#[derive(Debug, Clone)]
pub struct GraphqlResponse {
    pub data: Option<GraphqlData>,
    pub errors: Option<Vec<GraphqlError>>,
}

/// Why a lookup in the catalogue failed.
#[derive(Debug, Clone)]
pub enum AniListError {
    /// The request did not go through, or the catalogue answered with an
    /// error status.
    Http,
    /// The answer could not be read.
    Deserialisation,
    /// The answer holds no data node, or the data no page.
    MissingData,
    /// The catalogue reported errors: their messages, joined by `", "`.
    Graphql(String),
}

pub enum AniListErrorView {
    Http,
    Deserialisation,
    MissingData,
    Graphql(Seq<char>),
}

impl View for AniListError {
    type V = AniListErrorView;

    open spec fn view(&self) -> AniListErrorView {
        match self {
            AniListError::Http => AniListErrorView::Http,
            AniListError::Deserialisation => AniListErrorView::Deserialisation,
            AniListError::MissingData => AniListErrorView::MissingData,
            AniListError::Graphql(text) => AniListErrorView::Graphql(text@),
        }
    }
}

/// The format of an entry, where the catalogue named one that is known.
pub open spec fn media_format(media: GraphqlMedia) -> Option<MediaFormat> {
    match media.format {
        Some(name) => format_named(name@),
        None => None,
    }
}

/// What is known once a run of entries has been taken in: for each id the
/// format of its first entry with a known format, what was known before
/// coming first.
pub open spec fn with_media(known: Map<i64, AniListMedia>, media: Seq<GraphqlMedia>) -> Map<
    i64,
    AniListMedia,
>
    decreases media.len(),
{
    if media.len() == 0 {
        known
    } else {
        let before = with_media(known, media.drop_last());
        let entry = media.last();
        match media_format(entry) {
            Some(format) => if before.contains_key(entry.id) {
                before
            } else {
                before.insert(entry.id, AniListMedia { id: entry.id, format })
            },
            None => before,
        }
    }
}

/// The messages of a list of errors.
pub open spec fn error_messages(errors: Seq<GraphqlError>) -> Seq<Seq<char>> {
    Seq::new(errors.len(), |i: int| errors[i].message@)
}

/// What one answer of the catalogue adds to what is known, or the error it
/// amounts to. Reported errors come first, then a missing data node or page.
pub open spec fn with_response(known: Map<i64, AniListMedia>, response: GraphqlResponse) -> Result<
    Map<i64, AniListMedia>,
    AniListErrorView,
> {
    if response.errors is Some && response.errors.unwrap()@.len() > 0 {
        Err(AniListErrorView::Graphql(joined(error_messages(response.errors.unwrap()@), ", "@)))
    } else if response.data is None || response.data.unwrap().page is None {
        Err(AniListErrorView::MissingData)
    } else {
        Ok(with_media(known, response.data.unwrap().page.unwrap().media@))
    }
}

/// What was known stays as it was, whatever entries are taken in.
pub proof fn lemma_known_media_stay(known: Map<i64, AniListMedia>, media: Seq<GraphqlMedia>, id: i64)
    requires
        known.contains_key(id),
    ensures
        with_media(known, media).contains_key(id),
        with_media(known, media)[id] == known[id],
    decreases media.len(),
{
    if media.len() > 0 {
        lemma_known_media_stay(known, media.drop_last(), id);
    }
}

/// Takes the entries of a page into what is known.
pub fn absorb_media(known: &mut HashMap<i64, AniListMedia>, media: &Vec<GraphqlMedia>)
    ensures
        final(known)@ == with_media(old(known)@, media@),
{
    let mut i: usize = 0;
    while i < media.len()
        invariant
            i <= media.len(),
            known@ == with_media(old(known)@, media@.take(i as int)),
        decreases media.len() - i,
    {
        proof {
            assert(media@.take(i + 1).drop_last() =~= media@.take(i as int));
            assert(media@.take(i + 1).last() == media@[i as int]);
        }
        let found = match &media[i].format {
            Some(name) => MediaFormat::from_str(name.as_str()),
            None => None,
        };
        if let Some(format) = found {
            let id = media[i].id;
            if !known.contains_key(&id) {
                known.insert(id, AniListMedia { id, format });
            }
        }
        i += 1;
    }
    assert(media@.take(media.len() as int) =~= media@);
}

/// Takes one answer of the catalogue into what is known. On an error nothing
/// is taken in.
pub fn absorb_response(known: &mut HashMap<i64, AniListMedia>, response: &GraphqlResponse) -> (r:
    Result<(), AniListError>)
    ensures
        match with_response(old(known)@, *response) {
            Ok(map) => r is Ok && final(known)@ == map,
            Err(error) => r is Err && r->Err_0@ == error && final(known)@ == old(known)@,
        },
{
    if let Some(errors) = &response.errors {
        if errors.len() > 0 {
            let mut messages: Vec<String> = Vec::new();
            let mut i: usize = 0;
            while i < errors.len()
                invariant
                    i <= errors.len(),
                    messages@.len() == i,
                    forall|j: int| 0 <= j < i ==> (#[trigger] messages@[j])@ == errors@[j].message@,
                decreases errors.len() - i,
            {
                messages.push(errors[i].message.clone());
                i += 1;
            }
            assert(messages.deep_view() =~= error_messages(errors@));
            return Err(AniListError::Graphql(join_strings(&messages, ", ")));
        }
    }
    match &response.data {
        Some(data) => match &data.page {
            Some(page) => {
                absorb_media(known, &page.media);
                Ok(())
            },
            None => Err(AniListError::MissingData),
        },
        None => Err(AniListError::MissingData),
    }
}

/// Each element is smaller than the next.
pub open spec fn strictly_increasing(s: Seq<i64>) -> bool {
    forall|i: int, j: int| 0 <= i < j < s.len() ==> s[i] < s[j]
}

/// The ids in rising order, each once.
pub fn unique_sorted(ids: &[i64]) -> (r: Vec<i64>)
    ensures
        strictly_increasing(r@),
        forall|x: i64| r@.contains(x) <==> ids@.contains(x),
{
    let mut sorted: Vec<i64> = Vec::new();
    let mut i: usize = 0;
    while i < ids.len()
        invariant
            i <= ids.len(),
            strictly_increasing(sorted@),
            forall|x: i64| sorted@.contains(x) <==> ids@.take(i as int).contains(x),
        decreases ids.len() - i,
    {
        let id = ids[i];
        let mut at: usize = 0;
        while at < sorted.len() && sorted[at] < id
            invariant
                at <= sorted.len(),
                strictly_increasing(sorted@),
                forall|j: int| 0 <= j < at ==> sorted@[j] < id,
            decreases sorted.len() - at,
        {
            at += 1;
        }
        let ghost before = sorted@;
        let present = at < sorted.len() && sorted[at] == id;
        if !present {
            sorted.insert(at, id);
            assert(strictly_increasing(sorted@)) by {
                assert forall|a: int, b: int| 0 <= a < b < sorted@.len() implies sorted@[a]
                    < sorted@[b] by {
                    let x = if a < at { a } else { a - 1 };
                    let y = if b < at { b } else { b - 1 };
                    if a != at && b != at {
                        assert(before[x] < before[y]);
                    } else if a == at {
                        assert(before[at as int] <= before[y]) by {
                            if (at as int) < y {
                                assert(before[at as int] < before[y]);
                            }
                        }
                    }
                }
            }
        }
        proof {
            let taken = ids@.take(i as int);
            let next = ids@.take(i + 1);
            assert(next =~= taken.push(id));
            assert forall|x: i64| sorted@.contains(x) <==> next.contains(x) by {
                if sorted@.contains(x) {
                    let k = choose|k: int| 0 <= k < sorted@.len() && sorted@[k] == x;
                    if present {
                        assert(taken.contains(x));
                        let w = choose|w: int| 0 <= w < taken.len() && taken[w] == x;
                        assert(next[w] == x);
                    } else if k == at {
                        assert(next[i as int] == x);
                    } else {
                        let o = if k < at { k } else { k - 1 };
                        assert(before[o] == x);
                        assert(before.contains(x));
                        let w = choose|w: int| 0 <= w < taken.len() && taken[w] == x;
                        assert(next[w] == x);
                    }
                }
                if next.contains(x) {
                    let w = choose|w: int| 0 <= w < next.len() && next[w] == x;
                    if w == i {
                        assert(sorted@[at as int] == x);
                    } else {
                        assert(taken[w] == x);
                        assert(before.contains(x));
                        let o = choose|o: int| 0 <= o < before.len() && before[o] == x;
                        if present {
                            assert(sorted@[o] == x);
                        } else {
                            let k = if o < at { o } else { o + 1 };
                            assert(sorted@[k] == x);
                        }
                    }
                }
            }
        }
        i += 1;
    }
    assert(ids@.take(ids.len() as int) =~= ids@);
    sorted
}

/// How one request to the catalogue ended.
#[derive(Debug, Clone)]
pub enum PageOutcome {
    /// The request did not go through, or was answered with an error status.
    Unreachable,
    /// The answer could not be read.
    Undecodable,
    /// The catalogue answered.
    Answer(GraphqlResponse),
}

/// What a lookup asks of its caller next.
#[derive(Debug, Clone)]
pub enum MediaFetchStep {
    /// Ask the catalogue for these ids, and hand back how that ended.
    Request(Vec<i64>),
    /// Every id has been asked for: what is known is the result.
    Done,
    /// The lookup failed.
    Failed(AniListError),
}

/// A batched lookup of formats in progress. The ids wanted are asked for in
/// rising order, each once, at most `MAX_IDS_PER_REQUEST` per request.
pub struct MediaFetch {
    ids: Vec<i64>,
    /// Where the batch that is being asked for starts.
    cursor: usize,
    /// Where it ends.
    sent: usize,
    known: HashMap<i64, AniListMedia>,
}

impl MediaFetch {
    #[verifier::type_invariant]
    spec fn well_formed(self) -> bool {
        &&& self.cursor <= self.sent <= self.ids@.len()
        &&& self.sent - self.cursor <= MAX_IDS_PER_REQUEST
        &&& strictly_increasing(self.ids@)
    }

    /// The ids wanted, in the order in which they are asked for.
    pub closed spec fn wanted(self) -> Seq<i64> {
        self.ids@
    }

    /// The ids that have been asked for and answered.
    pub closed spec fn answered(self) -> Seq<i64> {
        self.ids@.take(self.cursor as int)
    }

    /// The ids that are being asked for.
    pub closed spec fn in_flight(self) -> Seq<i64> {
        self.ids@.subrange(self.cursor as int, self.sent as int)
    }

    /// The ids that are still to be asked for.
    pub closed spec fn pending(self) -> Seq<i64> {
        self.ids@.skip(self.sent as int)
    }

    /// What the answers so far have told.
    pub closed spec fn known(self) -> Map<i64, AniListMedia> {
        self.known@
    }

    /// The batch that comes first among `pending`: all of it, or its first
    /// `MAX_IDS_PER_REQUEST` ids.
    pub open spec fn first_batch(pending: Seq<i64>) -> Seq<i64> {
        if pending.len() <= MAX_IDS_PER_REQUEST {
            pending
        } else {
            pending.take(MAX_IDS_PER_REQUEST as int)
        }
    }

    /// Moves on to the next batch.
    fn advance(self) -> (r: (MediaFetch, MediaFetchStep))
        requires
            self.in_flight().len() == 0,
        ensures
            r.0.wanted() == self.wanted(),
            r.0.answered() == self.answered(),
            r.0.known() == self.known(),
            r.0.in_flight() == Self::first_batch(self.pending()),
            r.0.pending() == self.pending().skip(r.0.in_flight().len() as int),
            r.0.wanted() == r.0.answered() + r.0.in_flight() + r.0.pending(),
            match r.1 {
                MediaFetchStep::Request(batch) => batch@ == r.0.in_flight() && batch@.len() > 0,
                MediaFetchStep::Done => self.pending().len() == 0,
                MediaFetchStep::Failed(_) => false,
            },
    {
        proof {
            use_type_invariant(&self);
        }
        let total = self.ids.len();
        let start = self.sent;
        let end = if total - start <= MAX_IDS_PER_REQUEST {
            total
        } else {
            start + MAX_IDS_PER_REQUEST
        };
        let mut batch: Vec<i64> = Vec::new();
        let mut i: usize = start;
        while i < end
            invariant
                start <= i <= end <= self.ids@.len(),
                batch@ == self.ids@.subrange(start as int, i as int),
            decreases end - i,
        {
            batch.push(self.ids[i]);
            assert(self.ids@.subrange(start as int, i + 1) =~= self.ids@.subrange(
                start as int,
                i as int,
            ).push(self.ids@[i as int]));
            i += 1;
        }
        let next = MediaFetch { ids: self.ids, cursor: start, sent: end, known: self.known };
        proof {
            assert(next.answered() =~= self.answered());
            assert(next.in_flight() =~= Self::first_batch(self.pending()));
            assert(next.pending() =~= self.pending().skip(next.in_flight().len() as int));
            assert(next.wanted() =~= next.answered() + next.in_flight() + next.pending());
        }
        if start == end {
            (next, MediaFetchStep::Done)
        } else {
            (next, MediaFetchStep::Request(batch))
        }
    }

    /// Starts a lookup of the given ids. Nothing is asked for where no id is
    /// given.
    pub fn begin(ids: &[i64]) -> (r: (MediaFetch, MediaFetchStep))
        ensures
            strictly_increasing(r.0.wanted()),
            forall|x: i64| r.0.wanted().contains(x) <==> ids@.contains(x),
            (r.0.wanted().len() == 0) == (ids@.len() == 0),
            r.0.answered().len() == 0,
            r.0.known() == Map::<i64, AniListMedia>::empty(),
            r.0.in_flight() == Self::first_batch(r.0.wanted()),
            r.0.pending() == r.0.wanted().skip(r.0.in_flight().len() as int),
            match r.1 {
                MediaFetchStep::Request(batch) => batch@ == r.0.in_flight() && batch@.len() > 0,
                MediaFetchStep::Done => ids@.len() == 0,
                MediaFetchStep::Failed(_) => false,
            },
    {
        let unique = unique_sorted(ids);
        let fetch = MediaFetch { ids: unique, cursor: 0, sent: 0, known: HashMap::new() };
        proof {
            assert(fetch.pending() =~= fetch.wanted());
            assert(fetch.in_flight().len() == 0);
        }
        let r = fetch.advance();
        proof {
            if r.0.wanted().len() == 0 && ids@.len() > 0 {
                assert(ids@.contains(ids@[0]));
                assert(r.0.wanted().contains(ids@[0]));
            }
            if r.0.wanted().len() > 0 && ids@.len() == 0 {
                assert(r.0.wanted().contains(r.0.wanted()[0]));
                assert(ids@.contains(r.0.wanted()[0]));
            }
            assert(r.0.answered().len() == 0);
        }
        r
    }

    /// Takes in how the request for the batch in flight ended, and tells what
    /// to do next. An answer adds to what is known and moves the lookup on to
    /// the next batch; a failure, or an answer that amounts to an error, ends
    /// the lookup and leaves what is known as it was. With no batch in flight
    /// there is nothing to take in.
    pub fn step(self, outcome: &PageOutcome) -> (r: (MediaFetch, MediaFetchStep))
        ensures
            r.0.wanted() == self.wanted(),
            strictly_increasing(r.0.wanted()),
            r.0.wanted() == r.0.answered() + r.0.in_flight() + r.0.pending(),
            r.0.in_flight().len() <= MAX_IDS_PER_REQUEST,
            self.in_flight().len() == 0 ==> r.1 is Done && r.0.known() == self.known()
                && r.0.answered() == self.answered() && r.0.pending() == self.pending()
                && r.0.in_flight() == self.in_flight(),
            self.in_flight().len() > 0 ==> match *outcome {
                PageOutcome::Unreachable => r.1 is Failed && r.1->Failed_0@
                    == AniListErrorView::Http && r.0.known() == self.known(),
                PageOutcome::Undecodable => r.1 is Failed && r.1->Failed_0@
                    == AniListErrorView::Deserialisation && r.0.known() == self.known(),
                PageOutcome::Answer(response) => match with_response(self.known(), response) {
                    Err(error) => r.1 is Failed && r.1->Failed_0@ == error && r.0.known()
                        == self.known(),
                    Ok(map) => {
                        &&& r.0.known() == map
                        &&& r.0.answered() == self.answered() + self.in_flight()
                        &&& r.0.in_flight() == Self::first_batch(self.pending())
                        &&& r.0.pending() == self.pending().skip(r.0.in_flight().len() as int)
                        &&& match r.1 {
                            MediaFetchStep::Request(batch) => batch@ == r.0.in_flight()
                                && batch@.len() > 0,
                            MediaFetchStep::Done => self.pending().len() == 0,
                            MediaFetchStep::Failed(_) => false,
                        }
                    },
                },
            },
            r.1 is Failed ==> r.0.in_flight().len() == 0 && r.0.pending().len() == 0,
    {
        proof {
            use_type_invariant(&self);
        }
        assert(self.wanted() =~= self.answered() + self.in_flight() + self.pending());
        if self.cursor == self.sent {
            return (self, MediaFetchStep::Done);
        }
        let ghost before = self;
        let MediaFetch { ids, cursor, sent, mut known } = self;
        let failure = match outcome {
            PageOutcome::Unreachable => Some(AniListError::Http),
            PageOutcome::Undecodable => Some(AniListError::Deserialisation),
            PageOutcome::Answer(response) => match absorb_response(&mut known, response) {
                Ok(()) => None,
                Err(error) => Some(error),
            },
        };
        match failure {
            Some(error) => {
                let total = ids.len();
                let ended = MediaFetch { ids, cursor: total, sent: total, known };
                assert(ended.wanted() =~= ended.answered() + ended.in_flight() + ended.pending());
                (ended, MediaFetchStep::Failed(error))
            },
            None => {
                let moved = MediaFetch { ids, cursor: sent, sent, known };
                proof {
                    assert(moved.answered() =~= before.answered() + before.in_flight());
                    assert(moved.in_flight().len() == 0);
                    assert(moved.pending() == before.pending());
                }
                let r = moved.advance();
                proof {
                    use_type_invariant(&r.0);
                }
                r
            },
        }
    }

    /// Ends the lookup and hands out what is known.
    pub fn into_known(self) -> (r: HashMap<i64, AniListMedia>)
        ensures
            r@ == self.known(),
    {
        self.known
    }
}

} // verus!

//! Keeping the mapping snapshot current: the refresh from the source of the
//! dataset and the reload from its file, each as a run of steps between which
//! the caller does the reading, fetching and writing.

use crate::mapping::{
    index_of, source_records, CachedMappings, FileStamp, IndexView, MappingIndex,
    PlexAniBridgeMappings, RawMappingRecord, SnapshotView, SourceRecord,
};
use crate::text::{chars_of, option_text, string_of, trim, trimmed};
use vstd::prelude::*;

verus! {

/// A file of the store.
#[derive(Debug, Clone, Copy, PartialEq, Eq, Structural)]
pub enum MappingFile {
    /// The file that holds the dataset as it was downloaded.
    Payload,
    /// The file that a new dataset is written to before it takes the place
    /// of the old.
    Temp,
    /// The file that holds the validation token.
    Etag,
}

/// Why the snapshot could not be brought up to date.
#[derive(Debug, Clone, Copy, PartialEq, Eq, Structural)]
pub enum MappingError {
    /// The dataset could not be downloaded.
    Download,
    Read(MappingFile),
    Write(MappingFile),
    Remove(MappingFile),
    /// The time of a file could not be told.
    Metadata(MappingFile),
    /// The dataset is no mapping document.
    Deserialisation,
    /// The work of reading the dataset was cut off.
    TaskJoin,
    /// The caller handed back something that was not asked for.
    OutOfTurn,
}

/// What reading a text file gave.
#[derive(Debug, Clone)]
pub enum TextRead {
    Found(String),
    Missing,
    Failed,
}

/// How the request for the dataset ended.
#[derive(Debug, Clone)]
pub enum FetchOutcome {
    /// The request did not go through.
    Unreachable,
    /// The source answered with this status, and with this validation token
    /// where it sent one that is text.
    Status { code: u16, etag: Option<String> },
}

/// What reading the dataset as a mapping document gave.
#[derive(Debug, Clone)]
pub enum DecodeOutcome {
    /// The records of the document under their keys.
    Records(Vec<(String, RawMappingRecord)>),
    /// The dataset is no mapping document.
    Malformed,
    /// The work was cut off.
    Aborted,
}

/// How an operation on a file ended.
#[derive(Debug, Clone, Copy, PartialEq, Eq, Structural)]
pub enum IoOutcome {
    Done,
    AlreadyExists,
    NotFound,
    Failed,
}

/// What asking for the time of a file gave.
#[derive(Debug, Clone, Copy, PartialEq, Eq, Structural)]
pub enum StatOutcome {
    At(FileStamp),
    NotFound,
    Failed,
}

/// What the caller hands back after it has done what it was asked.
#[derive(Debug, Clone)]
pub enum SyncEvent {
    /// The file of the validation token has been read.
    Etag(TextRead),
    /// The request for the dataset has ended.
    Response(FetchOutcome),
    /// The body of the answer has been read, or not.
    Body(bool),
    /// The dataset at hand has been read as a mapping document.
    Decoded(DecodeOutcome),
    /// The operation on a file has ended.
    Io(IoOutcome),
    /// The time of the payload file has been asked for.
    Stamp(StatOutcome),
    /// The payload file has been read, or not.
    Contents(bool),
}

/// What the caller is asked to do next.
#[derive(Debug)]
pub enum SyncAction {
    /// Read the file of the validation token.
    ReadEtag,
    /// Ask the source for the dataset, on condition that it does not match
    /// the token where one is given.
    Fetch { if_none_match: Option<String> },
    /// Read the body of the answer.
    ReadBody,
    /// Read the dataset at hand (the body, or the contents of the payload
    /// file) as a mapping document, off the threads that serve requests.
    Decode,
    /// Write the body to the temp file.
    WriteTemp,
    /// Move the temp file to the place of the payload file.
    Rename,
    /// Remove the payload file.
    RemovePayload,
    /// Write the token to its file.
    WriteEtag { etag: String },
    /// Remove the file of the token.
    RemoveEtag,
    /// Ask for the time at which the payload file was last modified.
    Stat,
    /// Read the payload file.
    ReadPayload,
    /// Put this snapshot in place; the run has ended well.
    Commit(CachedMappings),
    /// Nothing to put in place; the run has ended well.
    Done,
    /// The run has failed; the snapshot in place stays.
    Fail(MappingError),
}

/// Where a run stands: what it waits for.
#[derive(Debug, Clone, Copy, PartialEq, Eq, Structural)]
pub enum SyncPhase {
    RefreshEtag,
    Response,
    Body,
    RefreshDecode,
    TempWritten,
    Renamed,
    StaleRemoved,
    RenamedAgain,
    EtagWritten,
    EtagRemoved,
    RefreshStamp,
    LoadStamp,
    LoadEtag,
    LoadContents,
    LoadDecode,
    Finished,
}

pub enum TextReadView {
    Found(Seq<char>),
    Missing,
    Failed,
}

pub enum FetchView {
    Unreachable,
    Status { code: u16, etag: Option<Seq<char>> },
}

pub enum DecodeView {
    Records(Seq<SourceRecord>),
    Malformed,
    Aborted,
}

pub enum SyncEventView {
    Etag(TextReadView),
    Response(FetchView),
    Body(bool),
    Decoded(DecodeView),
    Io(IoOutcome),
    Stamp(StatOutcome),
    Contents(bool),
}

pub enum SyncActionView {
    ReadEtag,
    Fetch { if_none_match: Option<Seq<char>> },
    ReadBody,
    Decode,
    WriteTemp,
    Rename,
    RemovePayload,
    WriteEtag { etag: Seq<char> },
    RemoveEtag,
    Stat,
    ReadPayload,
    Commit(SnapshotView),
    Done,
    Fail(MappingError),
}

impl View for SyncEvent {
    type V = SyncEventView;

    open spec fn view(&self) -> SyncEventView {
        match self {
            SyncEvent::Etag(TextRead::Found(text)) => SyncEventView::Etag(
                TextReadView::Found(text@),
            ),
            SyncEvent::Etag(TextRead::Missing) => SyncEventView::Etag(TextReadView::Missing),
            SyncEvent::Etag(TextRead::Failed) => SyncEventView::Etag(TextReadView::Failed),
            SyncEvent::Response(FetchOutcome::Unreachable) => SyncEventView::Response(
                FetchView::Unreachable,
            ),
            SyncEvent::Response(FetchOutcome::Status { code, etag }) => SyncEventView::Response(
                FetchView::Status { code: *code, etag: option_text(*etag) },
            ),
            SyncEvent::Body(ok) => SyncEventView::Body(*ok),
            SyncEvent::Decoded(DecodeOutcome::Records(raw)) => SyncEventView::Decoded(
                DecodeView::Records(source_records(raw@)),
            ),
            SyncEvent::Decoded(DecodeOutcome::Malformed) => SyncEventView::Decoded(
                DecodeView::Malformed,
            ),
            SyncEvent::Decoded(DecodeOutcome::Aborted) => SyncEventView::Decoded(
                DecodeView::Aborted,
            ),
            SyncEvent::Io(outcome) => SyncEventView::Io(*outcome),
            SyncEvent::Stamp(outcome) => SyncEventView::Stamp(*outcome),
            SyncEvent::Contents(ok) => SyncEventView::Contents(*ok),
        }
    }
}

impl View for SyncAction {
    type V = SyncActionView;

    open spec fn view(&self) -> SyncActionView {
        match self {
            SyncAction::ReadEtag => SyncActionView::ReadEtag,
            SyncAction::Fetch { if_none_match } => SyncActionView::Fetch {
                if_none_match: option_text(*if_none_match),
            },
            SyncAction::ReadBody => SyncActionView::ReadBody,
            SyncAction::Decode => SyncActionView::Decode,
            SyncAction::WriteTemp => SyncActionView::WriteTemp,
            SyncAction::Rename => SyncActionView::Rename,
            SyncAction::RemovePayload => SyncActionView::RemovePayload,
            SyncAction::WriteEtag { etag } => SyncActionView::WriteEtag { etag: etag@ },
            SyncAction::RemoveEtag => SyncActionView::RemoveEtag,
            SyncAction::Stat => SyncActionView::Stat,
            SyncAction::ReadPayload => SyncActionView::ReadPayload,
            SyncAction::Commit(snapshot) => SyncActionView::Commit(snapshot@),
            SyncAction::Done => SyncActionView::Done,
            SyncAction::Fail(error) => SyncActionView::Fail(*error),
        }
    }
}

/// A run in progress: where it stands, and what it has gathered.
#[derive(Debug)]
pub struct MappingSync {
    phase: SyncPhase,
    /// The validation token that the snapshot to come goes with.
    etag: Option<String>,
    /// The time of the payload file.
    stamp: Option<FileStamp>,
    /// The index of the dataset at hand.
    index: Option<MappingIndex>,
}

pub struct SyncView {
    pub phase: SyncPhase,
    pub etag: Option<Seq<char>>,
    pub stamp: Option<FileStamp>,
    pub index: Option<IndexView>,
}

impl View for MappingSync {
    type V = SyncView;

    closed spec fn view(&self) -> SyncView {
        SyncView {
            phase: self.phase,
            etag: option_text(self.etag),
            stamp: self.stamp,
            index: match self.index {
                Some(index) => Some(index@),
                None => None,
            },
        }
    }
}

/// The status with which the source says that the dataset has not changed.
pub const NOT_MODIFIED: u16 = 304;

/// A status with which a service says that it has answered the request.
pub open spec fn is_success_status(code: u16) -> bool {
    200 <= code <= 299
}

/// Tells whether a service has answered the request, by the status of its
/// answer. Any other status counts as a failure of the request.
pub fn status_is_success(code: u16) -> (r: bool)
    ensures
        r == is_success_status(code),
{
    200 <= code && code <= 299
}

/// The validation token that the text of its file holds: the text without
/// the white space around it, none where nothing is left, or where the file
/// is absent or cannot be read.
pub open spec fn etag_in(read: TextReadView) -> Option<Seq<char>> {
    match read {
        TextReadView::Found(text) => if trim(text).len() == 0 {
            None
        } else {
            Some(trim(text))
        },
        _ => None,
    }
}

/// A run that has ended.
pub open spec fn ended() -> SyncView {
    SyncView { phase: SyncPhase::Finished, etag: None, stamp: None, index: None }
}

/// The end of a run in failure.
pub open spec fn failed(error: MappingError) -> (SyncView, SyncActionView) {
    (ended(), SyncActionView::Fail(error))
}

/// The end of a run with a snapshot to put in place.
pub open spec fn committed(state: SyncView) -> (SyncView, SyncActionView) {
    match (state.stamp, state.index) {
        (Some(modified), Some(index)) => (
            ended(),
            SyncActionView::Commit(SnapshotView { modified, etag: state.etag, index }),
        ),
        _ => failed(MappingError::OutOfTurn),
    }
}

/// What follows once the new dataset is in the place of the payload file:
/// the token is written to its file, or the file removed where there is no
/// token.
pub open spec fn after_rename(state: SyncView) -> (SyncView, SyncActionView) {
    match state.etag {
        Some(etag) => (
            SyncView { phase: SyncPhase::EtagWritten, ..state },
            SyncActionView::WriteEtag { etag },
        ),
        None => (SyncView { phase: SyncPhase::EtagRemoved, ..state }, SyncActionView::RemoveEtag),
    }
}

/// How a refresh starts: with the request itself where the snapshot in place
/// has a validation token, else with the reading of the token's file.
pub open spec fn refresh_start(snapshot: Option<SnapshotView>) -> (SyncView, SyncActionView) {
    let cached = match snapshot {
        Some(snapshot) => snapshot.etag,
        None => None,
    };
    match cached {
        Some(etag) => (
            SyncView { phase: SyncPhase::Response, etag: None, stamp: None, index: None },
            SyncActionView::Fetch { if_none_match: Some(etag) },
        ),
        None => (
            SyncView { phase: SyncPhase::RefreshEtag, etag: None, stamp: None, index: None },
            SyncActionView::ReadEtag,
        ),
    }
}

/// How a reload from the payload file starts: with the time of the file.
pub open spec fn load_start() -> (SyncView, SyncActionView) {
    (
        SyncView { phase: SyncPhase::LoadStamp, etag: None, stamp: None, index: None },
        SyncActionView::Stat,
    )
}

/// The step of a run: where the run stands next and what the caller is asked
/// to do, given where the run stands, the time of the file of the snapshot in
/// place (none where no snapshot is in place) and what the caller hands back.
///
/// A refresh asks the source for the dataset. Where the source answers that
/// nothing has changed, the run ends at once if a snapshot is in place, and
/// goes on as a reload from the payload file if none is. Where it answers
/// with any other status that is not one of success, the run fails. A fresh
/// dataset is read, written to the temp file, moved to the place of the
/// payload file, and its token kept or dropped, before the snapshot is
/// handed out.
///
/// A reload ends at once where the snapshot in place is as new as the
/// payload file, and else reads the file.
///
/// Any failure ends the run; so does an event that the run did not wait for.
pub open spec fn transition(
    state: SyncView,
    cached: Option<FileStamp>,
    event: SyncEventView,
) -> (SyncView, SyncActionView) {
    match (state.phase, event) {
        (SyncPhase::RefreshEtag, SyncEventView::Etag(read)) => (
            SyncView { phase: SyncPhase::Response, ..state },
            SyncActionView::Fetch { if_none_match: etag_in(read) },
        ),
        (SyncPhase::Response, SyncEventView::Response(FetchView::Unreachable)) => failed(
            MappingError::Download,
        ),
        (SyncPhase::Response, SyncEventView::Response(FetchView::Status { code, etag })) => {
            if code == NOT_MODIFIED {
                if cached is Some {
                    (ended(), SyncActionView::Done)
                } else {
                    load_start()
                }
            } else if is_success_status(code) {
                (SyncView { phase: SyncPhase::Body, etag, ..state }, SyncActionView::ReadBody)
            } else {
                failed(MappingError::Download)
            }
        },
        (SyncPhase::Body, SyncEventView::Body(ok)) => if ok {
            (SyncView { phase: SyncPhase::RefreshDecode, ..state }, SyncActionView::Decode)
        } else {
            failed(MappingError::Download)
        },
        (SyncPhase::RefreshDecode, SyncEventView::Decoded(DecodeView::Records(records))) => (
            SyncView { phase: SyncPhase::TempWritten, index: Some(index_of(records)), ..state },
            SyncActionView::WriteTemp,
        ),
        (SyncPhase::RefreshDecode, SyncEventView::Decoded(DecodeView::Malformed)) => failed(
            MappingError::Deserialisation,
        ),
        (SyncPhase::RefreshDecode, SyncEventView::Decoded(DecodeView::Aborted)) => failed(
            MappingError::TaskJoin,
        ),
        (SyncPhase::TempWritten, SyncEventView::Io(outcome)) => if outcome == IoOutcome::Done {
            (SyncView { phase: SyncPhase::Renamed, ..state }, SyncActionView::Rename)
        } else {
            failed(MappingError::Write(MappingFile::Temp))
        },
        (SyncPhase::Renamed, SyncEventView::Io(outcome)) => if outcome == IoOutcome::Done {
            after_rename(state)
        } else if outcome == IoOutcome::AlreadyExists {
            (SyncView { phase: SyncPhase::StaleRemoved, ..state }, SyncActionView::RemovePayload)
        } else {
            failed(MappingError::Write(MappingFile::Payload))
        },
        (SyncPhase::StaleRemoved, SyncEventView::Io(outcome)) => if outcome == IoOutcome::Done {
            (SyncView { phase: SyncPhase::RenamedAgain, ..state }, SyncActionView::Rename)
        } else {
            failed(MappingError::Remove(MappingFile::Payload))
        },
        (SyncPhase::RenamedAgain, SyncEventView::Io(outcome)) => if outcome == IoOutcome::Done {
            after_rename(state)
        } else {
            failed(MappingError::Write(MappingFile::Payload))
        },
        (SyncPhase::EtagWritten, SyncEventView::Io(outcome)) => if outcome == IoOutcome::Done {
            (SyncView { phase: SyncPhase::RefreshStamp, ..state }, SyncActionView::Stat)
        } else {
            failed(MappingError::Write(MappingFile::Etag))
        },
        (SyncPhase::EtagRemoved, SyncEventView::Io(outcome)) => if outcome == IoOutcome::Done
            || outcome == IoOutcome::NotFound {
            (SyncView { phase: SyncPhase::RefreshStamp, ..state }, SyncActionView::Stat)
        } else {
            failed(MappingError::Remove(MappingFile::Etag))
        },
        (SyncPhase::RefreshStamp, SyncEventView::Stamp(StatOutcome::At(stamp))) => committed(
            SyncView { stamp: Some(stamp), ..state },
        ),
        (SyncPhase::RefreshStamp, SyncEventView::Stamp(_)) => failed(
            MappingError::Metadata(MappingFile::Payload),
        ),
        (SyncPhase::LoadStamp, SyncEventView::Stamp(StatOutcome::At(stamp))) => (
            SyncView { phase: SyncPhase::LoadEtag, stamp: Some(stamp), ..state },
            SyncActionView::ReadEtag,
        ),
        (SyncPhase::LoadStamp, SyncEventView::Stamp(StatOutcome::NotFound)) => failed(
            MappingError::Read(MappingFile::Payload),
        ),
        (SyncPhase::LoadStamp, SyncEventView::Stamp(StatOutcome::Failed)) => failed(
            MappingError::Metadata(MappingFile::Payload),
        ),
        (SyncPhase::LoadEtag, SyncEventView::Etag(read)) => {
            if cached is Some && cached == state.stamp {
                (ended(), SyncActionView::Done)
            } else {
                (
                    SyncView { phase: SyncPhase::LoadContents, etag: etag_in(read), ..state },
                    SyncActionView::ReadPayload,
                )
            }
        },
        (SyncPhase::LoadContents, SyncEventView::Contents(ok)) => if ok {
            (SyncView { phase: SyncPhase::LoadDecode, ..state }, SyncActionView::Decode)
        } else {
            failed(MappingError::Read(MappingFile::Payload))
        },
        (SyncPhase::LoadDecode, SyncEventView::Decoded(DecodeView::Records(records))) => committed(
            SyncView { index: Some(index_of(records)), ..state },
        ),
        (SyncPhase::LoadDecode, SyncEventView::Decoded(DecodeView::Malformed)) => failed(
            MappingError::Deserialisation,
        ),
        (SyncPhase::LoadDecode, SyncEventView::Decoded(DecodeView::Aborted)) => failed(
            MappingError::TaskJoin,
        ),
        _ => failed(MappingError::OutOfTurn),
    }
}

/// Reads the validation token that the text of its file holds.
pub fn etag_from(read: TextRead) -> (r: Option<String>)
    ensures
        option_text(r) == etag_in((SyncEvent::Etag(read))@->Etag_0),
{
    match read {
        TextRead::Found(text) => {
            let inner = trimmed(&chars_of(text.as_str()));
            if inner.len() == 0 {
                None
            } else {
                Some(string_of(&inner))
            }
        },
        TextRead::Missing => None,
        TextRead::Failed => None,
    }
}

impl MappingSync {
    fn at(
        phase: SyncPhase,
        etag: Option<String>,
        stamp: Option<FileStamp>,
        index: Option<MappingIndex>,
    ) -> (r: MappingSync)
        ensures
            r@ == (SyncView {
                phase,
                etag: option_text(etag),
                stamp,
                index: match index {
                    Some(index) => Some(index@),
                    None => None,
                },
            }),
    {
        MappingSync { phase, etag, stamp, index }
    }

    fn fail(error: MappingError) -> (r: (MappingSync, SyncAction))
        ensures
            (r.0@, r.1@) == failed(error),
    {
        (Self::at(SyncPhase::Finished, None, None, None), SyncAction::Fail(error))
    }

    fn finish() -> (r: (MappingSync, SyncAction))
        ensures
            (r.0@, r.1@) == (ended(), SyncActionView::Done),
    {
        (Self::at(SyncPhase::Finished, None, None, None), SyncAction::Done)
    }

    fn commit(etag: Option<String>, stamp: Option<FileStamp>, index: Option<MappingIndex>) -> (r: (
        MappingSync,
        SyncAction,
    ))
        ensures
            (r.0@, r.1@) == committed(
                SyncView {
                    phase: SyncPhase::Finished,
                    etag: option_text(etag),
                    stamp,
                    index: match index {
                        Some(index) => Some(index@),
                        None => None,
                    },
                },
            ),
    {
        match (stamp, index) {
            (Some(modified), Some(entries)) => (
                Self::at(SyncPhase::Finished, None, None, None),
                SyncAction::Commit(CachedMappings { modified, etag, entries }),
            ),
            _ => Self::fail(MappingError::OutOfTurn),
        }
    }

    fn rename_done(etag: Option<String>, stamp: Option<FileStamp>, index: Option<MappingIndex>) -> (r:
        (MappingSync, SyncAction))
        ensures
            (r.0@, r.1@) == after_rename(
                SyncView {
                    phase: SyncPhase::Renamed,
                    etag: option_text(etag),
                    stamp,
                    index: match index {
                        Some(index) => Some(index@),
                        None => None,
                    },
                },
            ),
    {
        match etag {
            Some(text) => {
                let copy = text.clone();
                (
                    Self::at(SyncPhase::EtagWritten, Some(text), stamp, index),
                    SyncAction::WriteEtag { etag: copy },
                )
            },
            None => (Self::at(SyncPhase::EtagRemoved, None, stamp, index), SyncAction::RemoveEtag),
        }
    }

    /// Where the run stands.
    pub fn phase(&self) -> (r: SyncPhase)
        ensures
            r == self@.phase,
    {
        self.phase
    }

    fn step_fetch(self, cached: Option<FileStamp>, event: SyncEvent) -> (r: (
        MappingSync,
        SyncAction,
    ))
        requires
            self@.phase == SyncPhase::RefreshEtag || self@.phase == SyncPhase::Response
                || self@.phase == SyncPhase::Body || self@.phase == SyncPhase::RefreshDecode,
        ensures
            (r.0@, r.1@) == transition(self@, cached, event@),
    {
        let MappingSync { phase, etag, stamp, index } = self;
        match (phase, event) {
            (SyncPhase::RefreshEtag, SyncEvent::Etag(read)) => {
                let if_none_match = etag_from(read);
                (Self::at(SyncPhase::Response, etag, stamp, index), SyncAction::Fetch { if_none_match })
            },
            (SyncPhase::Response, SyncEvent::Response(FetchOutcome::Unreachable)) => Self::fail(
                MappingError::Download,
            ),
            (SyncPhase::Response, SyncEvent::Response(FetchOutcome::Status { code, etag: sent })) => {
                if code == NOT_MODIFIED {
                    if cached.is_some() {
                        Self::finish()
                    } else {
                        (Self::at(SyncPhase::LoadStamp, None, None, None), SyncAction::Stat)
                    }
                } else if status_is_success(code) {
                    (Self::at(SyncPhase::Body, sent, stamp, index), SyncAction::ReadBody)
                } else {
                    Self::fail(MappingError::Download)
                }
            },
            (SyncPhase::Body, SyncEvent::Body(ok)) => if ok {
                (Self::at(SyncPhase::RefreshDecode, etag, stamp, index), SyncAction::Decode)
            } else {
                Self::fail(MappingError::Download)
            },
            (SyncPhase::RefreshDecode, SyncEvent::Decoded(DecodeOutcome::Records(raw))) => {
                let built = MappingIndex::build(&raw);
                (Self::at(SyncPhase::TempWritten, etag, stamp, Some(built)), SyncAction::WriteTemp)
            },
            (SyncPhase::RefreshDecode, SyncEvent::Decoded(DecodeOutcome::Malformed)) => Self::fail(
                MappingError::Deserialisation,
            ),
            (SyncPhase::RefreshDecode, SyncEvent::Decoded(DecodeOutcome::Aborted)) => Self::fail(
                MappingError::TaskJoin,
            ),
            _ => Self::fail(MappingError::OutOfTurn),
        }
    }

    fn step_persist(self, cached: Option<FileStamp>, event: SyncEvent) -> (r: (
        MappingSync,
        SyncAction,
    ))
        requires
            self@.phase == SyncPhase::TempWritten || self@.phase == SyncPhase::Renamed
                || self@.phase == SyncPhase::StaleRemoved || self@.phase == SyncPhase::RenamedAgain
                || self@.phase == SyncPhase::EtagWritten || self@.phase == SyncPhase::EtagRemoved
                || self@.phase == SyncPhase::RefreshStamp,
        ensures
            (r.0@, r.1@) == transition(self@, cached, event@),
    {
        let MappingSync { phase, etag, stamp, index } = self;
        match (phase, event) {
            (SyncPhase::TempWritten, SyncEvent::Io(outcome)) => if outcome == IoOutcome::Done {
                (Self::at(SyncPhase::Renamed, etag, stamp, index), SyncAction::Rename)
            } else {
                Self::fail(MappingError::Write(MappingFile::Temp))
            },
            (SyncPhase::Renamed, SyncEvent::Io(outcome)) => if outcome == IoOutcome::Done {
                Self::rename_done(etag, stamp, index)
            } else if outcome == IoOutcome::AlreadyExists {
                (Self::at(SyncPhase::StaleRemoved, etag, stamp, index), SyncAction::RemovePayload)
            } else {
                Self::fail(MappingError::Write(MappingFile::Payload))
            },
            (SyncPhase::StaleRemoved, SyncEvent::Io(outcome)) => if outcome == IoOutcome::Done {
                (Self::at(SyncPhase::RenamedAgain, etag, stamp, index), SyncAction::Rename)
            } else {
                Self::fail(MappingError::Remove(MappingFile::Payload))
            },
            (SyncPhase::RenamedAgain, SyncEvent::Io(outcome)) => if outcome == IoOutcome::Done {
                Self::rename_done(etag, stamp, index)
            } else {
                Self::fail(MappingError::Write(MappingFile::Payload))
            },
            (SyncPhase::EtagWritten, SyncEvent::Io(outcome)) => if outcome == IoOutcome::Done {
                (Self::at(SyncPhase::RefreshStamp, etag, stamp, index), SyncAction::Stat)
            } else {
                Self::fail(MappingError::Write(MappingFile::Etag))
            },
            (SyncPhase::EtagRemoved, SyncEvent::Io(outcome)) => if outcome == IoOutcome::Done
                || outcome == IoOutcome::NotFound {
                (Self::at(SyncPhase::RefreshStamp, etag, stamp, index), SyncAction::Stat)
            } else {
                Self::fail(MappingError::Remove(MappingFile::Etag))
            },
            (SyncPhase::RefreshStamp, SyncEvent::Stamp(StatOutcome::At(at))) => Self::commit(
                etag,
                Some(at),
                index,
            ),
            (SyncPhase::RefreshStamp, SyncEvent::Stamp(_)) => Self::fail(
                MappingError::Metadata(MappingFile::Payload),
            ),
            _ => Self::fail(MappingError::OutOfTurn),
        }
    }

    fn step_load(self, cached: Option<FileStamp>, event: SyncEvent) -> (r: (
        MappingSync,
        SyncAction,
    ))
        requires
            self@.phase == SyncPhase::LoadStamp || self@.phase == SyncPhase::LoadEtag
                || self@.phase == SyncPhase::LoadContents || self@.phase == SyncPhase::LoadDecode,
        ensures
            (r.0@, r.1@) == transition(self@, cached, event@),
    {
        let MappingSync { phase, etag, stamp, index } = self;
        match (phase, event) {
            (SyncPhase::LoadStamp, SyncEvent::Stamp(StatOutcome::At(at))) => (
                Self::at(SyncPhase::LoadEtag, etag, Some(at), index),
                SyncAction::ReadEtag,
            ),
            (SyncPhase::LoadStamp, SyncEvent::Stamp(StatOutcome::NotFound)) => Self::fail(
                MappingError::Read(MappingFile::Payload),
            ),
            (SyncPhase::LoadStamp, SyncEvent::Stamp(StatOutcome::Failed)) => Self::fail(
                MappingError::Metadata(MappingFile::Payload),
            ),
            (SyncPhase::LoadEtag, SyncEvent::Etag(read)) => {
                let current = match (cached, stamp) {
                    (Some(cached), Some(at)) => cached == at,
                    _ => false,
                };
                if current {
                    Self::finish()
                } else {
                    (
                        Self::at(SyncPhase::LoadContents, etag_from(read), stamp, index),
                        SyncAction::ReadPayload,
                    )
                }
            },
            (SyncPhase::LoadContents, SyncEvent::Contents(ok)) => if ok {
                (Self::at(SyncPhase::LoadDecode, etag, stamp, index), SyncAction::Decode)
            } else {
                Self::fail(MappingError::Read(MappingFile::Payload))
            },
            (SyncPhase::LoadDecode, SyncEvent::Decoded(DecodeOutcome::Records(raw))) => {
                let built = MappingIndex::build(&raw);
                Self::commit(etag, stamp, Some(built))
            },
            (SyncPhase::LoadDecode, SyncEvent::Decoded(DecodeOutcome::Malformed)) => Self::fail(
                MappingError::Deserialisation,
            ),
            (SyncPhase::LoadDecode, SyncEvent::Decoded(DecodeOutcome::Aborted)) => Self::fail(
                MappingError::TaskJoin,
            ),
            _ => Self::fail(MappingError::OutOfTurn),
        }
    }

    /// Takes in what the caller hands back, and tells what to do next;
    /// `cached` is the time of the file of the snapshot in place, as the store
    /// tells it at that moment, none where no snapshot is in place. The step
    /// neither reads nor changes the store.
    pub fn step(self, cached: Option<FileStamp>, event: SyncEvent) -> (r: (
        MappingSync,
        SyncAction,
    ))
        ensures
            (r.0@, r.1@) == transition(self@, cached, event@),
    {
        match self.phase {
            SyncPhase::RefreshEtag
            | SyncPhase::Response
            | SyncPhase::Body
            | SyncPhase::RefreshDecode => self.step_fetch(cached, event),
            SyncPhase::TempWritten
            | SyncPhase::Renamed
            | SyncPhase::StaleRemoved
            | SyncPhase::RenamedAgain
            | SyncPhase::EtagWritten
            | SyncPhase::EtagRemoved
            | SyncPhase::RefreshStamp => self.step_persist(cached, event),
            SyncPhase::LoadStamp
            | SyncPhase::LoadEtag
            | SyncPhase::LoadContents
            | SyncPhase::LoadDecode => self.step_load(cached, event),
            SyncPhase::Finished => Self::fail(MappingError::OutOfTurn),
        }
    }
}

impl PlexAniBridgeMappings {
    /// Starts a refresh of the snapshot from the source of the dataset.
    pub fn refresh_mappings(&self) -> (r: (MappingSync, SyncAction))
        ensures
            (r.0@, r.1@) == refresh_start(self.snapshot()),
    {
        match self.cached_etag() {
            Some(etag) => (
                MappingSync::at(SyncPhase::Response, None, None, None),
                SyncAction::Fetch { if_none_match: Some(etag) },
            ),
            None => (MappingSync::at(SyncPhase::RefreshEtag, None, None, None), SyncAction::ReadEtag),
        }
    }

    /// Starts a reload of the snapshot from the payload file, which ends at
    /// once where the snapshot in place is as new as the file.
    pub fn load_mappings(&self) -> (r: (MappingSync, SyncAction))
        ensures
            (r.0@, r.1@) == load_start(),
    {
        (MappingSync::at(SyncPhase::LoadStamp, None, None, None), SyncAction::Stat)
    }
}

/// A refresh that finds the source unchanged leaves the snapshot in place
/// alone: with a snapshot in place the run ends at once and hands out
/// nothing to put in its place, however often it is repeated.
pub proof fn lemma_unchanged_source_keeps_snapshot(
    state: SyncView,
    cached: FileStamp,
    etag: Option<Seq<char>>,
)
    requires
        state.phase == SyncPhase::Response,
    ensures
        transition(
            state,
            Some(cached),
            SyncEventView::Response(FetchView::Status { code: NOT_MODIFIED, etag }),
        ) == (ended(), SyncActionView::Done),
{
}

/// A refresh that finds the source unchanged while no snapshot is in place
/// goes on as a reload from the payload file.
pub proof fn lemma_unchanged_source_without_snapshot_reloads(
    state: SyncView,
    etag: Option<Seq<char>>,
)
    requires
        state.phase == SyncPhase::Response,
    ensures
        transition(
            state,
            None,
            SyncEventView::Response(FetchView::Status { code: NOT_MODIFIED, etag }),
        ) == load_start(),
{
}

/// A refresh that is answered with a status that is neither one of success
/// nor the one that says that nothing has changed fails as a download that
/// did not go through; nothing is read, written or handed out.
pub proof fn lemma_other_status_fails_the_refresh(
    state: SyncView,
    cached: Option<FileStamp>,
    code: u16,
    etag: Option<Seq<char>>,
)
    requires
        state.phase == SyncPhase::Response,
        code != NOT_MODIFIED,
        !is_success_status(code),
    ensures
        transition(state, cached, SyncEventView::Response(FetchView::Status { code, etag }))
            == failed(MappingError::Download),
{
}

/// A refresh sends the validation token of the snapshot in place where it
/// has one, and else the token that the token's file holds.
pub proof fn lemma_refresh_sends_known_token(
    snapshot: Option<SnapshotView>,
    cached: Option<FileStamp>,
    read: TextReadView,
)
    ensures
        match refresh_start(snapshot) {
            (state, SyncActionView::Fetch { if_none_match }) => state.phase == SyncPhase::Response
                && snapshot is Some && if_none_match is Some && if_none_match
                == snapshot.unwrap().etag,
            (state, SyncActionView::ReadEtag) => transition(
                state,
                cached,
                SyncEventView::Etag(read),
            ).1 == (SyncActionView::Fetch { if_none_match: etag_in(read) }) && transition(
                state,
                cached,
                SyncEventView::Etag(read),
            ).0.phase == SyncPhase::Response,
            _ => false,
        },
{
}

/// A snapshot is handed out only at the end of a run that went well: after
/// the time of the freshly written payload file has been told, or after the
/// payload file has been read as a mapping document. A run that fails hands
/// out none, and is over.
pub proof fn lemma_snapshot_only_from_success(
    state: SyncView,
    cached: Option<FileStamp>,
    event: SyncEventView,
)
    ensures
        transition(state, cached, event).1 is Commit ==> (state.phase == SyncPhase::RefreshStamp
            && event is Stamp && event->Stamp_0 is At) || (state.phase == SyncPhase::LoadDecode
            && event is Decoded && event->Decoded_0 is Records),
        transition(state, cached, event).1 is Commit || transition(state, cached, event).1 is Fail
            || transition(state, cached, event).1 is Done ==> transition(
            state,
            cached,
            event,
        ).0 == ended(),
{
}

/// The snapshot that a refresh hands out holds the index of the dataset that
/// was read, the token that the source sent with it and the time of the
/// payload file.
pub proof fn lemma_refresh_snapshot_holds_dataset(
    state: SyncView,
    cached: Option<FileStamp>,
    records: Seq<SourceRecord>,
    stamp: FileStamp,
)
    requires
        state.phase == SyncPhase::RefreshDecode,
    ensures
        ({
            let decoded = transition(
                state,
                cached,
                SyncEventView::Decoded(DecodeView::Records(records)),
            ).0;
            let written = SyncView { phase: SyncPhase::RefreshStamp, ..decoded };
            transition(written, cached, SyncEventView::Stamp(StatOutcome::At(stamp))).1
                == SyncActionView::Commit(
                SnapshotView { modified: stamp, etag: state.etag, index: index_of(records) },
            )
        }),
{
}

/// The snapshot that a reload hands out holds the index of the records that
/// the payload file was read as: the same index that the same records gave
/// when they were first downloaded.
pub proof fn lemma_reload_snapshot_holds_dataset(
    state: SyncView,
    cached: Option<FileStamp>,
    records: Seq<SourceRecord>,
)
    requires
        state.phase == SyncPhase::LoadDecode,
        state.stamp is Some,
    ensures
        transition(state, cached, SyncEventView::Decoded(DecodeView::Records(records))).1 == (
        SyncActionView::Commit(
            SnapshotView {
                modified: state.stamp.unwrap(),
                etag: state.etag,
                index: index_of(records),
            },
        )),
{
}

} // verus!

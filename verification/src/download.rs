//! The bookkeeping of one streamed download.
//!
//! The engine is a state machine. It looks at the response's content
//! type before any file exists, counts the bytes of every chunk, and
//! says after each chunk where the progress indicator stands. The driver
//! owns the socket and the file: it performs each action and reports
//! what happened.

use vstd::prelude::*;
use vstd::string::*;
use crate::failure::{Failure, FailureView};

verus! {

/// How far a download has come.
#[derive(Debug, Clone, Copy, PartialEq, Eq)]
pub struct Progress {
    /// The bytes received so far: the sum of the chunks' lengths.
    pub downloaded: u64,
    /// The size that the panel reported for the backup.
    pub expected: u64,
}

/// What the driver observed while performing the last action.
#[derive(Debug, PartialEq, Eq)]
pub enum DownloadEvent {
    /// The response arrived, with this `Content-Type` if it has one.
    Response { content_type: Option<String> },
    /// The body of an error page was read as text.
    ErrorPage(String),
    /// The destination file was created.
    FileCreated,
    /// A chunk of `len` bytes arrived.
    Chunk { len: u64 },
    /// The chunk was appended to the file.
    ChunkWritten,
    /// The body has no more chunks.
    EndOfStream,
    /// The action failed.
    Failed(Failure),
}

/// Mathematical value of a [`DownloadEvent`].
pub enum DownloadEventView {
    Response { content_type: Option<Seq<char>> },
    ErrorPage(Seq<char>),
    FileCreated,
    Chunk { len: u64 },
    ChunkWritten,
    EndOfStream,
    Failed(FailureView),
}

impl View for DownloadEvent {
    type V = DownloadEventView;

    open spec fn view(&self) -> DownloadEventView {
        match *self {
            DownloadEvent::Response { content_type } => DownloadEventView::Response {
                content_type: match content_type {
                    Some(value) => Some(value@),
                    None => None,
                },
            },
            DownloadEvent::ErrorPage(text) => DownloadEventView::ErrorPage(text@),
            DownloadEvent::FileCreated => DownloadEventView::FileCreated,
            DownloadEvent::Chunk { len } => DownloadEventView::Chunk { len },
            DownloadEvent::ChunkWritten => DownloadEventView::ChunkWritten,
            DownloadEvent::EndOfStream => DownloadEventView::EndOfStream,
            DownloadEvent::Failed(failure) => DownloadEventView::Failed(failure@),
        }
    }
}

/// What the driver has to do next.
#[derive(Debug, PartialEq, Eq)]
pub enum DownloadAction {
    /// Send a GET to `url`, with no headers of the client's own.
    SendRequest { url: String },
    /// Read the response body as text: it is an error page.
    ReadErrorPage,
    /// Create the file `name`, emptying it if it exists, and show an
    /// indicator that runs to `expected` bytes.
    CreateFile { name: String, expected: u64 },
    /// Wait for the next chunk of the body.
    NextChunk,
    /// Move the indicator to this position and append the chunk to the
    /// file.
    WriteChunk(Progress),
    /// Hand this result to the caller; on success mark the indicator
    /// complete first.
    Return(Result<Progress, Failure>),
}

/// Mathematical value of a [`DownloadAction`].
pub enum DownloadActionView {
    SendRequest { url: Seq<char> },
    ReadErrorPage,
    CreateFile { name: Seq<char>, expected: u64 },
    NextChunk,
    WriteChunk(Progress),
    Return(Result<Progress, FailureView>),
}

impl View for DownloadAction {
    type V = DownloadActionView;

    open spec fn view(&self) -> DownloadActionView {
        match *self {
            DownloadAction::SendRequest { url } => DownloadActionView::SendRequest { url: url@ },
            DownloadAction::ReadErrorPage => DownloadActionView::ReadErrorPage,
            DownloadAction::CreateFile { name, expected } => DownloadActionView::CreateFile {
                name: name@,
                expected,
            },
            DownloadAction::NextChunk => DownloadActionView::NextChunk,
            DownloadAction::WriteChunk(progress) => DownloadActionView::WriteChunk(progress),
            DownloadAction::Return(result) => DownloadActionView::Return(
                match result {
                    Ok(progress) => Ok(progress),
                    Err(failure) => Err(failure@),
                },
            ),
        }
    }
}

/// The operation that a download waits for.
#[derive(Debug, Clone, Copy, PartialEq, Eq)]
pub enum Stage {
    /// The response to the GET.
    Requesting,
    /// The text of the error page.
    Rejecting,
    /// The creation of the file.
    Creating,
    /// The next chunk, or the end of the body.
    Fetching,
    /// The write of the last chunk.
    Writing,
    /// Nothing: the result was handed out.
    Closed,
}

/// Mathematical value of a [`Download`].
pub struct DownloadView {
    pub stage: Stage,
    pub file_name: Seq<char>,
    pub progress: Progress,
}

/// Whether a response is an error page instead of an archive: its
/// content type is exactly `text/html`.
pub open spec fn is_error_page(content_type: Option<Seq<char>>) -> bool {
    content_type == Some("text/html"@)
}

impl DownloadView {
    /// Nothing is counted before the file exists.
    pub open spec fn inv(self) -> bool {
        (self.stage is Requesting || self.stage is Rejecting || self.stage is Creating)
            ==> self.progress.downloaded == 0
    }

    /// The download after `event`, and the next action, or `None` where
    /// `event` does not answer the action that the download waits for.
    ///
    /// * A failure ends the download with that failure. Nothing is
    ///   cleaned up: what was written stays on disk.
    /// * An error page is read and ends the download as rejected, with
    ///   the page's text; no file is created.
    /// * Any other response leads to the creation of the file and then
    ///   to the first chunk.
    /// * A chunk adds its length to the count and is written with the
    ///   indicator at the new count; then the next chunk is awaited. A
    ///   chunk that would take the count beyond its 64 bits is refused.
    /// * The end of the body ends the download with the final count,
    ///   whether or not it equals the expected size.
    /// * A closed download takes nothing.
    pub open spec fn step(self, event: DownloadEventView) -> Option<
        (DownloadView, DownloadActionView),
    > {
        match (self.stage, event) {
            (Stage::Closed, _) => None,
            (_, DownloadEventView::Failed(failure)) => Some(
                (
                    DownloadView { stage: Stage::Closed, ..self },
                    DownloadActionView::Return(Err(failure)),
                ),
            ),
            (Stage::Requesting, DownloadEventView::Response { content_type }) => Some(
                if is_error_page(content_type) {
                    (
                        DownloadView { stage: Stage::Rejecting, ..self },
                        DownloadActionView::ReadErrorPage,
                    )
                } else {
                    (
                        DownloadView { stage: Stage::Creating, ..self },
                        DownloadActionView::CreateFile {
                            name: self.file_name,
                            expected: self.progress.expected,
                        },
                    )
                },
            ),
            (Stage::Rejecting, DownloadEventView::ErrorPage(text)) => Some(
                (
                    DownloadView { stage: Stage::Closed, ..self },
                    DownloadActionView::Return(Err(FailureView::DownloadRejected(text))),
                ),
            ),
            (Stage::Creating, DownloadEventView::FileCreated) => Some(
                (DownloadView { stage: Stage::Fetching, ..self }, DownloadActionView::NextChunk),
            ),
            (Stage::Fetching, DownloadEventView::Chunk { len }) => if self.progress.downloaded + len
                <= u64::MAX {
                let progress = Progress {
                    downloaded: (self.progress.downloaded + len) as u64,
                    expected: self.progress.expected,
                };
                Some(
                    (
                        DownloadView { stage: Stage::Writing, progress, ..self },
                        DownloadActionView::WriteChunk(progress),
                    ),
                )
            } else {
                None
            },
            (Stage::Writing, DownloadEventView::ChunkWritten) => Some(
                (DownloadView { stage: Stage::Fetching, ..self }, DownloadActionView::NextChunk),
            ),
            (Stage::Fetching, DownloadEventView::EndOfStream) => Some(
                (
                    DownloadView { stage: Stage::Closed, ..self },
                    DownloadActionView::Return(Ok(self.progress)),
                ),
            ),
            _ => None,
        }
    }

    /// Whether `event` answers the action that the download waits for.
    pub open spec fn accepts(self, event: DownloadEventView) -> bool {
        self.step(event) is Some
    }

    /// The download after `event`; a refused event leaves it as it is.
    pub open spec fn after(self, event: DownloadEventView) -> DownloadView {
        match self.step(event) {
            Some((next, _)) => next,
            None => self,
        }
    }

    /// The download after the chunks of these lengths have arrived and
    /// been written, one after the other.
    pub open spec fn after_chunks(self, lens: Seq<u64>) -> DownloadView
        decreases lens.len(),
    {
        if lens.len() == 0 {
            self
        } else {
            self.after_chunks(lens.drop_last()).after(
                DownloadEventView::Chunk { len: lens.last() },
            ).after(DownloadEventView::ChunkWritten)
        }
    }
}

/// The sum of the lengths of a run of chunks.
pub open spec fn total(lens: Seq<u64>) -> nat
    decreases lens.len(),
{
    if lens.len() == 0 {
        0
    } else {
        total(lens.drop_last()) + lens.last() as nat
    }
}

/// One download.
pub struct Download {
    stage: Stage,
    file_name: String,
    progress: Progress,
}

impl View for Download {
    type V = DownloadView;

    closed spec fn view(&self) -> DownloadView {
        DownloadView { stage: self.stage, file_name: self.file_name@, progress: self.progress }
    }
}

impl Download {
    /// A download of `url` into `file_name` that expects `expected`
    /// bytes, and its first action: send the request.
    pub fn start(url: String, file_name: String, expected: u64) -> (begun: (
        Download,
        DownloadAction,
    ))
        ensures
            begun.0@ == (DownloadView {
                stage: Stage::Requesting,
                file_name: file_name@,
                progress: Progress { downloaded: 0, expected },
            }),
            begun.1@ == (DownloadActionView::SendRequest { url: url@ }),
    {
        (
            Download {
                stage: Stage::Requesting,
                file_name,
                progress: Progress { downloaded: 0, expected },
            },
            DownloadAction::SendRequest { url },
        )
    }

    /// The operation that the download waits for.
    pub fn stage(&self) -> (stage: Stage)
        ensures
            stage == self@.stage,
    {
        self.stage
    }

    /// The bytes counted so far and the expected size.
    pub fn progress(&self) -> (progress: Progress)
        ensures
            progress == self@.progress,
    {
        self.progress
    }

    /// Whether `event` answers the action that the download waits for.
    pub fn accepts(&self, event: &DownloadEvent) -> (ok: bool)
        ensures
            ok == self@.accepts(event@),
    {
        match (self.stage, event) {
            (Stage::Closed, _) => false,
            (_, DownloadEvent::Failed(_)) => true,
            (Stage::Requesting, DownloadEvent::Response { .. }) => true,
            (Stage::Rejecting, DownloadEvent::ErrorPage(_)) => true,
            (Stage::Creating, DownloadEvent::FileCreated) => true,
            (Stage::Fetching, DownloadEvent::Chunk { len }) => *len <= u64::MAX
                - self.progress.downloaded,
            (Stage::Fetching, DownloadEvent::EndOfStream) => true,
            (Stage::Writing, DownloadEvent::ChunkWritten) => true,
            _ => false,
        }
    }

    /// Takes what the driver observed and hands out the next action. An
    /// event that does not answer the last action is refused with `None`
    /// and changes nothing.
    pub fn step(&mut self, event: DownloadEvent) -> (action: Option<DownloadAction>)
        ensures
            match action {
                Some(next) => old(self)@.step(event@) == Some((final(self)@, next@)),
                None => old(self)@.step(event@) is None && final(self)@ == old(self)@,
            },
    {
        match (self.stage, event) {
            (Stage::Closed, _) => None,
            (_, DownloadEvent::Failed(failure)) => {
                self.stage = Stage::Closed;
                Some(DownloadAction::Return(Err(failure)))
            },
            (Stage::Requesting, DownloadEvent::Response { content_type }) => {
                let rejected = match &content_type {
                    Some(value) => *value == String::from_str("text/html"),
                    None => false,
                };
                if rejected {
                    self.stage = Stage::Rejecting;
                    Some(DownloadAction::ReadErrorPage)
                } else {
                    self.stage = Stage::Creating;
                    Some(
                        DownloadAction::CreateFile {
                            name: self.file_name.clone(),
                            expected: self.progress.expected,
                        },
                    )
                }
            },
            (Stage::Rejecting, DownloadEvent::ErrorPage(text)) => {
                self.stage = Stage::Closed;
                Some(DownloadAction::Return(Err(Failure::DownloadRejected(text))))
            },
            (Stage::Creating, DownloadEvent::FileCreated) => {
                self.stage = Stage::Fetching;
                Some(DownloadAction::NextChunk)
            },
            (Stage::Fetching, DownloadEvent::Chunk { len }) => {
                if len <= u64::MAX - self.progress.downloaded {
                    self.stage = Stage::Writing;
                    self.progress.downloaded = self.progress.downloaded + len;
                    Some(DownloadAction::WriteChunk(self.progress))
                } else {
                    None
                }
            },
            (Stage::Writing, DownloadEvent::ChunkWritten) => {
                self.stage = Stage::Fetching;
                Some(DownloadAction::NextChunk)
            },
            (Stage::Fetching, DownloadEvent::EndOfStream) => {
                self.stage = Stage::Closed;
                Some(DownloadAction::Return(Ok(self.progress)))
            },
            _ => None,
        }
    }
}

/// The count is the sum of the chunks: a download that waits for a
/// chunk takes every chunk of a run whose lengths still fit the count,
/// and after the run it waits again, with the count grown by exactly
/// the sum of the lengths. Nothing else has changed.
pub proof fn lemma_count_is_sum(download: DownloadView, lens: Seq<u64>)
    requires
        download.stage is Fetching,
        download.progress.downloaded + total(lens) <= u64::MAX,
    ensures
        download.after_chunks(lens) == (DownloadView {
            progress: Progress {
                downloaded: (download.progress.downloaded + total(lens)) as u64,
                expected: download.progress.expected,
            },
            ..download
        }),
        forall|i: int|
            0 <= i < lens.len() ==> (#[trigger] download.after_chunks(lens.take(i))).accepts(
                DownloadEventView::Chunk { len: lens[i] },
            ),
    decreases lens.len(),
{
    if lens.len() > 0 {
        let front = lens.drop_last();
        lemma_count_is_sum(download, front);
        assert forall|i: int| 0 <= i < lens.len() implies (#[trigger] download.after_chunks(
            lens.take(i),
        )).accepts(DownloadEventView::Chunk { len: lens[i] }) by {
            if i < front.len() {
                assert(front.take(i) =~= lens.take(i));
                assert(front[i] == lens[i]);
            } else {
                assert(lens.take(i) =~= front);
            }
        }
    }
}

/// At the end of the body the download returns the sum of the chunks
/// that it was given, beside the expected size, as a success whether or
/// not the two are equal.
pub proof fn lemma_end_returns_sum(download: DownloadView, lens: Seq<u64>)
    requires
        download.stage is Fetching,
        download.progress.downloaded + total(lens) <= u64::MAX,
    ensures
        ({
            &&& download.after_chunks(lens).step(DownloadEventView::EndOfStream) matches Some(
                (closed, returned),
            )
            &&& closed.stage is Closed
            &&& returned == DownloadActionView::Return(
                Ok(
                    Progress {
                        downloaded: (download.progress.downloaded + total(lens)) as u64,
                        expected: download.progress.expected,
                    },
                ),
            )
        }),
{
    lemma_count_is_sum(download, lens);
}

/// An error page ends the download as rejected with the page's text,
/// and neither of the two actions on the way creates a file.
pub proof fn lemma_error_page_is_rejected(download: DownloadView, text: Seq<char>)
    requires
        download.stage is Requesting,
    ensures
        ({
            let response = DownloadEventView::Response { content_type: Some("text/html"@) };
            &&& download.step(response) matches Some((rejecting, read))
            &&& read == DownloadActionView::ReadErrorPage
            &&& rejecting.step(DownloadEventView::ErrorPage(text)) matches Some((closed, returned))
            &&& returned == DownloadActionView::Return(Err(FailureView::DownloadRejected(text)))
            &&& closed.stage is Closed
        }),
{
}

/// A file is created for one reason only: a response that is no error
/// page has just arrived.
pub proof fn lemma_file_created_once(download: DownloadView, event: DownloadEventView)
    ensures
        (download.step(event) matches Some((_, DownloadActionView::CreateFile { .. }))) <==> (
        download.stage is Requesting && (event matches DownloadEventView::Response {
            content_type,
        } && !is_error_page(content_type))),
{
}

/// Every step keeps the rule that nothing is counted before the file
/// exists, and the count never shrinks.
pub proof fn lemma_step_keeps_inv(download: DownloadView, event: DownloadEventView)
    requires
        download.inv(),
    ensures
        download.after(event).inv(),
        download.after(event).progress.downloaded >= download.progress.downloaded,
        download.after(event).progress.expected == download.progress.expected,
        download.after(event).file_name == download.file_name,
{
}

/// A whole download: a response that is no error page, the file, the
/// chunks and the end of the body give the sum of the chunks' lengths
/// as the final count, beside the expected size.
pub proof fn lemma_download_of_chunks(
    download: DownloadView,
    content_type: Option<Seq<char>>,
    lens: Seq<u64>,
)
    requires
        download.inv(),
        download.stage is Requesting,
        !is_error_page(content_type),
        total(lens) <= u64::MAX,
    ensures
        ({
            let fetching = download.after(DownloadEventView::Response { content_type }).after(
                DownloadEventView::FileCreated,
            );
            &&& fetching == (DownloadView { stage: Stage::Fetching, ..download })
            &&& fetching.after_chunks(lens).step(DownloadEventView::EndOfStream) matches Some(
                (closed, returned),
            )
            &&& closed.stage is Closed
            &&& returned == DownloadActionView::Return(
                Ok(Progress { downloaded: total(lens) as u64, expected: download.progress.expected }),
            )
        }),
{
    let fetching = download.after(DownloadEventView::Response { content_type }).after(
        DownloadEventView::FileCreated,
    );
    lemma_end_returns_sum(fetching, lens);
}

} // verus!

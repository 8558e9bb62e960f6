//! The fatal errors of the client.

use vstd::prelude::*;
use vstd::string::*;

verus! {

/// A fatal error. Each variant carries the diagnostic text of its cause.
#[derive(Debug, PartialEq, Eq)]
pub enum Failure {
    /// A request could not be sent or its response could not be read.
    Transport(String),
    /// A response body did not have the expected JSON shape.
    Decode(String),
    /// The download link served an HTML page; the text is that page's body.
    DownloadRejected(String),
    /// A local file or the terminal could not be written.
    Io(String),
}

/// Mathematical value of a [`Failure`].
pub enum FailureView {
    Transport(Seq<char>),
    Decode(Seq<char>),
    DownloadRejected(Seq<char>),
    Io(Seq<char>),
}

impl FailureView {
    /// The diagnostic shown to the user: the cause's text, and for a
    /// rejected download that text behind a fixed prefix.
    pub open spec fn text(self) -> Seq<char> {
        match self {
            FailureView::Transport(m) => m,
            FailureView::Decode(m) => m,
            FailureView::DownloadRejected(m) => "Failed to download backup: "@ + m,
            FailureView::Io(m) => m,
        }
    }
}

impl View for Failure {
    type V = FailureView;

    open spec fn view(&self) -> FailureView {
        match *self {
            Failure::Transport(m) => FailureView::Transport(m@),
            Failure::Decode(m) => FailureView::Decode(m@),
            Failure::DownloadRejected(m) => FailureView::DownloadRejected(m@),
            Failure::Io(m) => FailureView::Io(m@),
        }
    }
}

impl Failure {
    /// The diagnostic shown to the user.
    pub fn describe(&self) -> (text: String)
        ensures
            text@ == self@.text(),
    {
        match self {
            Failure::Transport(m) => m.clone(),
            Failure::Decode(m) => m.clone(),
            Failure::DownloadRejected(m) => String::from_str("Failed to download backup: ").concat(
                m.as_str(),
            ),
            Failure::Io(m) => m.clone(),
        }
    }

}

impl Clone for Failure {
    /// A copy with the same kind and text.
    fn clone(&self) -> (copy: Failure)
        ensures
            copy@ == self@,
    {
        match self {
            Failure::Transport(m) => Failure::Transport(m.clone()),
            Failure::Decode(m) => Failure::Decode(m.clone()),
            Failure::DownloadRejected(m) => Failure::DownloadRejected(m.clone()),
            Failure::Io(m) => Failure::Io(m.clone()),
        }
    }
}

} // verus!

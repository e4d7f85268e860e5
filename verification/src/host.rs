//! What a tool may ask of the machine that the server runs on, and the
//! answers. A tool never reaches for a file or a process itself: it names a
//! question, and whoever drives the server finds the answer.

use crate::text::texts;
use vstd::prelude::*;

verus! {

/// One entry of a directory listing.
#[derive(Debug, Clone, PartialEq, Eq)]
pub struct DirEntry {
    pub name: String,
    pub is_dir: bool,
}

/// The mathematical content of a [`DirEntry`].
pub struct DirEntryView {
    pub name: Seq<char>,
    pub is_dir: bool,
}

impl View for DirEntry {
    type V = DirEntryView;

    open spec fn view(&self) -> DirEntryView {
        DirEntryView { name: self.name@, is_dir: self.is_dir }
    }
}

/// The contents of each entry of a listing.
pub open spec fn entries_view(entries: Seq<DirEntry>) -> Seq<DirEntryView> {
    Seq::new(entries.len(), |i: int| entries[i]@)
}

/// What a tool needs from the machine it runs on. The tool names the
/// question; whoever drives the server finds the answer and calls the tool
/// again with it.
#[derive(Debug, Clone, PartialEq, Eq)]
pub enum HostRequest {
    /// The operating system and the processor architecture.
    Platform,
    /// The machine's host name.
    HostName,
    /// The entries of the directory at `path`.
    ListDir { path: String },
    /// The size in bytes of the file at `path`.
    FileSize { path: String },
    /// The contents of the file at `path`, as text.
    FileText { path: String },
    /// The outcome of running `command` with `args`.
    Run { command: String, args: Vec<String> },
}

/// The mathematical content of a [`HostRequest`].
pub enum HostRequestView {
    Platform,
    HostName,
    ListDir { path: Seq<char> },
    FileSize { path: Seq<char> },
    FileText { path: Seq<char> },
    Run { command: Seq<char>, args: Seq<Seq<char>> },
}

impl View for HostRequest {
    type V = HostRequestView;

    open spec fn view(&self) -> HostRequestView {
        match self {
            HostRequest::Platform => HostRequestView::Platform,
            HostRequest::HostName => HostRequestView::HostName,
            HostRequest::ListDir { path } => HostRequestView::ListDir { path: path@ },
            HostRequest::FileSize { path } => HostRequestView::FileSize { path: path@ },
            HostRequest::FileText { path } => HostRequestView::FileText { path: path@ },
            HostRequest::Run { command, args } => HostRequestView::Run {
                command: command@,
                args: texts(args@),
            },
        }
    }
}

/// The answer to a [`HostRequest`].
#[derive(Debug, Clone, PartialEq, Eq)]
pub enum HostReply {
    Platform { os: String, arch: String },
    HostName(String),
    DirEntries(Vec<DirEntry>),
    FileSize(u64),
    FileText(String),
    /// The command ran: what it wrote, and whether it exited with success.
    Ran { stdout: String, stderr: String, success: bool },
    /// The machine refused; the text says why.
    Failed(String),
}

/// The mathematical content of a [`HostReply`].
pub enum HostReplyView {
    Platform { os: Seq<char>, arch: Seq<char> },
    HostName(Seq<char>),
    DirEntries(Seq<DirEntryView>),
    FileSize(u64),
    FileText(Seq<char>),
    Ran { stdout: Seq<char>, stderr: Seq<char>, success: bool },
    Failed(Seq<char>),
}

impl View for HostReply {
    type V = HostReplyView;

    open spec fn view(&self) -> HostReplyView {
        match self {
            HostReply::Platform { os, arch } => HostReplyView::Platform { os: os@, arch: arch@ },
            HostReply::HostName(name) => HostReplyView::HostName(name@),
            HostReply::DirEntries(entries) => HostReplyView::DirEntries(entries_view(entries@)),
            HostReply::FileSize(size) => HostReplyView::FileSize(*size),
            HostReply::FileText(text) => HostReplyView::FileText(text@),
            HostReply::Ran { stdout, stderr, success } => HostReplyView::Ran {
                stdout: stdout@,
                stderr: stderr@,
                success: *success,
            },
            HostReply::Failed(why) => HostReplyView::Failed(why@),
        }
    }
}

/// The contents of each reply of a list.
pub open spec fn replies_view(replies: Seq<HostReply>) -> Seq<HostReplyView> {
    Seq::new(replies.len(), |i: int| replies[i]@)
}

/// `gethostname::gethostname`: the host name that the operating system
/// reports at the time of the call, with what is not Unicode replaced.
/// Nothing is promised of the name.
#[verifier::external_body]
fn host_name() -> String {
    gethostname::gethostname().to_string_lossy().into_owned()
}

impl HostRequest {
    /// Answers the one question that needs no access to files or processes:
    /// the host name. Every other question is left to the caller.
    pub fn answer(&self) -> (r: Option<HostReply>)
        ensures
            match r {
                Some(reply) => self@ is HostName && reply@ is HostName,
                None => !(self@ is HostName),
            },
    {
        match self {
            HostRequest::HostName => Some(HostReply::HostName(host_name())),
            _ => None,
        }
    }
}

} // verus!

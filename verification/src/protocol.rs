//! What an engine asks of its caller, and what the caller answers.
//!
//! A [`Request`] names one primitive operation on the file system or the
//! terminal. The caller performs it and hands back the matching [`Reply`].

use vstd::prelude::*;

verus! {

/// What a path turned out to be when it was looked at.
#[derive(Clone, Copy, Debug, PartialEq, Eq, Structural)]
pub enum EntryKind {
    /// Nothing is there, or it cannot be examined.
    Missing,
    /// A regular file.
    File,
    /// A directory.
    Directory,
    /// Something else: a device node, a socket and the like.
    Other,
}

/// One primitive operation that the caller is asked to perform.
#[derive(Debug, PartialEq, Eq)]
pub enum Request {
    /// Look at `path` and say what it is. Answered by [`Reply::Kind`].
    Stat { path: String },
    /// Read the attributes of `path`. Answered by [`Reply::Attributes`].
    ReadAttributes { path: String },
    /// Clear the read-only attribute of `path`. Answered by [`Reply::Done`].
    ClearReadOnly { path: String },
    /// Delete the file `path`. Answered by [`Reply::Done`].
    RemoveFile { path: String },
    /// Delete the empty directory `path`. Answered by [`Reply::Done`].
    RemoveDir { path: String },
    /// Produce the next entry below `root`, contents before their container,
    /// `root` itself left out. Answered by [`Reply::Entry`], or by
    /// [`Reply::Unreadable`] where the walk came upon something it could not
    /// read.
    NextEntry { root: String },
    /// Count the entries of the tree at `root`, `root` included. Answered by
    /// [`Reply::Count`].
    CountEntries { root: String },
    /// Put `prompt` to the user as a yes/no question. Answered by
    /// [`Reply::Answer`].
    Confirm { prompt: String },
    /// Print `line`. Answered by [`Reply::Printed`].
    Print { line: String },
}

/// The mathematical value of a [`Request`].
pub enum RequestView {
    Stat { path: Seq<char> },
    ReadAttributes { path: Seq<char> },
    ClearReadOnly { path: Seq<char> },
    RemoveFile { path: Seq<char> },
    RemoveDir { path: Seq<char> },
    NextEntry { root: Seq<char> },
    CountEntries { root: Seq<char> },
    Confirm { prompt: Seq<char> },
    Print { line: Seq<char> },
}

impl View for Request {
    type V = RequestView;

    open spec fn view(&self) -> RequestView {
        match *self {
            Request::Stat { path } => RequestView::Stat { path: path@ },
            Request::ReadAttributes { path } => RequestView::ReadAttributes { path: path@ },
            Request::ClearReadOnly { path } => RequestView::ClearReadOnly { path: path@ },
            Request::RemoveFile { path } => RequestView::RemoveFile { path: path@ },
            Request::RemoveDir { path } => RequestView::RemoveDir { path: path@ },
            Request::NextEntry { root } => RequestView::NextEntry { root: root@ },
            Request::CountEntries { root } => RequestView::CountEntries { root: root@ },
            Request::Confirm { prompt } => RequestView::Confirm { prompt: prompt@ },
            Request::Print { line } => RequestView::Print { line: line@ },
        }
    }
}

/// The caller's answer to a [`Request`].
#[derive(Debug, PartialEq, Eq)]
pub enum Reply {
    /// What the path is.
    Kind(EntryKind),
    /// Whether the path is read-only; `None` where its attributes cannot be
    /// read.
    Attributes(Option<bool>),
    /// How an operation that changes the file system ended: `Err` carries the
    /// cause in words.
    Done(Result<(), String>),
    /// The next entry of a walk, or `None` once the walk is exhausted.
    Entry(Option<String>),
    /// The walk came upon an entry that it could not read, for the cause
    /// given; it can be asked for the next one.
    Unreadable(String),
    /// The number of entries counted.
    Count(usize),
    /// The user's answer: `true` for yes.
    Answer(bool),
    /// The line was printed.
    Printed,
}

/// The mathematical value of a [`Reply`].
pub enum ReplyView {
    Kind(EntryKind),
    Attributes(Option<bool>),
    Done(Result<(), Seq<char>>),
    Entry(Option<Seq<char>>),
    Unreadable(Seq<char>),
    Count(usize),
    Answer(bool),
    Printed,
}

impl View for Reply {
    type V = ReplyView;

    open spec fn view(&self) -> ReplyView {
        match *self {
            Reply::Kind(kind) => ReplyView::Kind(kind),
            Reply::Attributes(read_only) => ReplyView::Attributes(read_only),
            Reply::Done(Ok(())) => ReplyView::Done(Ok(())),
            Reply::Done(Err(cause)) => ReplyView::Done(Err(cause@)),
            Reply::Entry(Some(path)) => ReplyView::Entry(Some(path@)),
            Reply::Entry(None) => ReplyView::Entry(None),
            Reply::Unreadable(cause) => ReplyView::Unreadable(cause@),
            Reply::Count(count) => ReplyView::Count(count),
            Reply::Answer(yes) => ReplyView::Answer(yes),
            Reply::Printed => ReplyView::Printed,
        }
    }
}

/// Whether `reply` is an answer to `request`: each request is answered by one
/// form of reply, but for the walk, which may also say that it could not read
/// an entry.
pub open spec fn answers(request: RequestView, reply: ReplyView) -> bool {
    match request {
        RequestView::Stat { .. } => reply is Kind,
        RequestView::ReadAttributes { .. } => reply is Attributes,
        RequestView::ClearReadOnly { .. } => reply is Done,
        RequestView::RemoveFile { .. } => reply is Done,
        RequestView::RemoveDir { .. } => reply is Done,
        RequestView::NextEntry { .. } => reply is Entry || reply is Unreadable,
        RequestView::CountEntries { .. } => reply is Count,
        RequestView::Confirm { .. } => reply is Answer,
        RequestView::Print { .. } => reply is Printed,
    }
}

/// Whether `reply` answers the request that is pending, if any is.
pub open spec fn answers_pending(pending: Option<RequestView>, reply: ReplyView) -> bool {
    match pending {
        Some(request) => answers(request, reply),
        None => false,
    }
}

/// The view of a request that may be absent.
pub open spec fn request_view(request: Option<Request>) -> Option<RequestView> {
    match request {
        Some(request) => Some(request@),
        None => None,
    }
}

/// The paths that a list of targets holds, each as a sequence of characters.
pub open spec fn paths_view(targets: Seq<String>) -> Seq<Seq<char>> {
    targets.map_values(|target: String| target@)
}

impl Request {
    /// Tells whether `reply` is an answer to this request.
    pub fn answered_by(&self, reply: &Reply) -> (yes: bool)
        ensures
            yes == answers(self@, reply@),
    {
        match self {
            Request::Stat { .. } => matches!(reply, Reply::Kind(_)),
            Request::ReadAttributes { .. } => matches!(reply, Reply::Attributes(_)),
            Request::ClearReadOnly { .. } => matches!(reply, Reply::Done(_)),
            Request::RemoveFile { .. } => matches!(reply, Reply::Done(_)),
            Request::RemoveDir { .. } => matches!(reply, Reply::Done(_)),
            Request::NextEntry { .. } => matches!(reply, Reply::Entry(_) | Reply::Unreadable(_)),
            Request::CountEntries { .. } => matches!(reply, Reply::Count(_)),
            Request::Confirm { .. } => matches!(reply, Reply::Answer(_)),
            Request::Print { .. } => matches!(reply, Reply::Printed),
        }
    }
}

} // verus!

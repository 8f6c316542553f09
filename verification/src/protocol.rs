//! What a scan and its caller say to each other.
//!
//! The scan asks; the caller reads the directory, runs the client or looks
//! up the working directory, and replies. Between two requests the scan
//! hands over the lines it wants printed.

use vstd::prelude::*;
use crate::entry::{item_views, ListingItem};
use crate::walk::{LineView, ReplyView, RequestView};

verus! {

/// A line of output and the stream it belongs to.
#[derive(Debug)]
pub enum Line {
    /// A status line, for the standard output stream.
    Stdout(String),
    /// A diagnostic, for the error stream.
    Stderr(String),
}

impl View for Line {
    type V = LineView;

    open spec fn view(&self) -> LineView {
        match self {
            Line::Stdout(text) => LineView::Stdout(text@),
            Line::Stderr(text) => LineView::Stderr(text@),
        }
    }
}

/// What the lines stand for, in order.
pub open spec fn line_views(lines: Seq<Line>) -> Seq<LineView> {
    Seq::new(lines.len(), |i: int| lines[i]@)
}

/// What the scan asks its caller to do next.
#[derive(Debug)]
pub enum Request {
    /// Reply with the directory the process runs in.
    CurrentDir,
    /// Reply whether this path is a directory, and with the directory that
    /// holds it.
    Probe(String),
    /// Reply with the entries of this directory.
    List(String),
    /// Run the status query in this working tree and reply with what it
    /// printed.
    Query(String),
    /// Nothing is left to do.
    Done,
    /// Stop the run and report failure.
    Abort,
}

impl View for Request {
    type V = RequestView;

    open spec fn view(&self) -> RequestView {
        match self {
            Request::CurrentDir => RequestView::CurrentDir,
            Request::Probe(path) => RequestView::Probe(path@),
            Request::List(path) => RequestView::List(path@),
            Request::Query(path) => RequestView::Query(path@),
            Request::Done => RequestView::Done,
            Request::Abort => RequestView::Abort,
        }
    }
}

/// What the caller found out.
#[derive(Debug)]
pub enum Reply {
    /// Nothing yet: this opens the scan.
    Start,
    /// The directory the process runs in.
    CurrentDir(String),
    /// Whether the probed path is a directory, and the directory that holds
    /// it (empty where there is none).
    Probed { is_dir: bool, parent: String },
    /// The items of the listing, or why the directory could not be read.
    Listed(Result<Vec<ListingItem>, String>),
    /// What the status query printed on either stream.
    Queried { stdout: String, stderr: String },
}

impl View for Reply {
    type V = ReplyView;

    open spec fn view(&self) -> ReplyView {
        match self {
            Reply::Start => ReplyView::Start,
            Reply::CurrentDir(path) => ReplyView::CurrentDir(path@),
            Reply::Probed { is_dir, parent } => ReplyView::Probed {
                is_dir: *is_dir,
                parent: parent@,
            },
            Reply::Listed(Ok(items)) => ReplyView::Listed(Ok(item_views(items@))),
            Reply::Listed(Err(reason)) => ReplyView::Listed(Err(reason@)),
            Reply::Queried { stdout, stderr } => ReplyView::Queried {
                stdout: stdout@,
                stderr: stderr@,
            },
        }
    }
}

/// The lines to print now, and what to do after that.
#[derive(Debug)]
pub struct Step {
    pub lines: Vec<Line>,
    pub request: Request,
}

} // verus!

//! What a run has to learn from the file system, and what it can be told.
//!
//! The library reads no file system itself. Where a decision depends on one,
//! it hands out a [`Query`], and goes on when it is given the [`Reply`].

use vstd::prelude::*;
use vstd::string::*;
use crate::api::entries;

verus! {

/// A question about the file system.
#[derive(Debug, PartialEq, Eq)]
pub enum Query {
    /// Is there anything at `path`?
    Exists { path: Vec<u8> },
    /// What are the names of the entries of the directory `dir`?
    Names { dir: Vec<u8> },
    /// What is the name of the first entry of the directory `dir`?
    First { dir: Vec<u8> },
}

/// An answer to a [`Query`].
#[derive(Debug, PartialEq, Eq)]
pub enum Reply {
    /// To `Exists`: whether there is something.
    Exists(bool),
    /// To `Names`: the name of each entry, or `None` for an entry that could
    /// not be read.
    Names(Vec<Option<Vec<u8>>>),
    /// To `First`: the name, or `None` where the directory is empty.
    First(Option<Vec<u8>>),
    /// To `Names` or `First`: the directory, or its first entry, could not be
    /// read, for the reason that the system gave.
    Unreadable(String),
}

/// A [`Query`] as contracts see it.
pub enum QueryView {
    Exists { path: Seq<u8> },
    Names { dir: Seq<u8> },
    First { dir: Seq<u8> },
}

/// A [`Reply`] as contracts see it.
pub enum ReplyView {
    Exists(bool),
    Names(Seq<Option<Seq<u8>>>),
    First(Option<Seq<u8>>),
    Unreadable(Seq<char>),
}

impl View for Query {
    type V = QueryView;

    open spec fn view(&self) -> QueryView {
        match *self {
            Query::Exists { path } => QueryView::Exists { path: path@ },
            Query::Names { dir } => QueryView::Names { dir: dir@ },
            Query::First { dir } => QueryView::First { dir: dir@ },
        }
    }
}

impl View for Reply {
    type V = ReplyView;

    open spec fn view(&self) -> ReplyView {
        match *self {
            Reply::Exists(found) => ReplyView::Exists(found),
            Reply::Names(names) => ReplyView::Names(entries(names@)),
            Reply::First(Some(name)) => ReplyView::First(Some(name@)),
            Reply::First(None) => ReplyView::First(None),
            Reply::Unreadable(reason) => ReplyView::Unreadable(reason@),
        }
    }
}

} // verus!

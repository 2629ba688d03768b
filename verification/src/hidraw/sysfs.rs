//! The questions that discovery asks of the attribute hierarchy, and the
//! answers it takes.

use crate::error::{IoError, IoErrorView};
use vstd::prelude::*;

verus! {

/// One question about the filesystem. The caller answers it from the
/// system: `Exists` with whether the path can be reached, `Canonicalize`
/// with the absolute path free of links, `ReadToString` with the whole text
/// of a file, `ReadDir` with the names of a directory's entries.
#[derive(Debug)]
pub enum SysfsQuery {
    Exists(String),
    Canonicalize(String),
    ReadToString(String),
    ReadDir(String),
}

/// Mathematical value of a [`SysfsQuery`].
pub enum SysfsQueryView {
    Exists(Seq<char>),
    Canonicalize(Seq<char>),
    ReadToString(Seq<char>),
    ReadDir(Seq<char>),
}

impl View for SysfsQuery {
    type V = SysfsQueryView;

    open spec fn view(&self) -> SysfsQueryView {
        match *self {
            SysfsQuery::Exists(p) => SysfsQueryView::Exists(p@),
            SysfsQuery::Canonicalize(p) => SysfsQueryView::Canonicalize(p@),
            SysfsQuery::ReadToString(p) => SysfsQueryView::ReadToString(p@),
            SysfsQuery::ReadDir(p) => SysfsQueryView::ReadDir(p@),
        }
    }
}

/// The answer to a [`SysfsQuery`], of the same kind as the question.
#[derive(Debug)]
pub enum SysfsAnswer {
    Exists(bool),
    Canonical(core::result::Result<String, IoError>),
    Text(core::result::Result<String, IoError>),
    Entries(core::result::Result<Vec<String>, IoError>),
}

/// Mathematical value of a [`SysfsAnswer`].
pub enum SysfsAnswerView {
    Exists(bool),
    Canonical(core::result::Result<Seq<char>, IoErrorView>),
    Text(core::result::Result<Seq<char>, IoErrorView>),
    Entries(core::result::Result<Seq<Seq<char>>, IoErrorView>),
}

/// The texts of a list of strings.
pub open spec fn texts(names: Seq<String>) -> Seq<Seq<char>> {
    Seq::new(names.len(), |i: int| names[i]@)
}

/// The outcome of reading a text, over mathematical values.
pub open spec fn text_outcome(r: core::result::Result<String, IoError>) -> core::result::Result<
    Seq<char>,
    IoErrorView,
> {
    match r {
        Ok(s) => Ok(s@),
        Err(e) => Err(e@),
    }
}

impl View for SysfsAnswer {
    type V = SysfsAnswerView;

    open spec fn view(&self) -> SysfsAnswerView {
        match *self {
            SysfsAnswer::Exists(b) => SysfsAnswerView::Exists(b),
            SysfsAnswer::Canonical(r) => SysfsAnswerView::Canonical(text_outcome(r)),
            SysfsAnswer::Text(r) => SysfsAnswerView::Text(text_outcome(r)),
            SysfsAnswer::Entries(r) => SysfsAnswerView::Entries(
                match r {
                    Ok(names) => Ok(texts(names@)),
                    Err(e) => Err(e@),
                },
            ),
        }
    }
}

impl SysfsAnswerView {
    /// Whether the answer is of the kind that the question asks for.
    pub open spec fn fits(self, query: SysfsQueryView) -> bool {
        match query {
            SysfsQueryView::Exists(_) => self is Exists,
            SysfsQueryView::Canonicalize(_) => self is Canonical,
            SysfsQueryView::ReadToString(_) => self is Text,
            SysfsQueryView::ReadDir(_) => self is Entries,
        }
    }
}

impl SysfsAnswer {
    /// Whether the answer is of the kind that the question asks for.
    pub fn fits(&self, query: &SysfsQuery) -> (b: bool)
        ensures
            b == self@.fits(query@),
    {
        match query {
            SysfsQuery::Exists(_) => matches!(self, SysfsAnswer::Exists(_)),
            SysfsQuery::Canonicalize(_) => matches!(self, SysfsAnswer::Canonical(_)),
            SysfsQuery::ReadToString(_) => matches!(self, SysfsAnswer::Text(_)),
            SysfsQuery::ReadDir(_) => matches!(self, SysfsAnswer::Entries(_)),
        }
    }
}

/// What the filesystem would answer to every question: the state of the
/// attribute hierarchy at one moment.
pub struct Sysfs {
    pub exists: spec_fn(Seq<char>) -> bool,
    pub canonical: spec_fn(Seq<char>) -> core::result::Result<Seq<char>, IoErrorView>,
    pub text: spec_fn(Seq<char>) -> core::result::Result<Seq<char>, IoErrorView>,
    pub entries: spec_fn(Seq<char>) -> core::result::Result<Seq<Seq<char>>, IoErrorView>,
}

impl Sysfs {
    /// The answer of this filesystem to a question.
    pub open spec fn answer(self, query: SysfsQueryView) -> SysfsAnswerView {
        match query {
            SysfsQueryView::Exists(p) => SysfsAnswerView::Exists((self.exists)(p)),
            SysfsQueryView::Canonicalize(p) => SysfsAnswerView::Canonical((self.canonical)(p)),
            SysfsQueryView::ReadToString(p) => SysfsAnswerView::Text((self.text)(p)),
            SysfsQueryView::ReadDir(p) => SysfsAnswerView::Entries((self.entries)(p)),
        }
    }
}

} // verus!

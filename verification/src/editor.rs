//! Editing the proposed message: which editor is run, and the name of the
//! scratch file it is run on.

use crate::text::owned;
use vstd::prelude::*;
use vstd::string::*;

verus! {

/// How the scratch directory's name begins.
pub const TEMP_DIR_PREFIX: &'static str = "edit_commit";

/// How the scratch file's name begins.
pub const FILE_NAME_PREFIX: &'static str = "aic_commit_message_";

/// How the scratch file's name ends.
pub const FILE_NAME_SUFFIX: &'static str = ".txt";

/// The editor of last resort.
pub const FALLBACK_EDITOR: &'static str = "nano";

/// The argument an editor is tried with.
pub const PROBE_ARGUMENT: &'static str = "--version";

/// An editor that is tried where the user has named none.
#[derive(Clone, Copy, Debug, PartialEq, Eq, Structural)]
pub enum Candidate {
    Vim,
    Vi,
}

/// The next step of the search for an editor.
#[derive(Debug, PartialEq, Eq)]
pub enum EditorStep {
    /// Run this editor.
    Use(String),
    /// Try whether this candidate can be started, and report back.
    Probe(Candidate),
}

/// Mathematical model of [`EditorStep`].
pub enum EditorStepView {
    Use(Seq<char>),
    Probe(Candidate),
}

impl View for EditorStep {
    type V = EditorStepView;

    open spec fn view(&self) -> EditorStepView {
        match self {
            EditorStep::Use(name) => EditorStepView::Use(name@),
            EditorStep::Probe(candidate) => EditorStepView::Probe(*candidate),
        }
    }
}

/// The scratch file's name for the identifier `id`.
pub open spec fn file_name_of(id: Seq<char>) -> Seq<char> {
    FILE_NAME_PREFIX@ + id + FILE_NAME_SUFFIX@
}

/// A lower-case hexadecimal digit.
pub open spec fn is_hex_digit(c: char) -> bool {
    ('0' <= c && c <= '9') || ('a' <= c && c <= 'f')
}

/// The shape of an identifier: 36 characters, hyphens at positions 8, 13, 18
/// and 23, lower-case hexadecimal digits everywhere else.
pub open spec fn is_identifier(id: Seq<char>) -> bool {
    &&& id.len() == 36
    &&& forall|i: int|
        0 <= i < 36 ==> if i == 8 || i == 13 || i == 18 || i == 23 {
            id[i] == '-'
        } else {
            is_hex_digit(#[trigger] id[i])
        }
}

/// Where the search for an editor begins: with the editor the user has named
/// in the environment, or, without one, by trying `vim`.
pub open spec fn search_from(named: Option<Seq<char>>) -> EditorStepView {
    match named {
        Some(name) => EditorStepView::Use(name),
        None => EditorStepView::Probe(Candidate::Vim),
    }
}

/// How the search goes on after `candidate` was tried: a candidate that
/// could be started is used; after `vim` comes `vi`, after `vi` the fallback.
pub open spec fn search_after(candidate: Candidate, started: bool) -> EditorStepView {
    if started {
        EditorStepView::Use(candidate.spec_name())
    } else {
        match candidate {
            Candidate::Vim => EditorStepView::Probe(Candidate::Vi),
            Candidate::Vi => EditorStepView::Use(FALLBACK_EDITOR@),
        }
    }
}

impl Candidate {
    /// The program's name.
    pub open spec fn spec_name(self) -> Seq<char> {
        match self {
            Candidate::Vim => "vim"@,
            Candidate::Vi => "vi"@,
        }
    }

    /// The program's name.
    pub fn name(self) -> (r: &'static str)
        ensures
            r@ == self.spec_name(),
    {
        match self {
            Candidate::Vim => "vim",
            Candidate::Vi => "vi",
        }
    }
}

impl EditorStep {
    /// Begins the search. `named` is the editor the user has named in the
    /// environment, if any.
    pub fn first(named: Option<String>) -> (r: EditorStep)
        ensures
            r@ == search_from(named.deep_view()),
    {
        match named {
            Some(name) => EditorStep::Use(name),
            None => EditorStep::Probe(Candidate::Vim),
        }
    }

    /// Goes on with the search after `candidate` was tried.
    pub fn after(candidate: Candidate, started: bool) -> (r: EditorStep)
        ensures
            r@ == search_after(candidate, started),
    {
        if started {
            EditorStep::Use(owned(candidate.name()))
        } else {
            match candidate {
                Candidate::Vim => EditorStep::Probe(Candidate::Vi),
                Candidate::Vi => EditorStep::Use(owned(FALLBACK_EDITOR)),
            }
        }
    }
}

/// The search for an editor tries `vim` before `vi`, tries nothing twice, and
/// settles on the fallback only after both could not be started.
pub proof fn lemma_search_order(vim_started: bool, vi_started: bool)
    ensures
        search_from(None) == EditorStepView::Probe(Candidate::Vim),
        vim_started ==> search_after(Candidate::Vim, vim_started) == EditorStepView::Use("vim"@),
        !vim_started ==> search_after(Candidate::Vim, vim_started) == EditorStepView::Probe(
            Candidate::Vi,
        ),
        search_after(Candidate::Vi, vi_started) == EditorStepView::Use(
            if vi_started {
                "vi"@
            } else {
                FALLBACK_EDITOR@
            },
        ),
{
}

/// The scratch file's name for the identifier `id`.
pub fn file_name(id: &str) -> (r: String)
    ensures
        r@ == file_name_of(id@),
{
    let mut out = owned(FILE_NAME_PREFIX);
    out.append(id);
    out.append(FILE_NAME_SUFFIX);
    out
}

/// Draws a fresh identifier: `uuid::Uuid::new_v4()` in the form that its
/// `Display` gives. Trusted: the text has the hyphenated lower-case shape of
/// [`is_identifier`], whatever bits were drawn. Which text comes out is left
/// open. The call needs random bytes from the operating system and does not
/// return where there are none to be had.
#[verifier::external_body]
fn fresh_identifier() -> (id: String)
    ensures
        is_identifier(id@),
{
    uuid::Uuid::new_v4().to_string()
}

/// A name for a new scratch file, unlikely to be in use.
pub fn fresh_file_name() -> (r: String)
    ensures
        exists|id: Seq<char>| is_identifier(id) && r@ == file_name_of(id),
{
    let id = fresh_identifier();
    file_name(id.as_str())
}

} // verus!

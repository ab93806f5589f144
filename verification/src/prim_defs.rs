//! Primitive definitions shared by the AST.
use vstd::prelude::*;

verus! {

/// A comment of the source text, with its text.
#[derive(Clone, Copy, Debug, Eq, Hash, Ord, PartialEq, PartialOrd)]
pub enum Comment<'a> {
    /// A comment that runs to the end of its line.
    CmtLine(&'a str),
    /// A comment between delimiters, which may span lines.
    CmtBlock(&'a str),
}

} // verus!

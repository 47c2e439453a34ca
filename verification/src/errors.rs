//! What can go wrong while a file is validated.

use vstd::prelude::*;

use crate::vcf::Content;

verus! {

/// What can go wrong while a file is validated.
#[derive(Debug)]
pub enum Fault {
    /// The template engine refused a message template or failed to render it.
    Template(tera::Error),
    /// A pattern of the rule catalogue did not compile.
    Pattern(regex::Error),
    /// A line is not valid UTF-8; the content holds its number and a lossy
    /// rendering of its bytes.
    VCFReadUtf8Error(Content),
}

} // verus!

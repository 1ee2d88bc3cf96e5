use vstd::prelude::*;
use crate::classify::{scan_view, scanned_words_spec, words_from_scan};
use crate::repr::{rep_views, RepV, Representation};
use crate::units::LexUnit;

verus! {

/// A record identifier from the transport layer: either an unsigned number
/// or a free-form string.
#[derive(Debug, PartialEq)]
pub enum IOid {
    Unsigned(u64),
    String(String),
}

/// One input record: an identifier and the raw text to classify.
#[derive(Debug, PartialEq)]
pub struct Input {
    pub id: IOid,
    pub text: String,
}

/// One output record: the input's identifier, unchanged, and the ordered
/// word list the classifier emitted for the input's text.
#[derive(Debug, PartialEq)]
pub struct Output {
    pub id: IOid,
    pub words: Vec<Representation>,
}

/// Build the output record for one input record, given the outcome the
/// external lexical scanner reported for the input's lowercased text. The
/// identifier passes through unchanged; a scan failure yields an empty word
/// list rather than an error.
pub fn classify_record(input: Input, scanned: Option<Vec<LexUnit>>) -> (out: Output)
    ensures
        out.id == input.id,
        rep_views(out.words@) == scanned_words_spec(scan_view(scanned)),
        scanned is None ==> rep_views(out.words@) == Seq::<RepV>::empty(),
{
    Output { id: input.id, words: words_from_scan(scanned) }
}

} // verus!

use vstd::prelude::*;

verus! {

/// The normalized, typed output record for one lexical unit. `Word` keeps the
/// original surface form and carries a stem only when normalization produced
/// a string different from that surface form. `BBCode` mirrors a nested
/// markup unit and holds two recursively classified sub-sequences.
#[derive(Debug, PartialEq)]
pub enum Representation {
    Word { word: String, stem: Option<String> },
    Numerical { word: String, subtype: String },
    Number { word: String },
    StrangeWord { word: String },
    Emoji { word: String },
    Unicode { word: String },
    Hashtag { word: String },
    Mention { word: String },
    Url { word: String },
    BBCode { text: Vec<Representation>, data: Vec<Representation> },
}

/// The mathematical model of a token representation.
#[verifier::ext_equal]
pub enum RepV {
    Word { word: Seq<char>, stem: Option<Seq<char>> },
    Numerical { word: Seq<char>, subtype: Seq<char> },
    Number { word: Seq<char> },
    StrangeWord { word: Seq<char> },
    Emoji { word: Seq<char> },
    Unicode { word: Seq<char> },
    Hashtag { word: Seq<char> },
    Mention { word: Seq<char> },
    Url { word: Seq<char> },
    BBCode { text: Seq<RepV>, data: Seq<RepV> },
}

pub open spec fn rep_view(r: Representation) -> RepV
    decreases r,
{
    match r {
        Representation::Word { word, stem } => RepV::Word {
            word: word@,
            stem: match stem {
                Some(s) => Some(s@),
                None => None,
            },
        },
        Representation::Numerical { word, subtype } => RepV::Numerical {
            word: word@,
            subtype: subtype@,
        },
        Representation::Number { word } => RepV::Number { word: word@ },
        Representation::StrangeWord { word } => RepV::StrangeWord { word: word@ },
        Representation::Emoji { word } => RepV::Emoji { word: word@ },
        Representation::Unicode { word } => RepV::Unicode { word: word@ },
        Representation::Hashtag { word } => RepV::Hashtag { word: word@ },
        Representation::Mention { word } => RepV::Mention { word: word@ },
        Representation::Url { word } => RepV::Url { word: word@ },
        Representation::BBCode { text, data } => RepV::BBCode {
            text: rep_views(text@),
            data: rep_views(data@),
        },
    }
}

pub open spec fn rep_views(rs: Seq<Representation>) -> Seq<RepV>
    decreases rs,
{
    if rs.len() == 0 {
        Seq::empty()
    } else {
        rep_views(rs.subrange(0, rs.len() - 1)).push(rep_view(rs[rs.len() - 1]))
    }
}

impl View for Representation {
    type V = RepV;

    open spec fn view(&self) -> RepV {
        rep_view(*self)
    }
}

/// Appending one representation extends the modeled sequence by its model.
pub proof fn lemma_rep_views_push(rs: Seq<Representation>, r: Representation)
    ensures
        rep_views(rs.push(r)) == rep_views(rs).push(rep_view(r)),
{
    assert(rs.push(r).subrange(0, rs.len() as int) =~= rs);
}

} // verus!

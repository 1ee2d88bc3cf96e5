use vstd::prelude::*;

verus! {

/// The three subkinds of a numerical lexical unit.
#[derive(Clone, Copy, Debug, PartialEq, Eq, Structural)]
pub enum NumericalKind {
    DotSeparated,
    Measures,
    Alphanumeric,
}

/// One classified piece of raw text, as the external lexical scanner reports
/// it. Separators and punctuation carry no payload here because classification
/// drops them unread; numbers carry their canonical string rendering. The
/// `Markup` kind nests two ordered sub-sequences of further units.
#[derive(Debug, PartialEq)]
pub enum LexUnit {
    Separator,
    Punctuation,
    Word(String),
    StrangeWord(String),
    Numerical(NumericalKind, String),
    Number(String),
    Emoji(String),
    Hashtag(String),
    Mention(String),
    Unicode(String),
    Url(String),
    Markup { text: Vec<LexUnit>, data: Vec<LexUnit> },
}

/// The mathematical model of a lexical unit: every string is a `Seq<char>`
/// and every nested sequence a `Seq` of models.
#[verifier::ext_equal]
pub enum LexUnitV {
    Separator,
    Punctuation,
    Word(Seq<char>),
    StrangeWord(Seq<char>),
    Numerical(NumericalKind, Seq<char>),
    Number(Seq<char>),
    Emoji(Seq<char>),
    Hashtag(Seq<char>),
    Mention(Seq<char>),
    Unicode(Seq<char>),
    Url(Seq<char>),
    Markup { text: Seq<LexUnitV>, data: Seq<LexUnitV> },
}

pub open spec fn lex_unit_view(u: LexUnit) -> LexUnitV
    decreases u,
{
    match u {
        LexUnit::Separator => LexUnitV::Separator,
        LexUnit::Punctuation => LexUnitV::Punctuation,
        LexUnit::Word(w) => LexUnitV::Word(w@),
        LexUnit::StrangeWord(w) => LexUnitV::StrangeWord(w@),
        LexUnit::Numerical(k, w) => LexUnitV::Numerical(k, w@),
        LexUnit::Number(w) => LexUnitV::Number(w@),
        LexUnit::Emoji(w) => LexUnitV::Emoji(w@),
        LexUnit::Hashtag(w) => LexUnitV::Hashtag(w@),
        LexUnit::Mention(w) => LexUnitV::Mention(w@),
        LexUnit::Unicode(w) => LexUnitV::Unicode(w@),
        LexUnit::Url(w) => LexUnitV::Url(w@),
        LexUnit::Markup { text, data } => LexUnitV::Markup {
            text: lex_unit_views(text@),
            data: lex_unit_views(data@),
        },
    }
}

pub open spec fn lex_unit_views(us: Seq<LexUnit>) -> Seq<LexUnitV>
    decreases us,
{
    if us.len() == 0 {
        Seq::empty()
    } else {
        lex_unit_views(us.subrange(0, us.len() - 1)).push(lex_unit_view(us[us.len() - 1]))
    }
}

impl View for LexUnit {
    type V = LexUnitV;

    open spec fn view(&self) -> LexUnitV {
        lex_unit_view(*self)
    }
}

} // verus!

use vstd::prelude::*;
use crate::normalize::{normalize_spec, russian_exceptions, russian_stem_of, Language, StemmerEx};
use crate::repr::{lemma_rep_views_push, rep_view, rep_views, RepV, Representation};
use crate::units::{lex_unit_view, lex_unit_views, LexUnit, LexUnitV, NumericalKind};

verus! {

/// What str::to_lowercase returns for a string: Unicode case folding is a
/// pure function of the characters, so its result only gets a name here.
pub uninterp spec fn lower_of(s: Seq<char>) -> Seq<char>;

/// Relies on str::to_lowercase: the result depends on the characters alone.
#[verifier::external_body]
fn lowercase(s: &str) -> (r: String)
    ensures
        r@ == lower_of(s@),
{
    s.to_lowercase()
}

/// The fixed subtype string emitted for each numerical subkind.
pub open spec fn subtype_str(k: NumericalKind) -> Seq<char> {
    match k {
        NumericalKind::DotSeparated => "dotseparated"@,
        NumericalKind::Measures => "measures"@,
        NumericalKind::Alphanumeric => "alphanumeric"@,
    }
}

fn subtype_string(k: NumericalKind) -> (r: String)
    ensures
        r@ == subtype_str(k),
{
    match k {
        NumericalKind::DotSeparated => "dotseparated".to_owned(),
        NumericalKind::Measures => "measures".to_owned(),
        NumericalKind::Alphanumeric => "alphanumeric".to_owned(),
    }
}

/// The per-unit classification rule under the exception dictionary `d`.
/// Separators and punctuation map to nothing; a word keeps its surface form
/// and carries a stem exactly when the normalized lowercased form differs
/// from that surface form; a markup unit maps to one recursively classified
/// `BBCode` representation; every other kind maps one-to-one.
pub open spec fn classify_unit_spec(d: Map<Seq<char>, Seq<char>>, u: LexUnitV) -> Option<RepV>
    decreases u,
{
    match u {
        LexUnitV::Separator => None,
        LexUnitV::Punctuation => None,
        LexUnitV::Word(w) => Some(RepV::Word {
            word: w,
            stem: if normalize_spec(d, lower_of(w)) != w {
                Some(normalize_spec(d, lower_of(w)))
            } else {
                None
            },
        }),
        LexUnitV::StrangeWord(w) => Some(RepV::StrangeWord { word: w }),
        LexUnitV::Numerical(k, w) => Some(RepV::Numerical { word: w, subtype: subtype_str(k) }),
        LexUnitV::Number(w) => Some(RepV::Number { word: w }),
        LexUnitV::Emoji(w) => Some(RepV::Emoji { word: w }),
        LexUnitV::Hashtag(w) => Some(RepV::Hashtag { word: w }),
        LexUnitV::Mention(w) => Some(RepV::Mention { word: w }),
        LexUnitV::Unicode(w) => Some(RepV::Unicode { word: w }),
        LexUnitV::Url(w) => Some(RepV::Url { word: w }),
        LexUnitV::Markup { text, data } => Some(RepV::BBCode {
            text: classify_units_spec(d, text),
            data: classify_units_spec(d, data),
        }),
    }
}

/// Classification of a unit sequence: the per-unit rule applied in order,
/// with units that map to nothing dropped.
pub open spec fn classify_units_spec(d: Map<Seq<char>, Seq<char>>, us: Seq<LexUnitV>) -> Seq<RepV>
    decreases us,
{
    if us.len() == 0 {
        Seq::empty()
    } else {
        let rest = classify_units_spec(d, us.subrange(0, us.len() - 1));
        match classify_unit_spec(d, us[us.len() - 1]) {
            Some(r) => rest.push(r),
            None => rest,
        }
    }
}

pub open spec fn opt_rep_view(r: Option<Representation>) -> Option<RepV> {
    match r {
        Some(rep) => Some(rep_view(rep)),
        None => None,
    }
}

/// Classify one lexical unit, normalizing words through `st`.
pub fn classify_unit(u: &LexUnit, st: &StemmerEx) -> (r: Option<Representation>)
    ensures
        opt_rep_view(r) == classify_unit_spec(st.dict(), lex_unit_view(*u)),
    decreases u,
{
    match u {
        LexUnit::Separator => None,
        LexUnit::Punctuation => None,
        LexUnit::Word(w) => {
            let lower = lowercase(w.as_str());
            let stemmed = st.stem(lower.as_str());
            let stem = if stemmed != *w {
                Some(stemmed)
            } else {
                None
            };
            Some(Representation::Word { word: w.clone(), stem })
        },
        LexUnit::StrangeWord(w) => Some(Representation::StrangeWord { word: w.clone() }),
        LexUnit::Numerical(k, w) => Some(
            Representation::Numerical { word: w.clone(), subtype: subtype_string(*k) },
        ),
        LexUnit::Number(w) => Some(Representation::Number { word: w.clone() }),
        LexUnit::Emoji(w) => Some(Representation::Emoji { word: w.clone() }),
        LexUnit::Hashtag(w) => Some(Representation::Hashtag { word: w.clone() }),
        LexUnit::Mention(w) => Some(Representation::Mention { word: w.clone() }),
        LexUnit::Unicode(w) => Some(Representation::Unicode { word: w.clone() }),
        LexUnit::Url(w) => Some(Representation::Url { word: w.clone() }),
        LexUnit::Markup { text, data } => Some(
            Representation::BBCode {
                text: classify_units(text, st),
                data: classify_units(data, st),
            },
        ),
    }
}

/// Classify an ordered sequence of lexical units into the ordered sequence
/// of their representations, dropping separators and punctuation.
pub fn classify_units(units: &Vec<LexUnit>, st: &StemmerEx) -> (r: Vec<Representation>)
    ensures
        rep_views(r@) == classify_units_spec(st.dict(), lex_unit_views(units@)),
    decreases units,
{
    let mut out: Vec<Representation> = Vec::new();
    let mut i: usize = 0;
    while i < units.len()
        invariant
            i <= units.len(),
            rep_views(out@) == classify_units_spec(
                st.dict(),
                lex_unit_views(units@.subrange(0, i as int)),
            ),
        decreases units@.len() - i,
    {
        let rep = classify_unit(&units[i], st);
        proof {
            let prefix = units@.subrange(0, i as int);
            let next = units@.subrange(0, i + 1);
            let vu = lex_unit_view(units@[i as int]);
            assert(next.subrange(0, i as int) =~= prefix);
            assert(next[i as int] == units@[i as int]);
            assert(lex_unit_views(next) == lex_unit_views(prefix).push(vu));
            assert(lex_unit_views(prefix).push(vu).subrange(
                0,
                lex_unit_views(prefix).len() as int,
            ) =~= lex_unit_views(prefix));
            if let Some(rp) = &rep {
                lemma_rep_views_push(out@, *rp);
            }
        }
        match rep {
            Some(rp) => out.push(rp),
            None => (),
        }
        i = i + 1;
    }
    proof {
        assert(units@.subrange(0, units@.len() as int) =~= units@);
    }
    out
}

/// What a whole classification run emits for one scan outcome: the classified
/// unit sequence under the Russian exception dictionary when the scanner
/// produced units, and nothing when it reported a failure.
pub open spec fn scanned_words_spec(scanned: Option<Seq<LexUnitV>>) -> Seq<RepV> {
    match scanned {
        Some(us) => classify_units_spec(russian_exceptions(), us),
        None => Seq::empty(),
    }
}

pub open spec fn scan_view(scanned: Option<Vec<LexUnit>>) -> Option<Seq<LexUnitV>> {
    match scanned {
        Some(us) => Some(lex_unit_views(us@)),
        None => None,
    }
}

/// Turn one scan outcome into the record's word list. A scan failure is
/// recovered locally: it yields an empty list rather than an error.
pub fn words_from_scan(scanned: Option<Vec<LexUnit>>) -> (r: Vec<Representation>)
    ensures
        rep_views(r@) == scanned_words_spec(scan_view(scanned)),
{
    match scanned {
        Some(units) => {
            let st = StemmerEx::new(Language::Russian);
            classify_units(&units, &st)
        },
        None => Vec::new(),
    }
}

/// The per-unit classification rule as a function value, for stating laws
/// over whole sequences.
pub open spec fn classify_rule(d: Map<Seq<char>, Seq<char>>) -> spec_fn(LexUnitV) -> Option<
    RepV,
> {
    |u: LexUnitV| classify_unit_spec(d, u)
}

/// Law: a sequence holding only separator and punctuation units classifies
/// to the empty sequence.
pub proof fn lemma_separators_classify_to_nothing(
    d: Map<Seq<char>, Seq<char>>,
    us: Seq<LexUnitV>,
)
    requires
        forall|i: int| 0 <= i < us.len() ==> us[i] is Separator || us[i] is Punctuation,
    ensures
        classify_units_spec(d, us) == Seq::<RepV>::empty(),
    decreases us,
{
    if us.len() > 0 {
        let rest = us.subrange(0, us.len() - 1);
        assert(forall|i: int|
            0 <= i < rest.len() ==> rest[i] is Separator || rest[i] is Punctuation) by {
            assert(forall|i: int| 0 <= i < rest.len() ==> rest[i] == us[i]);
        }
        lemma_separators_classify_to_nothing(d, rest);
        assert(classify_unit_spec(d, us[us.len() - 1]) is None);
    }
}

/// Law: a word whose lowercased form is a key of the exception dictionary is
/// emitted with the dictionary value as its stem whenever that value differs
/// from the surface form, and with no stem when it equals the surface form.
pub proof fn lemma_word_in_dictionary(d: Map<Seq<char>, Seq<char>>, w: Seq<char>)
    requires
        d.contains_key(lower_of(w)),
    ensures
        classify_unit_spec(d, LexUnitV::Word(w)) == Some(
            RepV::Word {
                word: w,
                stem: if d[lower_of(w)] != w {
                    Some(d[lower_of(w)])
                } else {
                    None
                },
            },
        ),
{
}

/// Law: a word whose lowercased form is no key of the exception dictionary
/// is emitted with the algorithmic stem of that lowercased form whenever it
/// differs from the surface form, and with no stem when it equals it.
pub proof fn lemma_word_not_in_dictionary(d: Map<Seq<char>, Seq<char>>, w: Seq<char>)
    requires
        !d.contains_key(lower_of(w)),
    ensures
        classify_unit_spec(d, LexUnitV::Word(w)) == Some(
            RepV::Word {
                word: w,
                stem: if russian_stem_of(lower_of(w)) != w {
                    Some(russian_stem_of(lower_of(w)))
                } else {
                    None
                },
            },
        ),
{
}

/// Law: a markup unit classifies to exactly one BBCode representation whose
/// two fields are the recursively classified sub-sequences; the recursion in
/// `classify_units_spec` applies the same rule again at every nesting depth.
pub proof fn lemma_markup_classifies_recursively(
    d: Map<Seq<char>, Seq<char>>,
    text: Seq<LexUnitV>,
    data: Seq<LexUnitV>,
)
    ensures
        classify_unit_spec(d, LexUnitV::Markup { text, data }) == Some(
            RepV::BBCode {
                text: classify_units_spec(d, text),
                data: classify_units_spec(d, data),
            },
        ),
{
}

/// Law: classification is the order-preserving filter-map of the per-unit
/// rule. Emitted representations keep the relative order of their source
/// units, and dropped units are simply absent.
pub proof fn lemma_classification_preserves_order(d: Map<Seq<char>, Seq<char>>, us: Seq<LexUnitV>)
    ensures
        classify_units_spec(d, us) == us.filter_map(classify_rule(d)),
    decreases us,
{
    let f = classify_rule(d);
    if us.len() == 0 {
        assert(us.filter_map(f) =~= Seq::<RepV>::empty());
    } else {
        let rest = us.subrange(0, us.len() - 1);
        lemma_classification_preserves_order(d, rest);
        assert(us.drop_last() =~= rest);
        assert(f(us.last()) == classify_unit_spec(d, us[us.len() - 1]));
        match classify_unit_spec(d, us.last()) {
            Some(r) => {
                assert(classify_units_spec(d, rest).push(r) =~= rest.filter_map(f) + seq![r]);
            },
            None => (),
        }
    }
}

} // verus!

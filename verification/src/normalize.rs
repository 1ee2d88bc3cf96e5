use vstd::prelude::*;
use vstd::hash_map::StringHashMap;

verus! {

/// The languages the normalizer supports. Selecting a language selects both
/// the stemming algorithm and the exception dictionary that overrides it.
#[derive(Clone, Copy, Debug, PartialEq, Eq, Structural)]
pub enum Language {
    Russian,
}

#[verifier::external_type_specification]
#[verifier::external_body]
pub struct ExStemmer(rust_stemmers::Stemmer);

/// What the Russian Snowball stemming algorithm returns for a word. The
/// algorithm is a pure function of the word, so its result only gets a name
/// here; nothing else is assumed of it.
pub uninterp spec fn russian_stem_of(word: Seq<char>) -> Seq<char>;

/// A stemmer fixed to the Russian Snowball algorithm. `create` is the only
/// constructor of this type, so every value of it holds the Russian variant.
pub struct RussianStemmer {
    stemmer: rust_stemmers::Stemmer,
}

impl RussianStemmer {
    /// Relies on rust_stemmers::Stemmer::create, called with the Russian
    /// algorithm and nothing else.
    #[verifier::external_body]
    fn create() -> (r: Self) {
        RussianStemmer { stemmer: rust_stemmers::Stemmer::create(rust_stemmers::Algorithm::Russian) }
    }

    /// Relies on rust_stemmers::Stemmer::stem: the Snowball algorithms are
    /// deterministic affix-stripping rules, so for the Russian stemmer held
    /// here the result depends on the input word alone.
    #[verifier::external_body]
    fn stem_word(&self, word: &str) -> (r: String)
        ensures
            r@ == russian_stem_of(word@),
    {
        self.stemmer.stem(word).to_string()
    }
}

/// The fixed exception dictionary for Russian: each key maps to the
/// normalized form that must override the algorithmic stem.
pub open spec fn russian_exceptions() -> Map<Seq<char>, Seq<char>> {
    Map::empty()
        .insert("газпром"@, "газпром"@)
        .insert("ростелеком"@, "ростелеком"@)
        .insert("кредит"@, "кредит"@)
}

/// What normalization returns for a lowercased word under the exception
/// dictionary `d`: the dictionary value when the word is a key, otherwise the
/// algorithmic stem.
pub open spec fn normalize_spec(d: Map<Seq<char>, Seq<char>>, w: Seq<char>) -> Seq<char> {
    if d.contains_key(w) {
        d[w]
    } else {
        russian_stem_of(w)
    }
}

/// The normalizer: a stemming algorithm wrapped with an immutable exception
/// dictionary that is consulted first.
pub struct StemmerEx {
    stemmer: RussianStemmer,
    exceptions: StringHashMap<String>,
}

impl StemmerEx {
    /// The exception dictionary this normalizer was built with.
    pub closed spec fn dict(&self) -> Map<Seq<char>, Seq<char>> {
        self.exceptions@.map_values(|v: String| v@)
    }

    pub fn new(language: Language) -> (r: Self)
        ensures
            r.dict() == russian_exceptions(),
    {
        match language {
            Language::Russian => {
                let mut d = StringHashMap::<String>::new();
                d.insert("газпром".to_owned(), "газпром".to_owned());
                d.insert("ростелеком".to_owned(), "ростелеком".to_owned());
                d.insert("кредит".to_owned(), "кредит".to_owned());
                let r = StemmerEx { stemmer: RussianStemmer::create(), exceptions: d };
                proof {
                    assert(r.dict() =~= russian_exceptions());
                }
                r
            },
        }
    }

    /// Normalize one lowercased word: the exception dictionary decides when
    /// it holds the word, the stemming algorithm decides otherwise.
    pub fn stem(&self, word: &str) -> (r: String)
        ensures
            r@ == normalize_spec(self.dict(), word@),
    {
        match self.exceptions.get(word) {
            Some(v) => v.clone(),
            None => self.stemmer.stem_word(word),
        }
    }
}

/// Law: normalization is idempotent on dictionary keys that are already
/// normalized. For a key `w` whose normalized form is `w` itself, normalizing
/// a second time returns the same dictionary value, because the dictionary
/// lookup short-circuits the algorithm.
pub proof fn lemma_normalize_idempotent_on_keys(d: Map<Seq<char>, Seq<char>>, w: Seq<char>)
    requires
        d.contains_key(w),
        normalize_spec(d, w) == w,
    ensures
        normalize_spec(d, normalize_spec(d, w)) == normalize_spec(d, w),
{
}

} // verus!

use textnorm::{
    classify_record, classify_unit, classify_units, words_from_scan, IOid, Input, Language,
    LexUnit, NumericalKind, Representation, StemmerEx,
};

fn russian() -> StemmerEx {
    StemmerEx::new(Language::Russian)
}

#[test]
fn separators_and_punctuation_classify_to_nothing() {
    let st = russian();
    let units = vec![
        LexUnit::Separator,
        LexUnit::Punctuation,
        LexUnit::Separator,
        LexUnit::Punctuation,
    ];
    assert_eq!(classify_units(&units, &st), Vec::new());
}

#[test]
fn empty_unit_sequence_classifies_to_nothing() {
    let st = russian();
    assert_eq!(classify_units(&Vec::new(), &st), Vec::new());
}

#[test]
fn dictionary_word_equal_to_surface_gets_no_stem() {
    let st = russian();
    let r = classify_unit(&LexUnit::Word("газпром".to_string()), &st);
    assert_eq!(
        r,
        Some(Representation::Word { word: "газпром".to_string(), stem: None })
    );
}

#[test]
fn dictionary_word_differing_from_surface_gets_dictionary_stem() {
    let st = russian();
    let r = classify_unit(&LexUnit::Word("Кредит".to_string()), &st);
    assert_eq!(
        r,
        Some(Representation::Word {
            word: "Кредит".to_string(),
            stem: Some("кредит".to_string()),
        })
    );
}

#[test]
fn word_outside_dictionary_gets_algorithmic_stem() {
    let st = russian();
    let r = classify_unit(&LexUnit::Word("работает".to_string()), &st);
    assert_eq!(
        r,
        Some(Representation::Word {
            word: "работает".to_string(),
            stem: Some("работа".to_string()),
        })
    );
}

#[test]
fn uppercase_word_is_lowercased_before_stemming() {
    let st = russian();
    let r = classify_unit(&LexUnit::Word("РАБОТАЕТ".to_string()), &st);
    assert_eq!(
        r,
        Some(Representation::Word {
            word: "РАБОТАЕТ".to_string(),
            stem: Some("работа".to_string()),
        })
    );
}

#[test]
fn example_sentence_units() {
    let st = russian();
    let units = vec![
        LexUnit::Word("газпром".to_string()),
        LexUnit::Word("работает".to_string()),
        LexUnit::Punctuation,
    ];
    let expected = vec![
        Representation::Word { word: "газпром".to_string(), stem: None },
        Representation::Word {
            word: "работает".to_string(),
            stem: Some("работа".to_string()),
        },
    ];
    assert_eq!(classify_units(&units, &st), expected);
}

#[test]
fn example_hashtag_mention_number_units() {
    let st = russian();
    let units = vec![
        LexUnit::Hashtag("#test".to_string()),
        LexUnit::Separator,
        LexUnit::Mention("@user".to_string()),
        LexUnit::Separator,
        LexUnit::Number("3.14".to_string()),
    ];
    let expected = vec![
        Representation::Hashtag { word: "#test".to_string() },
        Representation::Mention { word: "@user".to_string() },
        Representation::Number { word: "3.14".to_string() },
    ];
    assert_eq!(classify_units(&units, &st), expected);
}

#[test]
fn single_field_kinds_pass_through_unchanged() {
    let st = russian();
    let units = vec![
        LexUnit::StrangeWord("qwrtzx".to_string()),
        LexUnit::Emoji("🙂".to_string()),
        LexUnit::Unicode("u+2603".to_string()),
        LexUnit::Url("http://example.com".to_string()),
    ];
    let expected = vec![
        Representation::StrangeWord { word: "qwrtzx".to_string() },
        Representation::Emoji { word: "🙂".to_string() },
        Representation::Unicode { word: "u+2603".to_string() },
        Representation::Url { word: "http://example.com".to_string() },
    ];
    assert_eq!(classify_units(&units, &st), expected);
}

#[test]
fn numerical_subkinds_get_their_fixed_subtype_strings() {
    let st = russian();
    let units = vec![
        LexUnit::Numerical(NumericalKind::DotSeparated, "1.2.3".to_string()),
        LexUnit::Numerical(NumericalKind::Measures, "10kg".to_string()),
        LexUnit::Numerical(NumericalKind::Alphanumeric, "a1b2".to_string()),
    ];
    let expected = vec![
        Representation::Numerical {
            word: "1.2.3".to_string(),
            subtype: "dotseparated".to_string(),
        },
        Representation::Numerical { word: "10kg".to_string(), subtype: "measures".to_string() },
        Representation::Numerical {
            word: "a1b2".to_string(),
            subtype: "alphanumeric".to_string(),
        },
    ];
    assert_eq!(classify_units(&units, &st), expected);
}

#[test]
fn markup_classifies_recursively_at_every_depth() {
    let st = russian();
    let inner = LexUnit::Markup {
        text: vec![LexUnit::Word("работает".to_string()), LexUnit::Punctuation],
        data: vec![],
    };
    let outer = LexUnit::Markup {
        text: vec![LexUnit::Separator, LexUnit::Hashtag("#test".to_string()), inner],
        data: vec![LexUnit::Url("http://example.com".to_string())],
    };
    let expected_inner = Representation::BBCode {
        text: vec![Representation::Word {
            word: "работает".to_string(),
            stem: Some("работа".to_string()),
        }],
        data: vec![],
    };
    let expected = Representation::BBCode {
        text: vec![
            Representation::Hashtag { word: "#test".to_string() },
            expected_inner,
        ],
        data: vec![Representation::Url { word: "http://example.com".to_string() }],
    };
    assert_eq!(classify_unit(&outer, &st), Some(expected));
}

#[test]
fn emitted_order_matches_source_order() {
    let st = russian();
    let units = vec![
        LexUnit::Punctuation,
        LexUnit::Word("газпром".to_string()),
        LexUnit::Separator,
        LexUnit::Number("7".to_string()),
        LexUnit::Separator,
        LexUnit::Mention("@user".to_string()),
        LexUnit::Punctuation,
    ];
    let expected = vec![
        Representation::Word { word: "газпром".to_string(), stem: None },
        Representation::Number { word: "7".to_string() },
        Representation::Mention { word: "@user".to_string() },
    ];
    assert_eq!(classify_units(&units, &st), expected);
}

#[test]
fn empty_or_unscannable_text_yields_empty_word_list() {
    let out = classify_record(
        Input { id: IOid::Unsigned(7), text: String::new() },
        None,
    );
    assert_eq!(out.id, IOid::Unsigned(7));
    assert_eq!(out.words, Vec::new());

    assert_eq!(words_from_scan(Some(Vec::new())), Vec::new());
    assert_eq!(words_from_scan(None), Vec::new());
}

#[test]
fn string_identifier_passes_through_unchanged() {
    let out = classify_record(
        Input { id: IOid::String("rec-9".to_string()), text: "x".to_string() },
        Some(vec![LexUnit::Word("работает".to_string())]),
    );
    assert_eq!(out.id, IOid::String("rec-9".to_string()));
    assert_eq!(
        out.words,
        vec![Representation::Word {
            word: "работает".to_string(),
            stem: Some("работа".to_string()),
        }]
    );
}

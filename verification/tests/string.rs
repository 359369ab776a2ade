use andiskaz::string::{
    DiacriticAtStart, Index, InvalidControl, TermGrapheme, TermGraphemeError, TermString,
    TermStringError,
};

#[test]
fn term_string_keeps_the_characters() {
    let this_winter = TermString::new_lossy("ðɪs wɪ̃ɾ̃ɚ");
    assert_eq!(this_winter, TermString::new("ðɪs wɪ̃ɾ̃ɚ").unwrap());
    assert_eq!(this_winter.to_plain_string(), "ðɪs wɪ̃ɾ̃ɚ");
}

#[test]
fn term_string_counts_grapheme_clusters() {
    // Two combining tildes join the characters before them.
    assert_eq!(TermString::new("ðɪs wɪ̃ɾ̃ɚ").unwrap().count_graphemes(), 8);
    assert_eq!(TermString::new("ab").unwrap().count_graphemes(), 2);
    assert_eq!(TermString::new("e\u{301}a").unwrap().count_graphemes(), 2);
    assert_eq!(TermString::new("").unwrap().count_graphemes(), 0);
    assert_eq!(TermString::empty().count_graphemes(), 0);
}

#[test]
fn term_string_rejects_control_characters() {
    assert_eq!(
        TermString::new("abc\ndef"),
        Err(TermStringError::InvalidControl(InvalidControl { position: 3 }))
    );
    // The position is in bytes: `ç` takes two.
    assert_eq!(
        TermString::new("ç\t"),
        Err(TermStringError::InvalidControl(InvalidControl { position: 2 }))
    );
}

#[test]
fn term_string_rejects_a_diacritic_at_start() {
    assert_eq!(
        TermString::new("\u{303}abc"),
        Err(TermStringError::DiacriticAtStart(DiacriticAtStart))
    );
}

#[test]
fn term_string_lossy_replaces_invalid_characters() {
    assert_eq!(TermString::new_lossy("a\nb").to_plain_string(), "a\u{FFFD}b");
    assert_eq!(TermString::new_lossy("\u{303}x").to_plain_string(), "\u{FFFD}x");
}

#[test]
fn term_strings_concatenate() {
    let tomatoes = TermString::new_lossy("Totatoes");
    let space = TermGrapheme::space();
    let are = TermString::new_lossy("are");
    let good = TermString::new_lossy("good");
    let together = tomatoes
        .push_grapheme(&space)
        .concat(&are)
        .push_grapheme(&space)
        .concat(&good);
    assert_eq!(together, TermString::new("Totatoes are good").unwrap());
    assert_eq!(together.to_plain_string(), "Totatoes are good");
}

#[test]
fn term_string_slices_and_indexes() {
    let text = TermString::new("ðɪs wɪ̃ɾ̃ɚ").unwrap();
    assert_eq!(text.slice(4, 7).to_plain_string(), "wɪ̃ɾ̃");
    assert_eq!(text.grapheme_at(3), &TermGrapheme::space());
    assert_eq!(2usize.get(&text).unwrap().as_str(), "s");
    assert!(8usize.get(&text).is_none());
    assert_eq!((0 .. 3).index(&text).to_plain_string(), "ðɪs");
    assert!((0 .. 10).get(&text).is_none());
}

#[test]
fn grapheme_errors_convert() {
    let error: TermGraphemeError =
        TermStringError::InvalidControl(InvalidControl { position: 1 }).into();
    assert_eq!(error, TermGraphemeError::InvalidControl(InvalidControl { position: 1 }));
    let error: TermGraphemeError = TermStringError::DiacriticAtStart(DiacriticAtStart).into();
    assert_eq!(error, TermGraphemeError::DiacriticAtStart(DiacriticAtStart));
}

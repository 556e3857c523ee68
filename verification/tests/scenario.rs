//! End-to-end walk over a two-letter catalog.

use learn_thai::catalog::Catalog;
use learn_thai::letter::LetterRecord;
use learn_thai::nav::NavigationState;
use learn_thai::view::compose;

fn consonant_a() -> LetterRecord {
    LetterRecord {
        glyph: String::from("A"),
        latinization: String::from("a"),
        pronunciation: String::from("ah"),
        example_word: Some(String::from("X")),
        example_meaning: Some(String::from("x-word")),
        is_consonant: true,
    }
}

fn vowel_b() -> LetterRecord {
    LetterRecord {
        glyph: String::from("B"),
        latinization: String::from("b"),
        pronunciation: String::from("bee"),
        example_word: None,
        example_meaning: None,
        is_consonant: false,
    }
}

#[test]
fn two_letter_walk() {
    let catalog = Catalog::new(vec![consonant_a(), vowel_b()]).unwrap();
    let mut nav = NavigationState::new(catalog.length());

    assert_eq!(nav.cursor, 0);
    assert_eq!(nav.advance(), 1);
    let b = catalog.get(1).unwrap();
    let vm = compose(b);
    assert_eq!(vm.detail, "");

    assert_eq!(nav.retreat(), 0);
    let a = catalog.get(0).unwrap();
    assert_eq!(a.audio_key(), "X");
    assert_eq!(a.audio_path(), "audio/X.mp3");
}

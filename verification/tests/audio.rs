//! The audio naming rule: key and path derivation.

use learn_thai::catalog::Catalog;

#[test]
fn consonant_key_is_the_example_word() {
    let catalog = Catalog::thai();
    let letter = catalog.get(0).unwrap();
    assert!(letter.is_consonant);
    assert_eq!(letter.example_word.as_deref(), Some("ก ไก่"));
    assert_eq!(letter.audio_key(), "ก ไก่");
}

#[test]
fn vowel_key_is_the_glyph() {
    let catalog = Catalog::thai();
    let letter = catalog.get(44).unwrap();
    assert!(!letter.is_consonant);
    assert_eq!(letter.glyph, "อะ");
    assert_eq!(letter.example_word, None);
    assert_eq!(letter.audio_key(), "อะ");
}

#[test]
fn audio_path_puts_key_under_audio_namespace_with_extension() {
    let catalog = Catalog::thai();
    assert_eq!(catalog.get(0).unwrap().audio_path(), "audio/ก ไก่.mp3");
    assert_eq!(catalog.get(44).unwrap().audio_path(), "audio/อะ.mp3");
}

#[test]
fn every_letter_has_a_nonempty_key() {
    let catalog = Catalog::thai();
    for i in 0..catalog.length() {
        let letter = catalog.get(i).unwrap();
        assert!(!letter.audio_key().is_empty());
        let path = letter.audio_path();
        assert!(path.starts_with("audio/"));
        assert!(path.ends_with(".mp3"));
    }
}

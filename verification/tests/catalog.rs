//! The static catalog: size, invariant, order and the error cases.

use learn_thai::catalog::{get_letters, Catalog, CatalogError};
use learn_thai::letter::LetterRecord;

#[test]
fn catalog_has_all_letters() {
    let catalog = Catalog::thai();
    assert_eq!(catalog.length(), 72);
    assert_eq!(get_letters().len(), 72);
}

#[test]
fn every_record_is_well_formed() {
    for letter in get_letters() {
        assert!(letter.check_wf());
        assert_eq!(letter.example_word.is_some(), letter.is_consonant);
        assert_eq!(letter.example_meaning.is_some(), letter.is_consonant);
    }
}

#[test]
fn consonants_come_before_vowels() {
    let letters = get_letters();
    let mut seen_vowel = false;
    for letter in &letters {
        if !letter.is_consonant {
            seen_vowel = true;
        }
        if seen_vowel {
            assert!(!letter.is_consonant);
        }
    }
    assert_eq!(letters.iter().filter(|l| l.is_consonant).count(), 44);
    assert_eq!(letters.iter().filter(|l| !l.is_consonant).count(), 28);
}

#[test]
fn first_record_is_gor_gai() {
    let catalog = Catalog::thai();
    let letter = catalog.get(0).unwrap();
    assert_eq!(letter.glyph, "ก");
    assert_eq!(letter.latinization, "g");
    assert_eq!(letter.pronunciation, "gɔɔ-gài");
    assert_eq!(letter.example_word.as_deref(), Some("ก ไก่"));
    assert_eq!(letter.example_meaning.as_deref(), Some("chicken"));
    assert!(letter.is_consonant);
}

#[test]
fn get_rejects_out_of_range_index() {
    let catalog = Catalog::thai();
    assert!(catalog.get(71).is_ok());
    assert_eq!(catalog.get(72).unwrap_err(), CatalogError::OutOfRange);
    assert_eq!(catalog.get(usize::MAX).unwrap_err(), CatalogError::OutOfRange);
}

#[test]
fn empty_catalog_is_rejected() {
    let none: Vec<LetterRecord> = Vec::new();
    match Catalog::new(none) {
        Err(e) => assert_eq!(e, CatalogError::EmptyCatalog),
        Ok(_) => panic!("an empty catalog must be rejected"),
    }
}

#[test]
fn construction_is_deterministic() {
    let a = get_letters();
    let b = get_letters();
    assert_eq!(a.len(), b.len());
    for (x, y) in a.iter().zip(b.iter()) {
        assert_eq!(x.glyph, y.glyph);
        assert_eq!(x.latinization, y.latinization);
        assert_eq!(x.pronunciation, y.pronunciation);
        assert_eq!(x.example_word, y.example_word);
        assert_eq!(x.example_meaning, y.example_meaning);
        assert_eq!(x.is_consonant, y.is_consonant);
    }
}

#[test]
fn nonempty_catalog_is_accepted() {
    let letters = get_letters();
    let catalog = Catalog::new(letters).unwrap();
    assert_eq!(catalog.length(), 72);
}

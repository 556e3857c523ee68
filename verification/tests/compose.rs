//! View composition: totality, the detail rule, and exact renderings.

use learn_thai::catalog::Catalog;
use learn_thai::view::compose;

#[test]
fn compose_is_total_and_detail_tracks_example_word() {
    let catalog = Catalog::thai();
    for i in 0..catalog.length() {
        let letter = catalog.get(i).unwrap();
        let vm = compose(letter);
        assert!(!vm.primary.is_empty());
        assert_eq!(!vm.detail.is_empty(), letter.example_word.is_some());
    }
}

#[test]
fn compose_consonant_exact_regions() {
    let catalog = Catalog::thai();
    let letter = catalog.get(0).unwrap();
    let vm = compose(letter);
    assert_eq!(
        vm.primary,
        "<span font_desc='Noto Looped Thai UI Normal 40'>ก</span>  \
         <span font_desc='Arial Normal 30'>ก</span>"
    );
    assert_eq!(vm.meta, "English letter: g");
    assert_eq!(
        vm.detail,
        "<span font_desc='Noto Looped Thai UI Normal'>Example: ก ไก่, gɔɔ-gài, chicken</span>"
    );
}

#[test]
fn compose_vowel_has_empty_detail() {
    let catalog = Catalog::thai();
    let letter = catalog.get(44).unwrap();
    assert!(!letter.is_consonant);
    let vm = compose(letter);
    assert_eq!(vm.meta, "English letter: a");
    assert_eq!(vm.detail, "");
}

#[test]
fn render_text_consonant_exact() {
    let catalog = Catalog::thai();
    let letter = catalog.get(0).unwrap();
    assert_eq!(
        letter.render_text(),
        "Letter: ก\nExample: ก ไก่\nPronunciation: gɔɔ-gài\n\
         Example meaning: chicken\nEnglish letter: g\n"
    );
}

#[test]
fn render_text_vowel_has_no_example_lines() {
    let catalog = Catalog::thai();
    let letter = catalog.get(44).unwrap();
    assert_eq!(
        letter.render_text(),
        "Letter: อะ\nPronunciation: sara a\nEnglish letter: a\n"
    );
}

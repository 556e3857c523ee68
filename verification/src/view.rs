//! Composition of the three display regions from a letter record.

use vstd::prelude::*;
use vstd::string::StringExecFns;
use crate::letter::LetterRecord;

verus! {

/// The text of the three display regions for one letter. The shell
/// shows `primary` unconditionally and keeps `meta` and `detail`
/// hidden until the user asks to reveal them.
pub struct ViewModel {
    /// The glyph, marked up in a display font and a fallback font.
    pub primary: String,
    /// The transliteration line.
    pub meta: String,
    /// Example word, pronunciation and gloss for a consonant; empty
    /// for a vowel.
    pub detail: String,
}

/// The primary region: the glyph twice, once in the Thai display font
/// and once in the fallback font.
pub open spec fn primary_spec(r: LetterRecord) -> Seq<char> {
    "<span font_desc='Noto Looped Thai UI Normal 40'>"@ + r.glyph@
        + "</span>  <span font_desc='Arial Normal 30'>"@ + r.glyph@ + "</span>"@
}

/// The meta region: the transliteration behind its fixed caption.
pub open spec fn meta_spec(r: LetterRecord) -> Seq<char> {
    "English letter: "@ + r.latinization@
}

/// The detail region: example word, pronunciation and gloss in the
/// display font when an example is present, empty otherwise.
pub open spec fn detail_spec(r: LetterRecord) -> Seq<char> {
    if r.example_word is Some {
        "<span font_desc='Noto Looped Thai UI Normal'>Example: "@ + r.example_word->0@ + ", "@
            + r.pronunciation@ + ", "@ + r.example_meaning->0@ + "</span>"@
    } else {
        Seq::<char>::empty()
    }
}

/// Composes the three display regions for one letter. This is total
/// over well-formed records, performs no I/O and only produces the
/// value; the `detail` region is non-empty exactly when the record
/// carries an example word.
pub fn compose(letter: &LetterRecord) -> (vm: ViewModel)
    requires
        letter.wf(),
    ensures
        vm.primary@ == primary_spec(*letter),
        vm.meta@ == meta_spec(*letter),
        vm.detail@ == detail_spec(*letter),
        vm.detail@.len() > 0 <==> letter.example_word is Some,
{
    let primary = String::from_str("<span font_desc='Noto Looped Thai UI Normal 40'>")
        .concat(letter.glyph.as_str())
        .concat("</span>  <span font_desc='Arial Normal 30'>")
        .concat(letter.glyph.as_str())
        .concat("</span>");
    let meta = String::from_str("English letter: ").concat(letter.latinization.as_str());
    let detail = match &letter.example_word {
        Some(example) => String::from_str("<span font_desc='Noto Looped Thai UI Normal'>Example: ")
            .concat(example.as_str())
            .concat(", ")
            .concat(letter.pronunciation.as_str())
            .concat(", ")
            .concat(letter.example_meaning.as_ref().unwrap().as_str())
            .concat("</span>"),
        None => String::new(),
    };
    proof {
        assert(primary@ =~= primary_spec(*letter));
        assert(meta@ =~= meta_spec(*letter));
        assert(detail@ =~= detail_spec(*letter));
        reveal_strlit("<span font_desc='Noto Looped Thai UI Normal'>Example: ");
    }
    ViewModel { primary, meta, detail }
}

} // verus!

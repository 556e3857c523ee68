//! Letter records and the audio-resource naming rule.

use vstd::prelude::*;
use vstd::string::StringExecFns;

verus! {

/// One entry of the alphabet: a glyph, its rough transliteration, its
/// phonetic pronunciation, and, for consonants only, an example word
/// with its English gloss.
#[derive(Clone, Debug)]
pub struct LetterRecord {
    /// The Thai character or character cluster.
    pub glyph: String,
    /// Rough English-letter transliteration.
    pub latinization: String,
    /// Phonetic pronunciation string.
    pub pronunciation: String,
    /// A whole word illustrating the letter; present only for consonants.
    pub example_word: Option<String>,
    /// English gloss of `example_word`; present iff `example_word` is.
    pub example_meaning: Option<String>,
    /// Selects the audio naming rule and which display fields apply.
    pub is_consonant: bool,
}

/// The mathematical image of one letter record: every field as a plain
/// spec value. The static catalog is pinned, record for record, against
/// a table of these.
pub struct LetterSpec {
    /// View of the glyph.
    pub glyph: Seq<char>,
    /// View of the transliteration.
    pub latinization: Seq<char>,
    /// View of the pronunciation string.
    pub pronunciation: Seq<char>,
    /// View of the example word, present only for consonants.
    pub example_word: Option<Seq<char>>,
    /// View of the example gloss, present iff the example word is.
    pub example_meaning: Option<Seq<char>>,
    /// Whether the letter is a consonant.
    pub is_consonant: bool,
}

/// The record `r` holds, field for field, exactly the values `s` gives.
pub open spec fn record_matches(r: LetterRecord, s: LetterSpec) -> bool {
    &&& r.glyph@ == s.glyph
    &&& r.latinization@ == s.latinization
    &&& r.pronunciation@ == s.pronunciation
    &&& r.is_consonant == s.is_consonant
    &&& (r.example_word is Some <==> s.example_word is Some)
    &&& (r.example_word is Some ==> r.example_word->0@ == s.example_word->0)
    &&& (r.example_meaning is Some <==> s.example_meaning is Some)
    &&& (r.example_meaning is Some ==> r.example_meaning->0@ == s.example_meaning->0)
}

/// Two records agree field for field, up to the views of their strings.
pub open spec fn record_agrees(x: LetterRecord, y: LetterRecord) -> bool {
    &&& x.glyph@ == y.glyph@
    &&& x.latinization@ == y.latinization@
    &&& x.pronunciation@ == y.pronunciation@
    &&& x.is_consonant == y.is_consonant
    &&& (x.example_word is Some <==> y.example_word is Some)
    &&& (x.example_word is Some ==> x.example_word->0@ == y.example_word->0@)
    &&& (x.example_meaning is Some <==> y.example_meaning is Some)
    &&& (x.example_meaning is Some ==> x.example_meaning->0@ == y.example_meaning->0@)
}

impl LetterRecord {
    /// A record is well formed when the two optional fields are present
    /// exactly for consonants: vowels carry neither an example word nor
    /// a meaning.
    pub open spec fn wf(self) -> bool {
        &&& self.example_word is Some <==> self.is_consonant
        &&& self.example_meaning is Some <==> self.is_consonant
    }

    /// Runtime check of `wf`, for callers outside the library that must
    /// establish it before handing records in.
    pub fn check_wf(&self) -> (r: bool)
        ensures
            r == self.wf(),
    {
        (self.example_word.is_some() == self.is_consonant)
            && (self.example_meaning.is_some() == self.is_consonant)
    }

    /// The name the audio resource for this letter is filed under:
    /// the example word for a consonant, the glyph itself for a vowel.
    pub open spec fn audio_key_spec(self) -> Seq<char> {
        if self.is_consonant {
            self.example_word->0@
        } else {
            self.glyph@
        }
    }

    /// Derives the audio resource key by the naming rule above.
    pub fn audio_key(&self) -> (r: String)
        requires
            self.wf(),
        ensures
            r@ == self.audio_key_spec(),
    {
        if self.is_consonant {
            self.example_word.as_ref().unwrap().clone()
        } else {
            self.glyph.clone()
        }
    }

    /// The fixed multi-line textual rendering of a record, one caption
    /// per line, with the example lines present only when the optional
    /// fields are.
    pub open spec fn render_spec(self) -> Seq<char> {
        "Letter: "@ + self.glyph@ + "\n"@ + (if self.example_word is Some {
            "Example: "@ + self.example_word->0@ + "\n"@
        } else {
            Seq::<char>::empty()
        }) + "Pronunciation: "@ + self.pronunciation@ + "\n"@ + (if self.example_meaning is Some {
            "Example meaning: "@ + self.example_meaning->0@ + "\n"@
        } else {
            Seq::<char>::empty()
        }) + "English letter: "@ + self.latinization@ + "\n"@
    }

    /// Renders the record as the fixed multi-line text the CLI prints.
    pub fn render_text(&self) -> (r: String)
        ensures
            r@ == self.render_spec(),
    {
        let mut r = String::from_str("Letter: ");
        r.append(self.glyph.as_str());
        r.append("\n");
        match &self.example_word {
            Some(example) => {
                r.append("Example: ");
                r.append(example.as_str());
                r.append("\n");
            },
            None => {},
        }
        r.append("Pronunciation: ");
        r.append(self.pronunciation.as_str());
        r.append("\n");
        match &self.example_meaning {
            Some(meaning) => {
                r.append("Example meaning: ");
                r.append(meaning.as_str());
                r.append("\n");
            },
            None => {},
        }
        r.append("English letter: ");
        r.append(self.latinization.as_str());
        r.append("\n");
        proof {
            assert(r@ =~= self.render_spec());
        }
        r
    }

    /// The full resource path of the audio clip: the key under the fixed
    /// `audio/` namespace, with the fixed extension.
    pub open spec fn audio_path_spec(self) -> Seq<char> {
        "audio/"@ + self.audio_key_spec() + ".mp3"@
    }

    /// Derives the path of the audio file to play for this letter.
    pub fn audio_path(&self) -> (r: String)
        requires
            self.wf(),
        ensures
            r@ == self.audio_path_spec(),
    {
        let key = self.audio_key();
        let r = String::from_str("audio/").concat(key.as_str()).concat(".mp3");
        proof {
            assert(r@ =~= self.audio_path_spec());
        }
        r
    }
}

} // verus!

//! The immutable, ordered catalog of letters and its static contents.

use vstd::prelude::*;
use vstd::string::StringExecFns;
use crate::letter::{record_agrees, record_matches, LetterRecord, LetterSpec};

verus! {

/// Failures of the data layer. Both are unreachable in normal use:
/// the navigation invariant keeps indices in range, and the static
/// catalog is never empty.
#[derive(Clone, Copy, Debug, PartialEq, Eq, Structural)]
pub enum CatalogError {
    /// An index outside `[0, length)` was asked for.
    OutOfRange,
    /// A catalog was to be built from no records at all.
    EmptyCatalog,
}

/// Every record of the sequence is well formed.
pub open spec fn all_wf(s: Seq<LetterRecord>) -> bool {
    forall|i: int| 0 <= i < s.len() ==> (#[trigger] s[i]).wf()
}

/// Every record of the sequence is a consonant.
pub open spec fn all_consonant(s: Seq<LetterRecord>) -> bool {
    forall|i: int| 0 <= i < s.len() ==> (#[trigger] s[i]).is_consonant
}

/// The consonants stand before the vowels: no consonant follows a
/// vowel anywhere in the sequence.
pub open spec fn consonants_first(s: Seq<LetterRecord>) -> bool {
    forall|i: int, j: int|
        0 <= i < j < s.len() && (#[trigger] s[j]).is_consonant ==> (#[trigger] s[i]).is_consonant
}

/// The letter at index `i` of the standard table: the 44 consonants in
/// traditional order, then the 28 vowels.
pub open spec fn thai_letter(i: int) -> LetterSpec {
    if i == 0 {
        LetterSpec {
            glyph: "ก"@,
            latinization: "g"@,
            pronunciation: "gɔɔ-gài"@,
            example_word: Some("ก ไก่"@),
            example_meaning: Some("chicken"@),
            is_consonant: true,
        }
    } else if i == 1 {
        LetterSpec {
            glyph: "ข"@,
            latinization: "k"@,
            pronunciation: "kɔ̌ɔ-kài"@,
            example_word: Some("ข ไข่"@),
            example_meaning: Some("egg"@),
            is_consonant: true,
        }
    } else if i == 2 {
        LetterSpec {
            glyph: "ฃ"@,
            latinization: "k"@,
            pronunciation: "kɔ̌ɔ-kùuat"@,
            example_word: Some("ฃ ขวด"@),
            example_meaning: Some("bottle (no longer in use)"@),
            is_consonant: true,
        }
    } else if i == 3 {
        LetterSpec {
            glyph: "ค"@,
            latinization: "k"@,
            pronunciation: "kɔɔ-kwaai"@,
            example_word: Some("ค ควาย"@),
            example_meaning: Some("buffalo"@),
            is_consonant: true,
        }
    } else if i == 4 {
        LetterSpec {
            glyph: "ฅ"@,
            latinization: "k"@,
            pronunciation: "kɔɔ-kon"@,
            example_word: Some("ฅ คน"@),
            example_meaning: Some("person (no longer a direct object)"@),
            is_consonant: true,
        }
    } else if i == 5 {
        LetterSpec {
            glyph: "ฆ"@,
            latinization: "k"@,
            pronunciation: "kɔɔ-rá-kang"@,
            example_word: Some("ฆ ระฆัง"@),
            example_meaning: Some("bell"@),
            is_consonant: true,
        }
    } else if i == 6 {
        LetterSpec {
            glyph: "ง"@,
            latinization: "ng"@,
            pronunciation: "ngɔɔ-nguu"@,
            example_word: Some("ง งู"@),
            example_meaning: Some("snake"@),
            is_consonant: true,
        }
    } else if i == 7 {
        LetterSpec {
            glyph: "จ"@,
            latinization: "j"@,
            pronunciation: "jɔɔ-jaan"@,
            example_word: Some("จ จาน"@),
            example_meaning: Some("plate"@),
            is_consonant: true,
        }
    } else if i == 8 {
        LetterSpec {
            glyph: "ฉ"@,
            latinization: "ch"@,
            pronunciation: "chɔ̌ɔ-chìng"@,
            example_word: Some("ฉ ฉิ่ง"@),
            example_meaning: Some("cymbals"@),
            is_consonant: true,
        }
    } else if i == 9 {
        LetterSpec {
            glyph: "ช"@,
            latinization: "ch"@,
            pronunciation: "chɔɔ-cháang"@,
            example_word: Some("ช ช้าง"@),
            example_meaning: Some("elephant"@),
            is_consonant: true,
        }
    } else if i == 10 {
        LetterSpec {
            glyph: "ซ"@,
            latinization: "s"@,
            pronunciation: "sɔɔ-sôo"@,
            example_word: Some("ซ โซ่"@),
            example_meaning: Some("chain"@),
            is_consonant: true,
        }
    } else if i == 11 {
        LetterSpec {
            glyph: "ฌ"@,
            latinization: "ch"@,
            pronunciation: "chɔɔ-chəə"@,
            example_word: Some("ฌ เฌอ"@),
            example_meaning: Some("tree"@),
            is_consonant: true,
        }
    } else if i == 12 {
        LetterSpec {
            glyph: "ญ"@,
            latinization: "y"@,
            pronunciation: "yɔɔ-yǐng"@,
            example_word: Some("ญ หญิง"@),
            example_meaning: Some("woman"@),
            is_consonant: true,
        }
    } else if i == 13 {
        LetterSpec {
            glyph: "ฎ"@,
            latinization: "d"@,
            pronunciation: "dɔɔ-chá-daa"@,
            example_word: Some("ฎ ชฎา"@),
            example_meaning: Some("headdress"@),
            is_consonant: true,
        }
    } else if i == 14 {
        LetterSpec {
            glyph: "ฏ"@,
            latinization: "dt"@,
            pronunciation: "dtɔɔ-bpà-dtàk"@,
            example_word: Some("ฏ ปฏัก"@),
            example_meaning: Some("goad"@),
            is_consonant: true,
        }
    } else if i == 15 {
        LetterSpec {
            glyph: "ฐ"@,
            latinization: "t"@,
            pronunciation: "tɔ̌ɔ-tǎan"@,
            example_word: Some("ฐ ฐาน"@),
            example_meaning: Some("pedestal"@),
            is_consonant: true,
        }
    } else if i == 16 {
        LetterSpec {
            glyph: "ฑ"@,
            latinization: "t"@,
            pronunciation: "tɔɔ-mon-too"@,
            example_word: Some("ฑ มณโฑ"@),
            example_meaning: Some("Montho"@),
            is_consonant: true,
        }
    } else if i == 17 {
        LetterSpec {
            glyph: "ฒ"@,
            latinization: "t"@,
            pronunciation: "tɔɔ-pûu-tâo"@,
            example_word: Some("ฒ ผู้เฒ่า"@),
            example_meaning: Some("elder"@),
            is_consonant: true,
        }
    } else if i == 18 {
        LetterSpec {
            glyph: "ณ"@,
            latinization: "n"@,
            pronunciation: "nɔɔ-neen"@,
            example_word: Some("ณ เณร"@),
            example_meaning: Some("novice monk"@),
            is_consonant: true,
        }
    } else if i == 19 {
        LetterSpec {
            glyph: "ด"@,
            latinization: "d"@,
            pronunciation: "dɔɔ-dèk"@,
            example_word: Some("ด เด็ก"@),
            example_meaning: Some("child"@),
            is_consonant: true,
        }
    } else if i == 20 {
        LetterSpec {
            glyph: "ต"@,
            latinization: "dt"@,
            pronunciation: "dtɔɔ-dtào"@,
            example_word: Some("ต เต่า"@),
            example_meaning: Some("turtle"@),
            is_consonant: true,
        }
    } else if i == 21 {
        LetterSpec {
            glyph: "ถ"@,
            latinization: "t"@,
            pronunciation: "tɔ̌ɔ-tǔng"@,
            example_word: Some("ถ ถุง"@),
            example_meaning: Some("sack"@),
            is_consonant: true,
        }
    } else if i == 22 {
        LetterSpec {
            glyph: "ท"@,
            latinization: "t"@,
            pronunciation: "tɔɔ-tá-hǎan"@,
            example_word: Some("ท ทหาร"@),
            example_meaning: Some("soldier"@),
            is_consonant: true,
        }
    } else if i == 23 {
        LetterSpec {
            glyph: "ธ"@,
            latinization: "t"@,
            pronunciation: "tɔɔ-tong"@,
            example_word: Some("ธ ธง"@),
            example_meaning: Some("flag"@),
            is_consonant: true,
        }
    } else if i == 24 {
        LetterSpec {
            glyph: "น"@,
            latinization: "n"@,
            pronunciation: "nɔɔ-nǔu"@,
            example_word: Some("น หนู"@),
            example_meaning: Some("mouse"@),
            is_consonant: true,
        }
    } else if i == 25 {
        LetterSpec {
            glyph: "บ"@,
            latinization: "b"@,
            pronunciation: "bɔɔ-bai-mái"@,
            example_word: Some("บ ใบไม้"@),
            example_meaning: Some("leaf"@),
            is_consonant: true,
        }
    } else if i == 26 {
        LetterSpec {
            glyph: "ป"@,
            latinization: "bp"@,
            pronunciation: "bpɔɔ-bplaa"@,
            example_word: Some("ป ปลา"@),
            example_meaning: Some("fish"@),
            is_consonant: true,
        }
    } else if i == 27 {
        LetterSpec {
            glyph: "ผ"@,
            latinization: "p"@,
            pronunciation: "pɔ̌ɔ-pʉ̂ng"@,
            example_word: Some("ผ ผึ้ง"@),
            example_meaning: Some("bee"@),
            is_consonant: true,
        }
    } else if i == 28 {
        LetterSpec {
            glyph: "ฝ"@,
            latinization: "f"@,
            pronunciation: "fɔ̌ɔ-fǎa"@,
            example_word: Some("ฝ ฝา"@),
            example_meaning: Some("lid"@),
            is_consonant: true,
        }
    } else if i == 29 {
        LetterSpec {
            glyph: "พ"@,
            latinization: "p"@,
            pronunciation: "pɔɔ-paan"@,
            example_word: Some("พ พาน"@),
            example_meaning: Some("tray"@),
            is_consonant: true,
        }
    } else if i == 30 {
        LetterSpec {
            glyph: "ฟ"@,
            latinization: "f"@,
            pronunciation: "fɔɔ-fan"@,
            example_word: Some("ฟ ฟัน"@),
            example_meaning: Some("teeth"@),
            is_consonant: true,
        }
    } else if i == 31 {
        LetterSpec {
            glyph: "ภ"@,
            latinization: "p"@,
            pronunciation: "pɔɔ-sǎm-pao"@,
            example_word: Some("ภ สำเภา"@),
            example_meaning: Some("junk boat"@),
            is_consonant: true,
        }
    } else if i == 32 {
        LetterSpec {
            glyph: "ม"@,
            latinization: "m"@,
            pronunciation: "mɔɔ-máa"@,
            example_word: Some("ม ม้า"@),
            example_meaning: Some("horse"@),
            is_consonant: true,
        }
    } else if i == 33 {
        LetterSpec {
            glyph: "ย"@,
            latinization: "y"@,
            pronunciation: "yɔɔ-yák"@,
            example_word: Some("ย ยักษ์"@),
            example_meaning: Some("giant"@),
            is_consonant: true,
        }
    } else if i == 34 {
        LetterSpec {
            glyph: "ร"@,
            latinization: "r"@,
            pronunciation: "rɔɔ-rʉʉa"@,
            example_word: Some("ร เรือ"@),
            example_meaning: Some("boat"@),
            is_consonant: true,
        }
    } else if i == 35 {
        LetterSpec {
            glyph: "ล"@,
            latinization: "l"@,
            pronunciation: "lɔɔ-ling"@,
            example_word: Some("ล ลิง"@),
            example_meaning: Some("monkey"@),
            is_consonant: true,
        }
    } else if i == 36 {
        LetterSpec {
            glyph: "ว"@,
            latinization: "w"@,
            pronunciation: "wɔɔ-wɛ̌ɛn"@,
            example_word: Some("ว แหวน"@),
            example_meaning: Some("ring"@),
            is_consonant: true,
        }
    } else if i == 37 {
        LetterSpec {
            glyph: "ศ"@,
            latinization: "s"@,
            pronunciation: "sɔ̌ɔ-sǎa-laa"@,
            example_word: Some("ศ ศาลา"@),
            example_meaning: Some("pavilion"@),
            is_consonant: true,
        }
    } else if i == 38 {
        LetterSpec {
            glyph: "ษ"@,
            latinization: "s"@,
            pronunciation: "sɔ̌ɔ-rʉʉ-sǐi"@,
            example_word: Some("ษ ฤๅษี"@),
            example_meaning: Some("hermit"@),
            is_consonant: true,
        }
    } else if i == 39 {
        LetterSpec {
            glyph: "ส"@,
            latinization: "s"@,
            pronunciation: "sɔ̌ɔ-sʉ̌ʉa"@,
            example_word: Some("ส เสือ"@),
            example_meaning: Some("tiger"@),
            is_consonant: true,
        }
    } else if i == 40 {
        LetterSpec {
            glyph: "ห"@,
            latinization: "h"@,
            pronunciation: "hɔ̌ɔ-hìip"@,
            example_word: Some("ห หีบ"@),
            example_meaning: Some("chest"@),
            is_consonant: true,
        }
    } else if i == 41 {
        LetterSpec {
            glyph: "ฬ"@,
            latinization: "l"@,
            pronunciation: "lɔɔ-jù-laa"@,
            example_word: Some("ฬ จุฬา"@),
            example_meaning: Some("kite"@),
            is_consonant: true,
        }
    } else if i == 42 {
        LetterSpec {
            glyph: "อ"@,
            latinization: "o"@,
            pronunciation: "ɔɔ-àang"@,
            example_word: Some("อ อ่าง"@),
            example_meaning: Some("basin"@),
            is_consonant: true,
        }
    } else if i == 43 {
        LetterSpec {
            glyph: "ฮ"@,
            latinization: "h"@,
            pronunciation: "hɔɔ-nók-hûuk"@,
            example_word: Some("ฮ นกฮูก"@),
            example_meaning: Some("owl"@),
            is_consonant: true,
        }
    } else if i == 44 {
        LetterSpec {
            glyph: "อะ"@,
            latinization: "a"@,
            pronunciation: "sara a"@,
            example_word: None,
            example_meaning: None,
            is_consonant: false,
        }
    } else if i == 45 {
        LetterSpec {
            glyph: "อิ"@,
            latinization: "i"@,
            pronunciation: "sara i"@,
            example_word: None,
            example_meaning: None,
            is_consonant: false,
        }
    } else if i == 46 {
        LetterSpec {
            glyph: "อึ"@,
            latinization: "ʉ"@,
            pronunciation: "sara ue"@,
            example_word: None,
            example_meaning: None,
            is_consonant: false,
        }
    } else if i == 47 {
        LetterSpec {
            glyph: "อุ"@,
            latinization: "u"@,
            pronunciation: "sara u"@,
            example_word: None,
            example_meaning: None,
            is_consonant: false,
        }
    } else if i == 48 {
        LetterSpec {
            glyph: "เอะ"@,
            latinization: "e"@,
            pronunciation: "sara e"@,
            example_word: None,
            example_meaning: None,
            is_consonant: false,
        }
    } else if i == 49 {
        LetterSpec {
            glyph: "แอะ"@,
            latinization: "ɛ"@,
            pronunciation: "sara ae"@,
            example_word: None,
            example_meaning: None,
            is_consonant: false,
        }
    } else if i == 50 {
        LetterSpec {
            glyph: "โอะ"@,
            latinization: "o"@,
            pronunciation: "sara o"@,
            example_word: None,
            example_meaning: None,
            is_consonant: false,
        }
    } else if i == 51 {
        LetterSpec {
            glyph: "เอาะ"@,
            latinization: "ɔ"@,
            pronunciation: "sara o"@,
            example_word: None,
            example_meaning: None,
            is_consonant: false,
        }
    } else if i == 52 {
        LetterSpec {
            glyph: "เออะ"@,
            latinization: "ə"@,
            pronunciation: "sara oe"@,
            example_word: None,
            example_meaning: None,
            is_consonant: false,
        }
    } else if i == 53 {
        LetterSpec {
            glyph: "เอียะ"@,
            latinization: "ia"@,
            pronunciation: "sara ia"@,
            example_word: None,
            example_meaning: None,
            is_consonant: false,
        }
    } else if i == 54 {
        LetterSpec {
            glyph: "เอือะ"@,
            latinization: "uea"@,
            pronunciation: "sara uea"@,
            example_word: None,
            example_meaning: None,
            is_consonant: false,
        }
    } else if i == 55 {
        LetterSpec {
            glyph: "อัวะ"@,
            latinization: "ua"@,
            pronunciation: "sara ua"@,
            example_word: None,
            example_meaning: None,
            is_consonant: false,
        }
    } else if i == 56 {
        LetterSpec {
            glyph: "อำ"@,
            latinization: "am"@,
            pronunciation: "sara am"@,
            example_word: None,
            example_meaning: None,
            is_consonant: false,
        }
    } else if i == 57 {
        LetterSpec {
            glyph: "ไอ"@,
            latinization: "ai"@,
            pronunciation: "sara ai"@,
            example_word: None,
            example_meaning: None,
            is_consonant: false,
        }
    } else if i == 58 {
        LetterSpec {
            glyph: "ใอ"@,
            latinization: "ai"@,
            pronunciation: "sara ai"@,
            example_word: None,
            example_meaning: None,
            is_consonant: false,
        }
    } else if i == 59 {
        LetterSpec {
            glyph: "เอา"@,
            latinization: "ao"@,
            pronunciation: "sara ao"@,
            example_word: None,
            example_meaning: None,
            is_consonant: false,
        }
    } else if i == 60 {
        LetterSpec {
            glyph: "อา"@,
            latinization: "aa"@,
            pronunciation: "sara a"@,
            example_word: None,
            example_meaning: None,
            is_consonant: false,
        }
    } else if i == 61 {
        LetterSpec {
            glyph: "อี"@,
            latinization: "ii"@,
            pronunciation: "sara i"@,
            example_word: None,
            example_meaning: None,
            is_consonant: false,
        }
    } else if i == 62 {
        LetterSpec {
            glyph: "อือ"@,
            latinization: "ʉʉ"@,
            pronunciation: "sara ue"@,
            example_word: None,
            example_meaning: None,
            is_consonant: false,
        }
    } else if i == 63 {
        LetterSpec {
            glyph: "อู"@,
            latinization: "uu"@,
            pronunciation: "sara u"@,
            example_word: None,
            example_meaning: None,
            is_consonant: false,
        }
    } else if i == 64 {
        LetterSpec {
            glyph: "เอ"@,
            latinization: "ee"@,
            pronunciation: "sara e"@,
            example_word: None,
            example_meaning: None,
            is_consonant: false,
        }
    } else if i == 65 {
        LetterSpec {
            glyph: "แอ"@,
            latinization: "ɛɛ"@,
            pronunciation: "sara ae"@,
            example_word: None,
            example_meaning: None,
            is_consonant: false,
        }
    } else if i == 66 {
        LetterSpec {
            glyph: "โอ"@,
            latinization: "oo"@,
            pronunciation: "sara o"@,
            example_word: None,
            example_meaning: None,
            is_consonant: false,
        }
    } else if i == 67 {
        LetterSpec {
            glyph: "ออ"@,
            latinization: "ɔ"@,
            pronunciation: "sara o"@,
            example_word: None,
            example_meaning: None,
            is_consonant: false,
        }
    } else if i == 68 {
        LetterSpec {
            glyph: "เออ"@,
            latinization: "əə"@,
            pronunciation: "sara oe"@,
            example_word: None,
            example_meaning: None,
            is_consonant: false,
        }
    } else if i == 69 {
        LetterSpec {
            glyph: "เอีย"@,
            latinization: "iaa"@,
            pronunciation: "sara ia"@,
            example_word: None,
            example_meaning: None,
            is_consonant: false,
        }
    } else if i == 70 {
        LetterSpec {
            glyph: "เอือ"@,
            latinization: "uea"@,
            pronunciation: "sara uea"@,
            example_word: None,
            example_meaning: None,
            is_consonant: false,
        }
    } else {
        LetterSpec {
            glyph: "อัว"@,
            latinization: "uaa"@,
            pronunciation: "sara ua"@,
            example_word: None,
            example_meaning: None,
            is_consonant: false,
        }
    }
}

/// The standard table as a sequence: the field values of every letter,
/// by index.
pub open spec fn thai_table() -> Seq<LetterSpec> {
    Seq::new(72, |i: int| thai_letter(i))
}

/// The sequence holds exactly the standard table: the same length and,
/// at every index, a record whose fields are the table's values there.
pub open spec fn matches_table(s: Seq<LetterRecord>) -> bool {
    &&& s.len() == thai_table().len()
    &&& forall|i: int| 0 <= i < s.len() ==> record_matches(#[trigger] s[i], thai_table()[i])
}

/// A well-formed prefix of the standard table, while it is being built.
spec fn matches_prefix(s: Seq<LetterRecord>) -> bool {
    &&& s.len() <= thai_table().len()
    &&& forall|i: int| 0 <= i < s.len() ==> record_matches(#[trigger] s[i], thai_table()[i])
}

/// Construction of the catalog is deterministic: any two tables that
/// meet the contract of `get_letters` agree field for field at every
/// index.
pub proof fn lemma_construction_deterministic(a: Seq<LetterRecord>, b: Seq<LetterRecord>)
    requires
        matches_table(a),
        matches_table(b),
    ensures
        a.len() == b.len(),
        forall|i: int| 0 <= i < a.len() ==> record_agrees(#[trigger] a[i], b[i]),
{
    assert forall|i: int| 0 <= i < a.len() implies record_agrees(#[trigger] a[i], b[i]) by {
        assert(record_matches(a[i], thai_table()[i]));
        assert(record_matches(b[i], thai_table()[i]));
    }
}

/// An immutable ordered sequence of letter records. Built once, read
/// only thereafter; the order (consonants first, in traditional order,
/// then vowels) drives the next/previous semantics.
pub struct Catalog {
    letters: Vec<LetterRecord>,
}

impl View for Catalog {
    type V = Seq<LetterRecord>;

    closed spec fn view(&self) -> Seq<LetterRecord> {
        self.letters@
    }
}

impl Catalog {
    /// The catalog invariant: non-empty, every record well formed.
    pub open spec fn wf(self) -> bool {
        &&& self@.len() >= 1
        &&& all_wf(self@)
    }

    /// Builds a catalog from the given records; rejects an empty
    /// sequence, which would leave the navigation cursor nowhere to
    /// stand.
    pub fn new(letters: Vec<LetterRecord>) -> (r: Result<Catalog, CatalogError>)
        ensures
            letters@.len() == 0 <==> r is Err,
            r is Err ==> r->Err_0 == CatalogError::EmptyCatalog,
            r is Ok ==> r->Ok_0@ == letters@,
            letters@.len() >= 1 && all_wf(letters@) ==> r is Ok && r->Ok_0.wf(),
    {
        if letters.len() == 0 {
            Err(CatalogError::EmptyCatalog)
        } else {
            Ok(Catalog { letters })
        }
    }

    /// The fixed number of records.
    pub fn length(&self) -> (n: usize)
        ensures
            n == self@.len(),
    {
        self.letters.len()
    }

    /// The record at `index`; fails with `OutOfRange` exactly when the
    /// index is not within `[0, length)`.
    pub fn get(&self, index: usize) -> (r: Result<&LetterRecord, CatalogError>)
        ensures
            r is Ok <==> index < self@.len(),
            index < self@.len() ==> r is Ok && *r->Ok_0 == self@[index as int],
            index >= self@.len() ==> r is Err && r->Err_0 == CatalogError::OutOfRange,
    {
        if index < self.letters.len() {
            Ok(&self.letters[index])
        } else {
            Err(CatalogError::OutOfRange)
        }
    }

    /// The standard catalog: every Thai letter, consonants first in
    /// traditional order, then the vowels.
    pub fn thai() -> (c: Catalog)
        ensures
            c.wf(),
            c@.len() == 72,
            matches_table(c@),
            forall|i: int| 0 <= i < 44 ==> (#[trigger] c@[i]).is_consonant,
            forall|i: int| 44 <= i < c@.len() ==> !(#[trigger] c@[i]).is_consonant,
            consonants_first(c@),
    {
        let letters = get_letters();
        match Catalog::new(letters) {
            Ok(c) => c,
            Err(_) => {
                // unreachable: the static catalog is never empty
                proof {
                    assert(false);
                }
                Catalog { letters: Vec::new() }
            },
        }
    }
}

/// Appends one consonant record built from the given fields. Appending
/// a consonant keeps a run of consonants all-consonant.
fn push_consonant(
    v: &mut Vec<LetterRecord>,
    glyph: &str,
    latin: &str,
    pron: &str,
    example: &str,
    meaning: &str,
)
    ensures
        final(v)@.len() == old(v)@.len() + 1,
        forall|i: int| 0 <= i < old(v)@.len() ==> final(v)@[i] == old(v)@[i],
        ({
            let rec = final(v)@[old(v)@.len() as int];
            &&& rec.wf()
            &&& rec.is_consonant
            &&& rec.glyph@ == glyph@
            &&& rec.latinization@ == latin@
            &&& rec.pronunciation@ == pron@
            &&& rec.example_word is Some && rec.example_word->0@ == example@
            &&& rec.example_meaning is Some && rec.example_meaning->0@ == meaning@
        }),
        all_wf(old(v)@) ==> all_wf(final(v)@),
        all_consonant(old(v)@) ==> all_consonant(final(v)@),
{
    let rec = LetterRecord {
        glyph: String::from_str(glyph),
        latinization: String::from_str(latin),
        pronunciation: String::from_str(pron),
        example_word: Some(String::from_str(example)),
        example_meaning: Some(String::from_str(meaning)),
        is_consonant: true,
    };
    v.push(rec);
}

/// Appends one vowel record built from the given fields. Appending a
/// vowel keeps the consonants-first order, whether what stands before
/// it is all consonants or already ends in vowels.
fn push_vowel(v: &mut Vec<LetterRecord>, glyph: &str, latin: &str, pron: &str)
    ensures
        final(v)@.len() == old(v)@.len() + 1,
        forall|i: int| 0 <= i < old(v)@.len() ==> final(v)@[i] == old(v)@[i],
        ({
            let rec = final(v)@[old(v)@.len() as int];
            &&& rec.wf()
            &&& !rec.is_consonant
            &&& rec.glyph@ == glyph@
            &&& rec.latinization@ == latin@
            &&& rec.pronunciation@ == pron@
            &&& rec.example_word is None
            &&& rec.example_meaning is None
        }),
        all_wf(old(v)@) ==> all_wf(final(v)@),
        all_consonant(old(v)@) ==> consonants_first(final(v)@),
        consonants_first(old(v)@) ==> consonants_first(final(v)@),
{
    let rec = LetterRecord {
        glyph: String::from_str(glyph),
        latinization: String::from_str(latin),
        pronunciation: String::from_str(pron),
        example_word: None,
        example_meaning: None,
        is_consonant: false,
    };
    v.push(rec);
}

/// The static table of letter records, one per Thai letter: the
/// consonants in traditional order, then the vowels. Construction is
/// deterministic and side-effect-free.
pub fn get_letters() -> (r: Vec<LetterRecord>)
    ensures
        r@.len() == 72,
        matches_table(r@),
        forall|i: int| 0 <= i < 44 ==> (#[trigger] r@[i]).is_consonant,
        forall|i: int| 44 <= i < r@.len() ==> !(#[trigger] r@[i]).is_consonant,
        all_wf(r@),
        consonants_first(r@),
{
    let mut v: Vec<LetterRecord> = Vec::new();
    push_consonant(&mut v, "ก", "g", "gɔɔ-gài", "ก ไก่", "chicken");
    proof {
        assert(matches_prefix(v@));
    }
    push_consonant(&mut v, "ข", "k", "kɔ̌ɔ-kài", "ข ไข่", "egg");
    proof {
        assert(matches_prefix(v@));
    }
    push_consonant(&mut v, "ฃ", "k", "kɔ̌ɔ-kùuat", "ฃ ขวด", "bottle (no longer in use)");
    proof {
        assert(matches_prefix(v@));
    }
    push_consonant(&mut v, "ค", "k", "kɔɔ-kwaai", "ค ควาย", "buffalo");
    proof {
        assert(matches_prefix(v@));
    }
    push_consonant(&mut v, "ฅ", "k", "kɔɔ-kon", "ฅ คน", "person (no longer a direct object)");
    proof {
        assert(matches_prefix(v@));
    }
    push_consonant(&mut v, "ฆ", "k", "kɔɔ-rá-kang", "ฆ ระฆัง", "bell");
    proof {
        assert(matches_prefix(v@));
    }
    push_consonant(&mut v, "ง", "ng", "ngɔɔ-nguu", "ง งู", "snake");
    proof {
        assert(matches_prefix(v@));
    }
    push_consonant(&mut v, "จ", "j", "jɔɔ-jaan", "จ จาน", "plate");
    proof {
        assert(matches_prefix(v@));
    }
    push_consonant(&mut v, "ฉ", "ch", "chɔ̌ɔ-chìng", "ฉ ฉิ่ง", "cymbals");
    proof {
        assert(matches_prefix(v@));
    }
    push_consonant(&mut v, "ช", "ch", "chɔɔ-cháang", "ช ช้าง", "elephant");
    proof {
        assert(matches_prefix(v@));
    }
    push_consonant(&mut v, "ซ", "s", "sɔɔ-sôo", "ซ โซ่", "chain");
    proof {
        assert(matches_prefix(v@));
    }
    push_consonant(&mut v, "ฌ", "ch", "chɔɔ-chəə", "ฌ เฌอ", "tree");
    proof {
        assert(matches_prefix(v@));
    }
    push_consonant(&mut v, "ญ", "y", "yɔɔ-yǐng", "ญ หญิง", "woman");
    proof {
        assert(matches_prefix(v@));
    }
    push_consonant(&mut v, "ฎ", "d", "dɔɔ-chá-daa", "ฎ ชฎา", "headdress");
    proof {
        assert(matches_prefix(v@));
    }
    push_consonant(&mut v, "ฏ", "dt", "dtɔɔ-bpà-dtàk", "ฏ ปฏัก", "goad");
    proof {
        assert(matches_prefix(v@));
    }
    push_consonant(&mut v, "ฐ", "t", "tɔ̌ɔ-tǎan", "ฐ ฐาน", "pedestal");
    proof {
        assert(matches_prefix(v@));
    }
    push_consonant(&mut v, "ฑ", "t", "tɔɔ-mon-too", "ฑ มณโฑ", "Montho");
    proof {
        assert(matches_prefix(v@));
    }
    push_consonant(&mut v, "ฒ", "t", "tɔɔ-pûu-tâo", "ฒ ผู้เฒ่า", "elder");
    proof {
        assert(matches_prefix(v@));
    }
    push_consonant(&mut v, "ณ", "n", "nɔɔ-neen", "ณ เณร", "novice monk");
    proof {
        assert(matches_prefix(v@));
    }
    push_consonant(&mut v, "ด", "d", "dɔɔ-dèk", "ด เด็ก", "child");
    proof {
        assert(matches_prefix(v@));
    }
    push_consonant(&mut v, "ต", "dt", "dtɔɔ-dtào", "ต เต่า", "turtle");
    proof {
        assert(matches_prefix(v@));
    }
    push_consonant(&mut v, "ถ", "t", "tɔ̌ɔ-tǔng", "ถ ถุง", "sack");
    proof {
        assert(matches_prefix(v@));
    }
    push_consonant(&mut v, "ท", "t", "tɔɔ-tá-hǎan", "ท ทหาร", "soldier");
    proof {
        assert(matches_prefix(v@));
    }
    push_consonant(&mut v, "ธ", "t", "tɔɔ-tong", "ธ ธง", "flag");
    proof {
        assert(matches_prefix(v@));
    }
    push_consonant(&mut v, "น", "n", "nɔɔ-nǔu", "น หนู", "mouse");
    proof {
        assert(matches_prefix(v@));
    }
    push_consonant(&mut v, "บ", "b", "bɔɔ-bai-mái", "บ ใบไม้", "leaf");
    proof {
        assert(matches_prefix(v@));
    }
    push_consonant(&mut v, "ป", "bp", "bpɔɔ-bplaa", "ป ปลา", "fish");
    proof {
        assert(matches_prefix(v@));
    }
    push_consonant(&mut v, "ผ", "p", "pɔ̌ɔ-pʉ̂ng", "ผ ผึ้ง", "bee");
    proof {
        assert(matches_prefix(v@));
    }
    push_consonant(&mut v, "ฝ", "f", "fɔ̌ɔ-fǎa", "ฝ ฝา", "lid");
    proof {
        assert(matches_prefix(v@));
    }
    push_consonant(&mut v, "พ", "p", "pɔɔ-paan", "พ พาน", "tray");
    proof {
        assert(matches_prefix(v@));
    }
    push_consonant(&mut v, "ฟ", "f", "fɔɔ-fan", "ฟ ฟัน", "teeth");
    proof {
        assert(matches_prefix(v@));
    }
    push_consonant(&mut v, "ภ", "p", "pɔɔ-sǎm-pao", "ภ สำเภา", "junk boat");
    proof {
        assert(matches_prefix(v@));
    }
    push_consonant(&mut v, "ม", "m", "mɔɔ-máa", "ม ม้า", "horse");
    proof {
        assert(matches_prefix(v@));
    }
    push_consonant(&mut v, "ย", "y", "yɔɔ-yák", "ย ยักษ์", "giant");
    proof {
        assert(matches_prefix(v@));
    }
    push_consonant(&mut v, "ร", "r", "rɔɔ-rʉʉa", "ร เรือ", "boat");
    proof {
        assert(matches_prefix(v@));
    }
    push_consonant(&mut v, "ล", "l", "lɔɔ-ling", "ล ลิง", "monkey");
    proof {
        assert(matches_prefix(v@));
    }
    push_consonant(&mut v, "ว", "w", "wɔɔ-wɛ̌ɛn", "ว แหวน", "ring");
    proof {
        assert(matches_prefix(v@));
    }
    push_consonant(&mut v, "ศ", "s", "sɔ̌ɔ-sǎa-laa", "ศ ศาลา", "pavilion");
    proof {
        assert(matches_prefix(v@));
    }
    push_consonant(&mut v, "ษ", "s", "sɔ̌ɔ-rʉʉ-sǐi", "ษ ฤๅษี", "hermit");
    proof {
        assert(matches_prefix(v@));
    }
    push_consonant(&mut v, "ส", "s", "sɔ̌ɔ-sʉ̌ʉa", "ส เสือ", "tiger");
    proof {
        assert(matches_prefix(v@));
    }
    push_consonant(&mut v, "ห", "h", "hɔ̌ɔ-hìip", "ห หีบ", "chest");
    proof {
        assert(matches_prefix(v@));
    }
    push_consonant(&mut v, "ฬ", "l", "lɔɔ-jù-laa", "ฬ จุฬา", "kite");
    proof {
        assert(matches_prefix(v@));
    }
    push_consonant(&mut v, "อ", "o", "ɔɔ-àang", "อ อ่าง", "basin");
    proof {
        assert(matches_prefix(v@));
    }
    push_consonant(&mut v, "ฮ", "h", "hɔɔ-nók-hûuk", "ฮ นกฮูก", "owl");
    proof {
        assert(matches_prefix(v@));
    }
    push_vowel(&mut v, "อะ", "a", "sara a");
    proof {
        assert(matches_prefix(v@));
    }
    push_vowel(&mut v, "อิ", "i", "sara i");
    proof {
        assert(matches_prefix(v@));
    }
    push_vowel(&mut v, "อึ", "ʉ", "sara ue");
    proof {
        assert(matches_prefix(v@));
    }
    push_vowel(&mut v, "อุ", "u", "sara u");
    proof {
        assert(matches_prefix(v@));
    }
    push_vowel(&mut v, "เอะ", "e", "sara e");
    proof {
        assert(matches_prefix(v@));
    }
    push_vowel(&mut v, "แอะ", "ɛ", "sara ae");
    proof {
        assert(matches_prefix(v@));
    }
    push_vowel(&mut v, "โอะ", "o", "sara o");
    proof {
        assert(matches_prefix(v@));
    }
    push_vowel(&mut v, "เอาะ", "ɔ", "sara o");
    proof {
        assert(matches_prefix(v@));
    }
    push_vowel(&mut v, "เออะ", "ə", "sara oe");
    proof {
        assert(matches_prefix(v@));
    }
    push_vowel(&mut v, "เอียะ", "ia", "sara ia");
    proof {
        assert(matches_prefix(v@));
    }
    push_vowel(&mut v, "เอือะ", "uea", "sara uea");
    proof {
        assert(matches_prefix(v@));
    }
    push_vowel(&mut v, "อัวะ", "ua", "sara ua");
    proof {
        assert(matches_prefix(v@));
    }
    push_vowel(&mut v, "อำ", "am", "sara am");
    proof {
        assert(matches_prefix(v@));
    }
    push_vowel(&mut v, "ไอ", "ai", "sara ai");
    proof {
        assert(matches_prefix(v@));
    }
    push_vowel(&mut v, "ใอ", "ai", "sara ai");
    proof {
        assert(matches_prefix(v@));
    }
    push_vowel(&mut v, "เอา", "ao", "sara ao");
    proof {
        assert(matches_prefix(v@));
    }
    push_vowel(&mut v, "อา", "aa", "sara a");
    proof {
        assert(matches_prefix(v@));
    }
    push_vowel(&mut v, "อี", "ii", "sara i");
    proof {
        assert(matches_prefix(v@));
    }
    push_vowel(&mut v, "อือ", "ʉʉ", "sara ue");
    proof {
        assert(matches_prefix(v@));
    }
    push_vowel(&mut v, "อู", "uu", "sara u");
    proof {
        assert(matches_prefix(v@));
    }
    push_vowel(&mut v, "เอ", "ee", "sara e");
    proof {
        assert(matches_prefix(v@));
    }
    push_vowel(&mut v, "แอ", "ɛɛ", "sara ae");
    proof {
        assert(matches_prefix(v@));
    }
    push_vowel(&mut v, "โอ", "oo", "sara o");
    proof {
        assert(matches_prefix(v@));
    }
    push_vowel(&mut v, "ออ", "ɔ", "sara o");
    proof {
        assert(matches_prefix(v@));
    }
    push_vowel(&mut v, "เออ", "əə", "sara oe");
    proof {
        assert(matches_prefix(v@));
    }
    push_vowel(&mut v, "เอีย", "iaa", "sara ia");
    proof {
        assert(matches_prefix(v@));
    }
    push_vowel(&mut v, "เอือ", "uea", "sara uea");
    proof {
        assert(matches_prefix(v@));
    }
    push_vowel(&mut v, "อัว", "uaa", "sara ua");
    proof {
        assert(matches_prefix(v@));
        assert forall|i: int| 0 <= i < 44 implies (#[trigger] v@[i]).is_consonant by {
            assert(record_matches(v@[i], thai_table()[i]));
        }
        assert forall|i: int| 44 <= i < v@.len() implies !(#[trigger] v@[i]).is_consonant by {
            assert(record_matches(v@[i], thai_table()[i]));
        }
    }
    v
}

} // verus!

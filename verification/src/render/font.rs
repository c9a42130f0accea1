//! Description of a font face, as far as it serves to pick a font: names,
//! style, weight, stretch, the monospace flag and the face index.

use vstd::prelude::*;
use vstd::string::StringExecFns;
use vstd::utf8::encode_utf8;

verus! {

/// Slant of a face.
#[derive(Clone, Copy, Debug, PartialEq, Eq, Structural)]
pub enum FontStyle {
    Normal,
    Italic,
    Oblique,
}

/// Width class of a face, from narrowest to widest.
#[derive(Clone, Copy, Debug, PartialEq, Eq, Structural)]
pub enum FontStretch {
    UltraCondensed,
    ExtraCondensed,
    Condensed,
    SemiCondensed,
    Normal,
    SemiExpanded,
    Expanded,
    ExtraExpanded,
    UltraExpanded,
}

/// The weight from which a face counts as bold.
pub const BOLD_WEIGHT: u16 = 700;

/// The weight of a regular face.
pub const NORMAL_WEIGHT: u16 = 400;

/// A face as a font database lists it, with every family name it goes by.
#[derive(Clone, Debug)]
pub struct FaceRecord {
    /// Family names, the preferred one first.
    pub families: Vec<String>,
    pub post_script_name: String,
    pub style: FontStyle,
    pub weight: u16,
    pub stretch: FontStretch,
    pub monospaced: bool,
    /// Index of the face in its source, for font collections.
    pub index: u32,
}

/// A simplified description of a font face.
#[derive(Clone, Debug)]
pub struct FontHandle {
    /// Primary family name.
    pub family_name: String,
    /// PostScript name, for precise matching.
    pub postscript_name: String,
    pub style: FontStyle,
    /// Weight, usually from 100 to 900.
    pub weight: u16,
    pub stretch: FontStretch,
    pub is_monospaced: bool,
    /// Index of the face in its source, for font collections.
    pub face_index: u32,
}

/// A font handle as a value.
pub struct FontHandleView {
    pub family_name: Seq<char>,
    pub postscript_name: Seq<char>,
    pub style: FontStyle,
    pub weight: u16,
    pub stretch: FontStretch,
    pub is_monospaced: bool,
    pub face_index: u32,
}

impl View for FontHandle {
    type V = FontHandleView;

    open spec fn view(&self) -> FontHandleView {
        FontHandleView {
            family_name: self.family_name@,
            postscript_name: self.postscript_name@,
            style: self.style,
            weight: self.weight,
            stretch: self.stretch,
            is_monospaced: self.is_monospaced,
            face_index: self.face_index,
        }
    }
}

/// An ASCII capital letter as its small letter; any other byte as itself.
pub open spec fn ascii_lower(byte: u8) -> u8 {
    if 65 <= byte <= 90 {
        (byte + 32) as u8
    } else {
        byte
    }
}

/// Two byte strings are equal but for the case of their ASCII letters.
pub open spec fn equal_ignoring_ascii_case(a: Seq<u8>, b: Seq<u8>) -> bool {
    a.len() == b.len() && forall|i: int| 0 <= i < a.len() ==> ascii_lower(a[i]) == ascii_lower(b[i])
}

/// The display name made of a family name and a PostScript name: the family
/// name, a space, and the PostScript name in round brackets.
pub open spec fn display_name_of(family: Seq<char>, postscript: Seq<char>) -> Seq<char> {
    family + seq![' ', '('] + postscript + seq![')']
}

fn lower_ascii(byte: u8) -> (lowered: u8)
    ensures
        lowered == ascii_lower(byte),
{
    if 65 <= byte && byte <= 90 {
        byte + 32
    } else {
        byte
    }
}

impl FontHandle {
    /// The handle of a face: its first family name, or an empty name when
    /// it has none, and the rest of its description as it stands.
    pub fn from_face(face: &FaceRecord) -> (handle: Self)
        ensures
            handle@ == (FontHandleView {
                family_name: if face.families.len() > 0 {
                    face.families[0]@
                } else {
                    Seq::empty()
                },
                postscript_name: face.post_script_name@,
                style: face.style,
                weight: face.weight,
                stretch: face.stretch,
                is_monospaced: face.monospaced,
                face_index: face.index,
            }),
    {
        let family_name = if face.families.len() > 0 {
            face.families[0].clone()
        } else {
            String::new()
        };
        FontHandle {
            family_name,
            postscript_name: face.post_script_name.clone(),
            style: face.style,
            weight: face.weight,
            stretch: face.stretch,
            is_monospaced: face.monospaced,
            face_index: face.index,
        }
    }

    /// A description fit for display.
    pub fn display_name(&self) -> (name: String)
        ensures
            name@ == display_name_of(self.family_name@, self.postscript_name@),
    {
        proof {
            reveal_strlit(" (");
            reveal_strlit(")");
        }
        let name = self.family_name.clone().concat(" (").concat(self.postscript_name.as_str()).concat(
            ")",
        );
        assert(" ("@ =~= seq![' ', '(']);
        assert(")"@ =~= seq![')']);
        name
    }

    /// Whether the family name is `name`, ASCII letters compared without
    /// regard to case and every other byte exactly.
    pub fn matches_family(&self, name: &str) -> (matches: bool)
        ensures
            matches == equal_ignoring_ascii_case(
                encode_utf8(self.family_name@),
                encode_utf8(name@),
            ),
    {
        let own = self.family_name.as_str().as_bytes();
        let other = name.as_bytes();
        if own.len() != other.len() {
            return false;
        }
        let n = own.len();
        let mut i: usize = 0;
        while i < n
            invariant
                i <= n,
                n == own@.len(),
                n == other@.len(),
                own@ == encode_utf8(self.family_name@),
                other@ == encode_utf8(name@),
                forall|j: int| 0 <= j < i ==> ascii_lower(own@[j]) == ascii_lower(other@[j]),
            decreases n - i,
        {
            if lower_ascii(own[i]) != lower_ascii(other[i]) {
                return false;
            }
            i += 1;
        }
        true
    }

    /// Whether the face is bold: its weight is 700 or more.
    pub fn is_bold(&self) -> (bold: bool)
        ensures
            bold == (self.weight >= BOLD_WEIGHT),
    {
        self.weight >= BOLD_WEIGHT
    }

    /// Whether the face is slanted: italic or oblique.
    pub fn is_italic(&self) -> (slanted: bool)
        ensures
            slanted == (self.style == FontStyle::Italic || self.style == FontStyle::Oblique),
    {
        match self.style {
            FontStyle::Italic => true,
            FontStyle::Oblique => true,
            FontStyle::Normal => false,
        }
    }
}

impl Default for FontHandle {
    /// A regular, upright face of normal width without names.
    fn default() -> (handle: Self)
        ensures
            handle@ == (FontHandleView {
                family_name: Seq::empty(),
                postscript_name: Seq::empty(),
                style: FontStyle::Normal,
                weight: NORMAL_WEIGHT,
                stretch: FontStretch::Normal,
                is_monospaced: false,
                face_index: 0,
            }),
    {
        FontHandle {
            family_name: String::new(),
            postscript_name: String::new(),
            style: FontStyle::Normal,
            weight: NORMAL_WEIGHT,
            stretch: FontStretch::Normal,
            is_monospaced: false,
            face_index: 0,
        }
    }
}

} // verus!

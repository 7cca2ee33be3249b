//! Paint record values: a 16-bit-per-channel RGB colour plus name,
//! characteristics and notes.

use vstd::prelude::*;

use crate::characteristics::ModelPaintCharacteristics;

verus! {

/// An RGB colour with 16 bits per channel, as written in record text.
#[derive(Clone, Copy, Debug, PartialEq, Eq, Structural)]
pub struct RGB16 {
    pub red: u16,
    pub green: u16,
    pub blue: u16,
}

/// One paint record: immutable once parsed.
#[derive(Clone, Debug)]
pub struct PaintSpec {
    /// Non-empty, unique within its series.
    pub name: String,
    pub rgb: RGB16,
    pub characteristics: ModelPaintCharacteristics,
    /// Free-form notes; may be empty.
    pub notes: String,
}

/// The mathematical value of a `PaintSpec`: its strings as character
/// sequences.
pub ghost struct PaintSpecV {
    pub name: Seq<char>,
    pub rgb: RGB16,
    pub characteristics: ModelPaintCharacteristics,
    pub notes: Seq<char>,
}

impl View for PaintSpec {
    type V = PaintSpecV;

    open spec fn view(&self) -> PaintSpecV {
        PaintSpecV {
            name: self.name@,
            rgb: self.rgb,
            characteristics: self.characteristics,
            notes: self.notes@,
        }
    }
}

impl PaintSpecV {
    /// A record value the textual format can carry: the name is non-empty
    /// and neither the name nor the notes contain a double quote, the
    /// format's string delimiter.
    pub open spec fn wf(self) -> bool {
        self.name.len() > 0 && !self.name.contains('"') && !self.notes.contains('"')
    }
}

impl PaintSpec {
    /// A copy carrying the same record value; unlike `clone`, its contract
    /// says so.
    pub fn duplicate(&self) -> (r: PaintSpec)
        ensures
            r@ == self@,
    {
        PaintSpec {
            name: self.name.clone(),
            rgb: self.rgb,
            characteristics: self.characteristics,
            notes: self.notes.clone(),
        }
    }

    /// Whether this record can be carried by the textual format.
    pub fn is_well_formed(&self) -> (r: bool)
        ensures
            r == self@.wf(),
    {
        if self.name.as_str().unicode_len() == 0 {
            return false;
        }
        let q = crate::scan::find_char_from(self.name.as_str(), 0, '"');
        if q < self.name.as_str().unicode_len() {
            proof {
                crate::scan::lemma_find_char_props(self.name@, 0, '"');
                assert(self.name@.contains('"')) by {
                    assert(self.name@[q as int] == '"');
                }
            }
            return false;
        }
        let q = crate::scan::find_char_from(self.notes.as_str(), 0, '"');
        if q < self.notes.as_str().unicode_len() {
            proof {
                crate::scan::lemma_find_char_props(self.notes@, 0, '"');
                assert(self.notes@.contains('"')) by {
                    assert(self.notes@[q as int] == '"');
                }
            }
            return false;
        }
        proof {
            crate::scan::lemma_find_char_props(self.name@, 0, '"');
            crate::scan::lemma_find_char_props(self.notes@, 0, '"');
            if self.name@.contains('"') {
                let i = choose|i: int| 0 <= i < self.name@.len() && self.name@[i] == '"';
            }
            if self.notes@.contains('"') {
                let i = choose|i: int| 0 <= i < self.notes@.len() && self.notes@[i] == '"';
            }
        }
        true
    }
}

} // verus!

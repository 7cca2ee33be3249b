//! A series: an immutable collection of paint records sharing a
//! `(manufacturer, series name)` identity, loaded from one document.

use vstd::prelude::*;

use crate::characteristics::Finish;
use crate::characteristics::Fluorescence;
use crate::characteristics::Metallic;
use crate::characteristics::ModelPaintCharacteristics;
use crate::characteristics::Transparency;
use crate::paint::PaintSpec;
use crate::paint::PaintSpecV;
use crate::paint::RGB16;
use crate::scan::str_eq;

verus! {

/// The unique key of a series: equality is by this pair only.
#[derive(Clone, Debug)]
pub struct SeriesIdentity {
    pub manufacturer: String,
    pub series_name: String,
}

/// The mathematical value of a `SeriesIdentity`.
pub ghost struct SeriesIdentityV {
    pub manufacturer: Seq<char>,
    pub series_name: Seq<char>,
}

impl View for SeriesIdentity {
    type V = SeriesIdentityV;

    open spec fn view(&self) -> SeriesIdentityV {
        SeriesIdentityV { manufacturer: self.manufacturer@, series_name: self.series_name@ }
    }
}

impl SeriesIdentity {
    /// Whether two identities are the same key.
    pub fn matches(&self, other: &SeriesIdentity) -> (r: bool)
        ensures
            r == (self@ == other@),
    {
        let r = self.manufacturer == other.manufacturer && self.series_name == other.series_name;
        proof {
            if self.manufacturer@ == other.manufacturer@ && self.series_name@
                == other.series_name@ {
                assert(self@ == other@);
            }
        }
        r
    }
}

/// The paint records of one series keyed by name, in insertion order.
#[derive(Clone, Debug)]
pub struct Series {
    identity: SeriesIdentity,
    paints: Vec<PaintSpec>,
}

/// The mathematical value of a `Series`.
pub ghost struct SeriesV {
    pub identity: SeriesIdentityV,
    pub paints: Seq<PaintSpecV>,
}

impl View for Series {
    type V = SeriesV;

    closed spec fn view(&self) -> SeriesV {
        SeriesV { identity: self.identity@, paints: self.paints@.map(|i: int, p: PaintSpec| p@) }
    }
}

/// Whether some record in `ps` carries `name`.
pub open spec fn has_paint_named(ps: Seq<PaintSpecV>, name: Seq<char>) -> bool {
    exists|i: int| 0 <= i < ps.len() && ps[i].name == name
}

impl SeriesV {
    /// Names are unique within a series.
    pub open spec fn wf(self) -> bool {
        forall|i: int, j: int|
            0 <= i < j < self.paints.len() ==> self.paints[i].name != self.paints[j].name
    }
}

impl Series {
    /// A series from its parts; the document parser guarantees the names
    /// are unique.
    pub(crate) fn from_parts(identity: SeriesIdentity, paints: Vec<PaintSpec>) -> (r: Series)
        ensures
            r@.identity == identity@,
            r@.paints == paints@.map(|i: int, p: PaintSpec| p@),
    {
        Series { identity, paints }
    }

    /// The series' `(manufacturer, series name)` key.
    pub fn identity(&self) -> (r: &SeriesIdentity)
        ensures
            r@ == self@.identity,
    {
        &self.identity
    }

    /// How many paints the series holds.
    pub fn len(&self) -> (r: usize)
        ensures
            r == self@.paints.len(),
    {
        self.paints.len()
    }

    /// The paint records, in insertion order.
    pub fn paints(&self) -> (r: &Vec<PaintSpec>)
        ensures
            r@.map(|i: int, p: PaintSpec| p@) == self@.paints,
    {
        &self.paints
    }

    /// The record at one position of the insertion order.
    pub fn paint_at(&self, i: usize) -> (r: &PaintSpec)
        requires
            i < self@.paints.len(),
        ensures
            r@ == self@.paints[i as int],
    {
        &self.paints[i]
    }

    /// Exact-name lookup, case-sensitive: the record named `name`, if the
    /// series holds one.
    pub fn get_paint(&self, name: &str) -> (r: Option<&PaintSpec>)
        ensures
            match r {
                Some(p) => {
                    &&& has_paint_named(self@.paints, name@)
                    &&& p@.name == name@
                    &&& exists|i: int| 0 <= i < self@.paints.len() && self@.paints[i] == p@
                },
                None => !has_paint_named(self@.paints, name@),
            },
    {
        let n = self.paints.len();
        let mut i: usize = 0;
        while i < n
            invariant
                n == self@.paints.len(),
                i <= n,
                self@.paints.len() == self.paints@.len(),
                forall|j: int| 0 <= j < i ==> #[trigger] self@.paints[j].name != name@,
            decreases n - i,
        {
            proof {
                assert(self@.paints[i as int] == self.paints@[i as int]@);
            }
            if str_eq(self.paints[i].name.as_str(), name) {
                return Some(&self.paints[i]);
            }
            i += 1;
        }
        proof {
            if has_paint_named(self@.paints, name@) {
                let j = choose|j: int|
                    0 <= j < self@.paints.len() && self@.paints[j].name == name@;
            }
        }
        None
    }
}

/// The built-in eight-colour reference series: the primary and secondary
/// colours, black and white, at full 16-bit channel values, all opaque and
/// gloss.
pub fn create_ideal_model_paint_series() -> (r: Series)
    ensures
        r@.identity.manufacturer == "Imaginary"@,
        r@.identity.series_name == "Ideal Paint Colours Series"@,
        r@.paints.len() == 8,
        r@.paints[0].name == "Black"@ && r@.paints[0].rgb == (RGB16 { red: 0, green: 0, blue: 0 }),
        r@.paints[1].name == "Blue"@ && r@.paints[1].rgb == (RGB16 {
            red: 0,
            green: 0,
            blue: 0xFFFF,
        }),
        r@.paints[2].name == "Cyan"@ && r@.paints[2].rgb == (RGB16 {
            red: 0,
            green: 0xFFFF,
            blue: 0xFFFF,
        }),
        r@.paints[3].name == "Green"@ && r@.paints[3].rgb == (RGB16 {
            red: 0,
            green: 0xFFFF,
            blue: 0,
        }),
        r@.paints[4].name == "Magenta"@ && r@.paints[4].rgb == (RGB16 {
            red: 0xFFFF,
            green: 0,
            blue: 0xFFFF,
        }),
        r@.paints[5].name == "Red"@ && r@.paints[5].rgb == (RGB16 {
            red: 0xFFFF,
            green: 0,
            blue: 0,
        }),
        r@.paints[6].name == "White"@ && r@.paints[6].rgb == (RGB16 {
            red: 0xFFFF,
            green: 0xFFFF,
            blue: 0xFFFF,
        }),
        r@.paints[7].name == "Yellow"@ && r@.paints[7].rgb == (RGB16 {
            red: 0xFFFF,
            green: 0xFFFF,
            blue: 0,
        }),
        forall|i: int|
            0 <= i < 8 ==> (#[trigger] r@.paints[i]).characteristics
                == (ModelPaintCharacteristics {
                finish: Finish::Gloss,
                transparency: Transparency::Opaque,
                fluorescence: Fluorescence::Nonfluorescent,
                metallic: Metallic::Nonmetallic,
            }) && r@.paints[i].notes.len() == 0,
        r@.wf(),
{
    let identity = SeriesIdentity {
        manufacturer: String::from_str("Imaginary"),
        series_name: String::from_str("Ideal Paint Colours Series"),
    };
    let mut paints: Vec<PaintSpec> = Vec::new();
    paints.push(ideal_paint("Black", 0, 0, 0));
    paints.push(ideal_paint("Blue", 0, 0, 0xFFFF));
    paints.push(ideal_paint("Cyan", 0, 0xFFFF, 0xFFFF));
    paints.push(ideal_paint("Green", 0, 0xFFFF, 0));
    paints.push(ideal_paint("Magenta", 0xFFFF, 0, 0xFFFF));
    paints.push(ideal_paint("Red", 0xFFFF, 0, 0));
    paints.push(ideal_paint("White", 0xFFFF, 0xFFFF, 0xFFFF));
    paints.push(ideal_paint("Yellow", 0xFFFF, 0xFFFF, 0));
    let series = Series::from_parts(identity, paints);
    proof {
        reveal_strlit("Black");
        reveal_strlit("Blue");
        reveal_strlit("Cyan");
        reveal_strlit("Green");
        reveal_strlit("Magenta");
        reveal_strlit("Red");
        reveal_strlit("White");
        reveal_strlit("Yellow");
        assert("Black"@[0] == 'B' && "Blue"@[0] == 'B' && "Cyan"@[0] == 'C' && "Green"@[0] == 'G'
            && "Magenta"@[0] == 'M' && "Red"@[0] == 'R' && "White"@[0] == 'W' && "Yellow"@[0]
            == 'Y');
        assert(series@.wf()) by {
            assert forall|i: int, j: int|
                0 <= i < j < series@.paints.len() implies series@.paints[i].name
                != series@.paints[j].name by {
                let ni = series@.paints[i].name;
                let nj = series@.paints[j].name;
                if i == 0 {
                    assert(ni == "Black"@);
                } else if i == 1 {
                    assert(ni == "Blue"@);
                } else if i == 2 {
                    assert(ni == "Cyan"@);
                } else if i == 3 {
                    assert(ni == "Green"@);
                } else if i == 4 {
                    assert(ni == "Magenta"@);
                } else if i == 5 {
                    assert(ni == "Red"@);
                } else if i == 6 {
                    assert(ni == "White"@);
                } else {
                    assert(ni == "Yellow"@);
                }
                if j == 1 {
                    assert(nj == "Blue"@);
                } else if j == 2 {
                    assert(nj == "Cyan"@);
                } else if j == 3 {
                    assert(nj == "Green"@);
                } else if j == 4 {
                    assert(nj == "Magenta"@);
                } else if j == 5 {
                    assert(nj == "Red"@);
                } else if j == 6 {
                    assert(nj == "White"@);
                } else {
                    assert(nj == "Yellow"@);
                }
            }
        }
    }
    series
}

/// One reference paint: opaque, gloss, nonfluorescent, nonmetallic, no
/// notes.
fn ideal_paint(name: &str, red: u16, green: u16, blue: u16) -> (r: PaintSpec)
    ensures
        r@.name == name@,
        r@.rgb == (RGB16 { red, green, blue }),
        r@.characteristics == (ModelPaintCharacteristics {
            finish: Finish::Gloss,
            transparency: Transparency::Opaque,
            fluorescence: Fluorescence::Nonfluorescent,
            metallic: Metallic::Nonmetallic,
        }),
        r@.notes.len() == 0,
{
    PaintSpec {
        name: String::from_str(name),
        rgb: RGB16 { red, green, blue },
        characteristics: ModelPaintCharacteristics {
            finish: Finish::Gloss,
            transparency: Transparency::Opaque,
            fluorescence: Fluorescence::Nonfluorescent,
            metallic: Metallic::Nonmetallic,
        },
        notes: String::new(),
    }
}

} // verus!

//! The characteristic codec: the four categorical physical attributes of a
//! paint, each with a stable textual abbreviation, a human-readable
//! description, and a numeric position used when an external mixer
//! interpolates between paints.

use vstd::prelude::*;

use crate::error::ParseError;
use crate::scan::str_eq;

verus! {

/// A paint's surface finish.
#[derive(Clone, Copy, Debug, PartialEq, Eq, Structural)]
pub enum Finish {
    Gloss,
    Satin,
    Flat,
}

/// How much light a paint lets through.
#[derive(Clone, Copy, Debug, PartialEq, Eq, Structural)]
pub enum Transparency {
    Opaque,
    SemiOpaque,
    SemiTransparent,
    Transparent,
}

/// Whether a paint fluoresces.
#[derive(Clone, Copy, Debug, PartialEq, Eq, Structural)]
pub enum Fluorescence {
    Nonfluorescent,
    Fluorescent,
}

/// Whether a paint has a metallic sheen.
#[derive(Clone, Copy, Debug, PartialEq, Eq, Structural)]
pub enum Metallic {
    Nonmetallic,
    Metallic,
}

impl Finish {
    /// The variant's numeric position, ordered so that interpolation between
    /// adjacent variants is meaningful.
    pub open spec fn position_spec(self) -> int {
        match self {
            Finish::Gloss => 0,
            Finish::Satin => 1,
            Finish::Flat => 2,
        }
    }

    /// The variant nearest to a numeric position.
    pub open spec fn from_position_spec(pos: int) -> Finish {
        if pos <= 0 {
            Finish::Gloss
        } else if pos == 1 {
            Finish::Satin
        } else {
            Finish::Flat
        }
    }

    pub fn to_position(&self) -> (r: usize)
        ensures
            r == self.position_spec(),
    {
        match self {
            Finish::Gloss => 0,
            Finish::Satin => 1,
            Finish::Flat => 2,
        }
    }

    pub fn from_position(pos: usize) -> (r: Finish)
        ensures
            r == Finish::from_position_spec(pos as int),
    {
        if pos == 0 {
            Finish::Gloss
        } else if pos == 1 {
            Finish::Satin
        } else {
            Finish::Flat
        }
    }

    pub open spec fn abbrev_spec(self) -> Seq<char> {
        match self {
            Finish::Gloss => "G"@,
            Finish::Satin => "S"@,
            Finish::Flat => "F"@,
        }
    }

    /// The short, stable token used in record text and table cells.
    pub fn abbreviation(&self) -> (r: &'static str)
        ensures
            r@ == self.abbrev_spec(),
    {
        match self {
            Finish::Gloss => "G",
            Finish::Satin => "S",
            Finish::Flat => "F",
        }
    }

    pub open spec fn description_spec(self) -> Seq<char> {
        match self {
            Finish::Gloss => "gloss"@,
            Finish::Satin => "satin"@,
            Finish::Flat => "flat"@,
        }
    }

    /// The long, human-readable description.
    pub fn description(&self) -> (r: &'static str)
        ensures
            r@ == self.description_spec(),
    {
        match self {
            Finish::Gloss => "gloss",
            Finish::Satin => "satin",
            Finish::Flat => "flat",
        }
    }

    /// The variant whose abbreviation or name is `t`, if any.
    pub open spec fn from_token_spec(t: Seq<char>) -> Option<Finish> {
        if t == "G"@ || t == "Gloss"@ {
            Some(Finish::Gloss)
        } else if t == "S"@ || t == "Satin"@ {
            Some(Finish::Satin)
        } else if t == "F"@ || t == "Flat"@ {
            Some(Finish::Flat)
        } else {
            None
        }
    }

    /// Matches a textual token against the category's token set.
    pub fn parse(text: &str) -> (r: Result<Finish, ParseError>)
        ensures
            r == match Finish::from_token_spec(text@) {
                Some(f) => Ok::<Finish, ParseError>(f),
                None => Err::<Finish, ParseError>(ParseError::UnknownVariant),
            },
    {
        if str_eq(text, "G") || str_eq(text, "Gloss") {
            Ok(Finish::Gloss)
        } else if str_eq(text, "S") || str_eq(text, "Satin") {
            Ok(Finish::Satin)
        } else if str_eq(text, "F") || str_eq(text, "Flat") {
            Ok(Finish::Flat)
        } else {
            Err(ParseError::UnknownVariant)
        }
    }
}

impl Transparency {
    pub open spec fn position_spec(self) -> int {
        match self {
            Transparency::Opaque => 0,
            Transparency::SemiOpaque => 1,
            Transparency::SemiTransparent => 2,
            Transparency::Transparent => 3,
        }
    }

    pub open spec fn from_position_spec(pos: int) -> Transparency {
        if pos <= 0 {
            Transparency::Opaque
        } else if pos == 1 {
            Transparency::SemiOpaque
        } else if pos == 2 {
            Transparency::SemiTransparent
        } else {
            Transparency::Transparent
        }
    }

    pub fn to_position(&self) -> (r: usize)
        ensures
            r == self.position_spec(),
    {
        match self {
            Transparency::Opaque => 0,
            Transparency::SemiOpaque => 1,
            Transparency::SemiTransparent => 2,
            Transparency::Transparent => 3,
        }
    }

    pub fn from_position(pos: usize) -> (r: Transparency)
        ensures
            r == Transparency::from_position_spec(pos as int),
    {
        if pos == 0 {
            Transparency::Opaque
        } else if pos == 1 {
            Transparency::SemiOpaque
        } else if pos == 2 {
            Transparency::SemiTransparent
        } else {
            Transparency::Transparent
        }
    }

    pub open spec fn abbrev_spec(self) -> Seq<char> {
        match self {
            Transparency::Opaque => "O"@,
            Transparency::SemiOpaque => "SO"@,
            Transparency::SemiTransparent => "ST"@,
            Transparency::Transparent => "T"@,
        }
    }

    pub fn abbreviation(&self) -> (r: &'static str)
        ensures
            r@ == self.abbrev_spec(),
    {
        match self {
            Transparency::Opaque => "O",
            Transparency::SemiOpaque => "SO",
            Transparency::SemiTransparent => "ST",
            Transparency::Transparent => "T",
        }
    }

    pub open spec fn description_spec(self) -> Seq<char> {
        match self {
            Transparency::Opaque => "opaque"@,
            Transparency::SemiOpaque => "semi-opaque"@,
            Transparency::SemiTransparent => "semi-transparent"@,
            Transparency::Transparent => "transparent"@,
        }
    }

    /// The long, human-readable description.
    pub fn description(&self) -> (r: &'static str)
        ensures
            r@ == self.description_spec(),
    {
        match self {
            Transparency::Opaque => "opaque",
            Transparency::SemiOpaque => "semi-opaque",
            Transparency::SemiTransparent => "semi-transparent",
            Transparency::Transparent => "transparent",
        }
    }

    pub open spec fn from_token_spec(t: Seq<char>) -> Option<Transparency> {
        if t == "O"@ || t == "Opaque"@ {
            Some(Transparency::Opaque)
        } else if t == "SO"@ || t == "SemiOpaque"@ {
            Some(Transparency::SemiOpaque)
        } else if t == "ST"@ || t == "SemiTransparent"@ {
            Some(Transparency::SemiTransparent)
        } else if t == "T"@ || t == "Transparent"@ {
            Some(Transparency::Transparent)
        } else {
            None
        }
    }

    pub fn parse(text: &str) -> (r: Result<Transparency, ParseError>)
        ensures
            r == match Transparency::from_token_spec(text@) {
                Some(t) => Ok::<Transparency, ParseError>(t),
                None => Err::<Transparency, ParseError>(ParseError::UnknownVariant),
            },
    {
        if str_eq(text, "O") || str_eq(text, "Opaque") {
            Ok(Transparency::Opaque)
        } else if str_eq(text, "SO") || str_eq(text, "SemiOpaque") {
            Ok(Transparency::SemiOpaque)
        } else if str_eq(text, "ST") || str_eq(text, "SemiTransparent") {
            Ok(Transparency::SemiTransparent)
        } else if str_eq(text, "T") || str_eq(text, "Transparent") {
            Ok(Transparency::Transparent)
        } else {
            Err(ParseError::UnknownVariant)
        }
    }
}

impl Fluorescence {
    pub open spec fn position_spec(self) -> int {
        match self {
            Fluorescence::Nonfluorescent => 0,
            Fluorescence::Fluorescent => 1,
        }
    }

    pub open spec fn from_position_spec(pos: int) -> Fluorescence {
        if pos <= 0 {
            Fluorescence::Nonfluorescent
        } else {
            Fluorescence::Fluorescent
        }
    }

    pub fn to_position(&self) -> (r: usize)
        ensures
            r == self.position_spec(),
    {
        match self {
            Fluorescence::Nonfluorescent => 0,
            Fluorescence::Fluorescent => 1,
        }
    }

    pub fn from_position(pos: usize) -> (r: Fluorescence)
        ensures
            r == Fluorescence::from_position_spec(pos as int),
    {
        if pos == 0 {
            Fluorescence::Nonfluorescent
        } else {
            Fluorescence::Fluorescent
        }
    }

    pub open spec fn abbrev_spec(self) -> Seq<char> {
        match self {
            Fluorescence::Nonfluorescent => "NF"@,
            Fluorescence::Fluorescent => "Fl"@,
        }
    }

    pub fn abbreviation(&self) -> (r: &'static str)
        ensures
            r@ == self.abbrev_spec(),
    {
        match self {
            Fluorescence::Nonfluorescent => "NF",
            Fluorescence::Fluorescent => "Fl",
        }
    }

    pub open spec fn description_spec(self) -> Seq<char> {
        match self {
            Fluorescence::Nonfluorescent => "nonfluorescent"@,
            Fluorescence::Fluorescent => "fluorescent"@,
        }
    }

    /// The long, human-readable description.
    pub fn description(&self) -> (r: &'static str)
        ensures
            r@ == self.description_spec(),
    {
        match self {
            Fluorescence::Nonfluorescent => "nonfluorescent",
            Fluorescence::Fluorescent => "fluorescent",
        }
    }

    pub open spec fn from_token_spec(t: Seq<char>) -> Option<Fluorescence> {
        if t == "NF"@ || t == "Nonfluorescent"@ {
            Some(Fluorescence::Nonfluorescent)
        } else if t == "Fl"@ || t == "Fluorescent"@ {
            Some(Fluorescence::Fluorescent)
        } else {
            None
        }
    }

    pub fn parse(text: &str) -> (r: Result<Fluorescence, ParseError>)
        ensures
            r == match Fluorescence::from_token_spec(text@) {
                Some(f) => Ok::<Fluorescence, ParseError>(f),
                None => Err::<Fluorescence, ParseError>(ParseError::UnknownVariant),
            },
    {
        if str_eq(text, "NF") || str_eq(text, "Nonfluorescent") {
            Ok(Fluorescence::Nonfluorescent)
        } else if str_eq(text, "Fl") || str_eq(text, "Fluorescent") {
            Ok(Fluorescence::Fluorescent)
        } else {
            Err(ParseError::UnknownVariant)
        }
    }
}

impl Metallic {
    pub open spec fn position_spec(self) -> int {
        match self {
            Metallic::Nonmetallic => 0,
            Metallic::Metallic => 1,
        }
    }

    pub open spec fn from_position_spec(pos: int) -> Metallic {
        if pos <= 0 {
            Metallic::Nonmetallic
        } else {
            Metallic::Metallic
        }
    }

    pub fn to_position(&self) -> (r: usize)
        ensures
            r == self.position_spec(),
    {
        match self {
            Metallic::Nonmetallic => 0,
            Metallic::Metallic => 1,
        }
    }

    pub fn from_position(pos: usize) -> (r: Metallic)
        ensures
            r == Metallic::from_position_spec(pos as int),
    {
        if pos == 0 {
            Metallic::Nonmetallic
        } else {
            Metallic::Metallic
        }
    }

    pub open spec fn abbrev_spec(self) -> Seq<char> {
        match self {
            Metallic::Nonmetallic => "NM"@,
            Metallic::Metallic => "M"@,
        }
    }

    pub fn abbreviation(&self) -> (r: &'static str)
        ensures
            r@ == self.abbrev_spec(),
    {
        match self {
            Metallic::Nonmetallic => "NM",
            Metallic::Metallic => "M",
        }
    }

    pub open spec fn description_spec(self) -> Seq<char> {
        match self {
            Metallic::Nonmetallic => "nonmetallic"@,
            Metallic::Metallic => "metallic"@,
        }
    }

    /// The long, human-readable description.
    pub fn description(&self) -> (r: &'static str)
        ensures
            r@ == self.description_spec(),
    {
        match self {
            Metallic::Nonmetallic => "nonmetallic",
            Metallic::Metallic => "metallic",
        }
    }

    pub open spec fn from_token_spec(t: Seq<char>) -> Option<Metallic> {
        if t == "NM"@ || t == "Nonmetallic"@ {
            Some(Metallic::Nonmetallic)
        } else if t == "M"@ || t == "Metallic"@ {
            Some(Metallic::Metallic)
        } else {
            None
        }
    }

    pub fn parse(text: &str) -> (r: Result<Metallic, ParseError>)
        ensures
            r == match Metallic::from_token_spec(text@) {
                Some(m) => Ok::<Metallic, ParseError>(m),
                None => Err::<Metallic, ParseError>(ParseError::UnknownVariant),
            },
    {
        if str_eq(text, "NM") || str_eq(text, "Nonmetallic") {
            Ok(Metallic::Nonmetallic)
        } else if str_eq(text, "M") || str_eq(text, "Metallic") {
            Ok(Metallic::Metallic)
        } else {
            Err(ParseError::UnknownVariant)
        }
    }
}

/// One value per characteristic category, all present once decoded.
#[derive(Clone, Copy, Debug, PartialEq, Eq, Structural)]
pub struct ModelPaintCharacteristics {
    pub finish: Finish,
    pub transparency: Transparency,
    pub fluorescence: Fluorescence,
    pub metallic: Metallic,
}

impl ModelPaintCharacteristics {
    /// The value a legacy record decodes to: fluorescence and metallicness
    /// default to their "non-" variants.
    pub open spec fn with_legacy_defaults(finish: Finish, transparency: Transparency) -> Self {
        ModelPaintCharacteristics {
            finish,
            transparency,
            fluorescence: Fluorescence::Nonfluorescent,
            metallic: Metallic::Nonmetallic,
        }
    }

    /// The numeric positions of the four categories, in the fixed order
    /// finish, transparency, fluorescence, metallicness.
    pub fn to_positions(&self) -> (r: Vec<usize>)
        ensures
            r@.len() == 4,
            r@[0] == self.finish.position_spec(),
            r@[1] == self.transparency.position_spec(),
            r@[2] == self.fluorescence.position_spec(),
            r@[3] == self.metallic.position_spec(),
    {
        let mut v: Vec<usize> = Vec::new();
        v.push(self.finish.to_position());
        v.push(self.transparency.to_position());
        v.push(self.fluorescence.to_position());
        v.push(self.metallic.to_position());
        v
    }

    /// Decodes four numeric positions, each to the nearest variant of its
    /// category, in the same fixed order as `to_positions`.
    pub fn from_positions(positions: &Vec<usize>) -> (r: Self)
        requires
            positions@.len() >= 4,
        ensures
            r.finish == Finish::from_position_spec(positions@[0] as int),
            r.transparency == Transparency::from_position_spec(positions@[1] as int),
            r.fluorescence == Fluorescence::from_position_spec(positions@[2] as int),
            r.metallic == Metallic::from_position_spec(positions@[3] as int),
    {
        ModelPaintCharacteristics {
            finish: Finish::from_position(positions[0]),
            transparency: Transparency::from_position(positions[1]),
            fluorescence: Fluorescence::from_position(positions[2]),
            metallic: Metallic::from_position(positions[3]),
        }
    }
}

/// A finish's abbreviation is a non-empty, quote-free token that decodes
/// back to the same variant.
pub proof fn lemma_finish_token_round_trip(v: Finish)
    ensures
        Finish::from_token_spec(v.abbrev_spec()) == Some(v),
        v.abbrev_spec().len() > 0,
        !v.abbrev_spec().contains('"'),
{
    reveal_strlit("G");
    reveal_strlit("Gloss");
    reveal_strlit("S");
    reveal_strlit("Satin");
    reveal_strlit("F");
    reveal_strlit("Flat");
    assert("G"@[0] == 'G' && "S"@[0] == 'S' && "F"@[0] == 'F');
    match v {
        Finish::Gloss => {
            assert(v.abbrev_spec() == "G"@);
        },
        Finish::Satin => {
            assert(v.abbrev_spec() == "S"@);
        },
        Finish::Flat => {
            assert(v.abbrev_spec() == "F"@);
        },
    }
}

/// A transparency's abbreviation is a non-empty, quote-free token that
/// decodes back to the same variant.
pub proof fn lemma_transparency_token_round_trip(v: Transparency)
    ensures
        Transparency::from_token_spec(v.abbrev_spec()) == Some(v),
        v.abbrev_spec().len() > 0,
        !v.abbrev_spec().contains('"'),
{
    reveal_strlit("O");
    reveal_strlit("Opaque");
    reveal_strlit("SO");
    reveal_strlit("SemiOpaque");
    reveal_strlit("ST");
    reveal_strlit("SemiTransparent");
    reveal_strlit("T");
    reveal_strlit("Transparent");
    assert("O"@[0] == 'O' && "T"@[0] == 'T' && "SO"@[1] == 'O' && "ST"@[1] == 'T');
    match v {
        Transparency::Opaque => {
            assert(v.abbrev_spec() == "O"@);
        },
        Transparency::SemiOpaque => {
            assert(v.abbrev_spec() == "SO"@);
        },
        Transparency::SemiTransparent => {
            assert(v.abbrev_spec() == "ST"@);
        },
        Transparency::Transparent => {
            assert(v.abbrev_spec() == "T"@);
        },
    }
}

/// A fluorescence's abbreviation is a non-empty, quote-free token that
/// decodes back to the same variant.
pub proof fn lemma_fluorescence_token_round_trip(v: Fluorescence)
    ensures
        Fluorescence::from_token_spec(v.abbrev_spec()) == Some(v),
        v.abbrev_spec().len() > 0,
        !v.abbrev_spec().contains('"'),
{
    reveal_strlit("NF");
    reveal_strlit("Nonfluorescent");
    reveal_strlit("Fl");
    reveal_strlit("Fluorescent");
    assert("NF"@[0] == 'N' && "Fl"@[0] == 'F');
    match v {
        Fluorescence::Nonfluorescent => {
            assert(v.abbrev_spec() == "NF"@);
        },
        Fluorescence::Fluorescent => {
            assert(v.abbrev_spec() == "Fl"@);
        },
    }
}

/// A metallicness's abbreviation is a non-empty, quote-free token that
/// decodes back to the same variant.
pub proof fn lemma_metallic_token_round_trip(v: Metallic)
    ensures
        Metallic::from_token_spec(v.abbrev_spec()) == Some(v),
        v.abbrev_spec().len() > 0,
        !v.abbrev_spec().contains('"'),
{
    reveal_strlit("NM");
    reveal_strlit("Nonmetallic");
    reveal_strlit("M");
    reveal_strlit("Metallic");
    assert("NM"@[0] == 'N' && "M"@[0] == 'M');
    match v {
        Metallic::Nonmetallic => {
            assert(v.abbrev_spec() == "NM"@);
        },
        Metallic::Metallic => {
            assert(v.abbrev_spec() == "M"@);
        },
    }
}

/// Encoding a finish to its numeric position and decoding again is exact.
pub proof fn lemma_finish_position_round_trip(v: Finish)
    ensures
        Finish::from_position_spec(v.position_spec()) == v,
{
}

/// Encoding a transparency to its numeric position and decoding again is exact.
pub proof fn lemma_transparency_position_round_trip(v: Transparency)
    ensures
        Transparency::from_position_spec(v.position_spec()) == v,
{
}

/// Encoding a fluorescence to its numeric position and decoding again is exact.
pub proof fn lemma_fluorescence_position_round_trip(v: Fluorescence)
    ensures
        Fluorescence::from_position_spec(v.position_spec()) == v,
{
}

/// Encoding a metallicness to its numeric position and decoding again is exact.
pub proof fn lemma_metallic_position_round_trip(v: Metallic)
    ensures
        Metallic::from_position_spec(v.position_spec()) == v,
{
}

} // verus!

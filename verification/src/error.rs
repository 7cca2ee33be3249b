//! Error values reported by the characteristic codec and the record parser.

use vstd::prelude::*;

verus! {

/// The field of a paint record at which parsing failed.
#[derive(Clone, Copy, Debug, PartialEq, Eq, Structural)]
pub enum RecordField {
    /// The record tag (`ModelPaint(` or `NamedColour(`).
    Tag,
    /// The quoted `name=` field.
    Name,
    /// The `rgb=` field, in either its named or its bare-tuple form.
    Rgb,
    /// The quoted `transparency=` field.
    Transparency,
    /// The quoted `finish=` field.
    Finish,
    /// The quoted, optional `metallic=` field.
    Metallic,
    /// The quoted, optional `fluorescence=` field.
    Fluorescence,
    /// The quoted, optional `notes=` field.
    Notes,
    /// The closing parenthesis, which must end the record line.
    Close,
}

/// Why a paint document or record was rejected.
#[derive(Clone, Copy, Debug, PartialEq, Eq, Structural)]
pub enum ParseError {
    /// A characteristic token matched no variant of its category.
    UnknownVariant,
    /// A record line could not be parsed; `line` is 1-based.
    MalformedRecord { line: usize, field: RecordField },
    /// A document's `Manufacturer:` or `Series:` header line is absent or malformed.
    MissingHeader,
    /// Two records of one document share a name; `line` is the 1-based line
    /// of the second occurrence.
    DuplicatePaintName { line: usize },
}

impl RecordField {
    /// The field's name as it appears in record text.
    pub fn name(&self) -> (r: &'static str)
        ensures
            r@ == self.name_spec(),
    {
        match self {
            RecordField::Tag => "tag",
            RecordField::Name => "name",
            RecordField::Rgb => "rgb",
            RecordField::Transparency => "transparency",
            RecordField::Finish => "finish",
            RecordField::Metallic => "metallic",
            RecordField::Fluorescence => "fluorescence",
            RecordField::Notes => "notes",
            RecordField::Close => "close",
        }
    }

    pub open spec fn name_spec(self) -> Seq<char> {
        match self {
            RecordField::Tag => "tag"@,
            RecordField::Name => "name"@,
            RecordField::Rgb => "rgb"@,
            RecordField::Transparency => "transparency"@,
            RecordField::Finish => "finish"@,
            RecordField::Metallic => "metallic"@,
            RecordField::Fluorescence => "fluorescence"@,
            RecordField::Notes => "notes"@,
            RecordField::Close => "close"@,
        }
    }
}

} // verus!

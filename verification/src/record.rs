//! The textual paint record grammar: parsing one record line, in the
//! current shape or the legacy shape, and serializing a record back to the
//! current shape.
//!
//! A current-shape record reads
//!
//! ```text
//! ModelPaint(name="<name>", rgb=RGB16(red=0x<hex>, green=0x<hex>, blue=0x<hex>),
//!   transparency="<token>", finish="<token>", metallic="<token>",
//!   fluorescence="<token>", notes="<text>")
//! ```
//!
//! A legacy-shape record uses the alternate `NamedColour` tag, a bare-tuple
//! RGB form such as `RGB(0x2D00, 0x2B00, 0x3000)`, and omits the `metallic`,
//! `fluorescence` and `notes` fields, which default.  One entry point
//! accepts both shapes; shape detection is by presence or absence of the
//! optional fields, not by a separate flag.

use vstd::prelude::*;

use crate::characteristics::Finish;
use crate::characteristics::Fluorescence;
use crate::characteristics::Metallic;
use crate::characteristics::ModelPaintCharacteristics;
use crate::characteristics::Transparency;
use crate::error::ParseError;
use crate::error::RecordField;
use crate::paint::PaintSpec;
use crate::paint::PaintSpecV;
use crate::paint::RGB16;
use crate::scan::find_char;
use crate::scan::find_char_from;
use crate::scan::lemma_find_char_props;
use crate::scan::lit_at;
use crate::scan::matches_at;

verus! {

// ------------------------------------------------------------------
// Quoted strings
// ------------------------------------------------------------------

/// `t` wrapped in the format's double-quote delimiters.
pub open spec fn quoted_seq(t: Seq<char>) -> Seq<char> {
    seq!['"'] + t + seq!['"']
}

/// A quoted string starting at `pos`: an opening quote, every character up
/// to the next quote, and that closing quote.  Yields the content and the
/// position after the closing quote; fails if `pos` holds no quote or the
/// quote is unmatched.
pub open spec fn parse_quoted_spec(s: Seq<char>, pos: int) -> Option<(Seq<char>, int)> {
    if 0 <= pos < s.len() && s[pos] == '"' {
        let j = find_char(s, pos + 1, '"');
        if j < s.len() {
            Some((s.subrange(pos + 1, j), j + 1))
        } else {
            None
        }
    } else {
        None
    }
}

fn parse_quoted(s: &str, pos: usize) -> (r: Option<(String, usize)>)
    requires
        pos <= s@.len(),
    ensures
        match r {
            Some(tp) => {
                &&& parse_quoted_spec(s@, pos as int) == Some((tp.0@, tp.1 as int))
                &&& tp.1 <= s@.len()
            },
            None => parse_quoted_spec(s@, pos as int) is None,
        },
{
    let slen = s.unicode_len();
    if pos >= slen {
        return None;
    }
    if s.get_char(pos) != '"' {
        return None;
    }
    let j = find_char_from(s, pos + 1, '"');
    if j >= slen {
        return None;
    }
    let t = String::from_str(s.substring_char(pos + 1, j));
    Some((t, j + 1))
}

// ------------------------------------------------------------------
// Hexadecimal channel values
// ------------------------------------------------------------------

/// The value of a hexadecimal digit, or 16 for any other character.
pub open spec fn hex_digit_val(c: char) -> int {
    if c == '0' {
        0
    } else if c == '1' {
        1
    } else if c == '2' {
        2
    } else if c == '3' {
        3
    } else if c == '4' {
        4
    } else if c == '5' {
        5
    } else if c == '6' {
        6
    } else if c == '7' {
        7
    } else if c == '8' {
        8
    } else if c == '9' {
        9
    } else if c == 'A' || c == 'a' {
        10
    } else if c == 'B' || c == 'b' {
        11
    } else if c == 'C' || c == 'c' {
        12
    } else if c == 'D' || c == 'd' {
        13
    } else if c == 'E' || c == 'e' {
        14
    } else if c == 'F' || c == 'f' {
        15
    } else {
        16
    }
}

pub open spec fn is_hex_digit(c: char) -> bool {
    hex_digit_val(c) < 16
}

/// How many consecutive hexadecimal digits stand at `pos`.
pub open spec fn hex_run_len(s: Seq<char>, pos: int) -> int
    decreases s.len() - pos,
{
    if pos < 0 || pos >= s.len() || !is_hex_digit(s[pos]) {
        0
    } else {
        1 + hex_run_len(s, pos + 1)
    }
}

/// The value of the `n` hexadecimal digits at `pos`, most significant first.
pub open spec fn hex_value(s: Seq<char>, pos: int, n: int) -> int
    decreases n,
{
    if n <= 0 {
        0
    } else {
        hex_value(s, pos, n - 1) * 16 + hex_digit_val(s[pos + n - 1])
    }
}

/// A channel value: one to four hexadecimal digits (so it fits 16 bits).
pub open spec fn parse_hex_spec(s: Seq<char>, pos: int) -> Option<(int, int)> {
    let n = hex_run_len(s, pos);
    if 1 <= n <= 4 {
        Some((hex_value(s, pos, n), pos + n))
    } else {
        None
    }
}

proof fn lemma_hex_value_bound(s: Seq<char>, pos: int, n: int)
    requires
        0 <= n <= 4,
        forall|j: int| 0 <= j < n ==> is_hex_digit(#[trigger] s[pos + j]),
    ensures
        0 <= hex_value(s, pos, n) < 65536,
        n < 4 ==> hex_value(s, pos, n) < 4096,
        n < 3 ==> hex_value(s, pos, n) < 256,
        n < 2 ==> hex_value(s, pos, n) < 16,
    decreases n,
{
    if n > 0 {
        lemma_hex_value_bound(s, pos, n - 1);
        assert(is_hex_digit(s[pos + n - 1]));
    }
}

fn hex_digit_val_exec(c: char) -> (r: u32)
    ensures
        r == hex_digit_val(c),
{
    if c == '0' {
        0
    } else if c == '1' {
        1
    } else if c == '2' {
        2
    } else if c == '3' {
        3
    } else if c == '4' {
        4
    } else if c == '5' {
        5
    } else if c == '6' {
        6
    } else if c == '7' {
        7
    } else if c == '8' {
        8
    } else if c == '9' {
        9
    } else if c == 'A' || c == 'a' {
        10
    } else if c == 'B' || c == 'b' {
        11
    } else if c == 'C' || c == 'c' {
        12
    } else if c == 'D' || c == 'd' {
        13
    } else if c == 'E' || c == 'e' {
        14
    } else if c == 'F' || c == 'f' {
        15
    } else {
        16
    }
}

proof fn lemma_hex_run_nonneg(s: Seq<char>, pos: int)
    ensures
        hex_run_len(s, pos) >= 0,
    decreases s.len() - pos,
{
    if 0 <= pos < s.len() && is_hex_digit(s[pos]) {
        lemma_hex_run_nonneg(s, pos + 1);
    }
}

fn parse_hex(s: &str, pos: usize) -> (r: Option<(u16, usize)>)
    requires
        pos <= s@.len(),
    ensures
        match r {
            Some(vp) => {
                &&& parse_hex_spec(s@, pos as int) == Some((vp.0 as int, vp.1 as int))
                &&& vp.1 <= s@.len()
            },
            None => parse_hex_spec(s@, pos as int) is None,
        },
{
    let slen = s.unicode_len();
    let rem = slen - pos;
    let mut n: usize = 0;
    let mut acc: u32 = 0;
    while n < 5 && n < rem && hex_digit_val_exec(s.get_char(pos + n)) < 16
        invariant
            pos <= slen,
            slen == s@.len(),
            rem == slen - pos,
            n <= 5,
            n <= rem,
            forall|j: int| 0 <= j < n ==> is_hex_digit(#[trigger] s@[pos + j]),
            hex_run_len(s@, pos as int) == n + hex_run_len(s@, pos + n),
            acc == hex_value(s@, pos as int, n as int),
        decreases 5 - n,
    {
        proof {
            lemma_hex_value_bound(s@, pos as int, n as int);
        }
        let c = s.get_char(pos + n);
        let d = hex_digit_val_exec(c);
        acc = acc * 16 + d;
        n += 1;
    }
    proof {
        lemma_hex_run_nonneg(s@, pos + n);
        if n < 5 {
            assert(hex_run_len(s@, pos + n) == 0);
        }
    }
    if n == 0 || n >= 5 {
        return None;
    }
    proof {
        lemma_hex_value_bound(s@, pos as int, n as int);
    }
    Some((acc as u16, pos + n))
}

// ------------------------------------------------------------------
// RGB values
// ------------------------------------------------------------------

/// The three channel values after an `RGB16(` or `RGB(` marker: either the
/// named form `red=0x.., green=0x.., blue=0x..` of the current shape or the
/// bare-tuple form `0x.., 0x.., 0x..` of the legacy shape.
pub open spec fn parse_rgb_body_spec(s: Seq<char>, pos: int) -> Option<(RGB16, int)> {
    if lit_at(s, pos, "red=0x"@) {
        match parse_hex_spec(s, pos + "red=0x"@.len()) {
            None => None,
            Some((red, p1)) => if lit_at(s, p1, ", green=0x"@) {
                match parse_hex_spec(s, p1 + ", green=0x"@.len()) {
                    None => None,
                    Some((green, p2)) => if lit_at(s, p2, ", blue=0x"@) {
                        match parse_hex_spec(s, p2 + ", blue=0x"@.len()) {
                            None => None,
                            Some((blue, p3)) => if lit_at(s, p3, ")"@) {
                                Some(
                                    (
                                        RGB16 {
                                            red: red as u16,
                                            green: green as u16,
                                            blue: blue as u16,
                                        },
                                        p3 + 1,
                                    ),
                                )
                            } else {
                                None
                            },
                        }
                    } else {
                        None
                    },
                }
            } else {
                None
            },
        }
    } else if lit_at(s, pos, "0x"@) {
        match parse_hex_spec(s, pos + "0x"@.len()) {
            None => None,
            Some((red, p1)) => if lit_at(s, p1, ", 0x"@) {
                match parse_hex_spec(s, p1 + ", 0x"@.len()) {
                    None => None,
                    Some((green, p2)) => if lit_at(s, p2, ", 0x"@) {
                        match parse_hex_spec(s, p2 + ", 0x"@.len()) {
                            None => None,
                            Some((blue, p3)) => if lit_at(s, p3, ")"@) {
                                Some(
                                    (
                                        RGB16 {
                                            red: red as u16,
                                            green: green as u16,
                                            blue: blue as u16,
                                        },
                                        p3 + 1,
                                    ),
                                )
                            } else {
                                None
                            },
                        }
                    } else {
                        None
                    },
                }
            } else {
                None
            },
        }
    } else {
        None
    }
}

/// An RGB value: a marker distinguishing the current encoding (`RGB16`)
/// from the legacy one (`RGB`), then the three channels.
pub open spec fn parse_rgb_spec(s: Seq<char>, pos: int) -> Option<(RGB16, int)> {
    if lit_at(s, pos, "RGB16("@) {
        parse_rgb_body_spec(s, pos + "RGB16("@.len())
    } else if lit_at(s, pos, "RGB("@) {
        parse_rgb_body_spec(s, pos + "RGB("@.len())
    } else {
        None
    }
}

fn parse_rgb_body(s: &str, pos: usize) -> (r: Option<(RGB16, usize)>)
    requires
        pos <= s@.len(),
    ensures
        match r {
            Some(vp) => {
                &&& parse_rgb_body_spec(s@, pos as int) == Some((vp.0, vp.1 as int))
                &&& vp.1 <= s@.len()
            },
            None => parse_rgb_body_spec(s@, pos as int) is None,
        },
{
    let named = matches_at(s, pos, "red=0x");
    let p0: usize;
    if named {
        p0 = pos + "red=0x".unicode_len();
    } else if matches_at(s, pos, "0x") {
        p0 = pos + "0x".unicode_len();
    } else {
        return None;
    }
    let (red, p1) = match parse_hex(s, p0) {
        Some(vp) => vp,
        None => {
            return None;
        },
    };
    let sep_green = if named {
        ", green=0x"
    } else {
        ", 0x"
    };
    if !matches_at(s, p1, sep_green) {
        return None;
    }
    let p1b = p1 + sep_green.unicode_len();
    let (green, p2) = match parse_hex(s, p1b) {
        Some(vp) => vp,
        None => {
            return None;
        },
    };
    let sep_blue = if named {
        ", blue=0x"
    } else {
        ", 0x"
    };
    if !matches_at(s, p2, sep_blue) {
        return None;
    }
    let p2b = p2 + sep_blue.unicode_len();
    let (blue, p3) = match parse_hex(s, p2b) {
        Some(vp) => vp,
        None => {
            return None;
        },
    };
    if !matches_at(s, p3, ")") {
        return None;
    }
    proof {
        reveal_strlit(")");
    }
    Some((RGB16 { red, green, blue }, p3 + 1))
}

fn parse_rgb(s: &str, pos: usize) -> (r: Option<(RGB16, usize)>)
    requires
        pos <= s@.len(),
    ensures
        match r {
            Some(vp) => {
                &&& parse_rgb_spec(s@, pos as int) == Some((vp.0, vp.1 as int))
                &&& vp.1 <= s@.len()
            },
            None => parse_rgb_spec(s@, pos as int) is None,
        },
{
    if matches_at(s, pos, "RGB16(") {
        parse_rgb_body(s, pos + "RGB16(".unicode_len())
    } else if matches_at(s, pos, "RGB(") {
        parse_rgb_body(s, pos + "RGB(".unicode_len())
    } else {
        None
    }
}

// ------------------------------------------------------------------
// Whole records
// ------------------------------------------------------------------

/// The record tag: the current `ModelPaint(` or the legacy `NamedColour(`.
/// Yields the position after the tag.
pub open spec fn parse_tag_spec(s: Seq<char>) -> Option<int> {
    if lit_at(s, 0, "ModelPaint("@) {
        Some("ModelPaint("@.len() as int)
    } else if lit_at(s, 0, "NamedColour("@) {
        Some("NamedColour("@.len() as int)
    } else {
        None
    }
}

/// The optional `metallic=` field; absent in a legacy record, where the
/// "non-" variant is the default.
pub open spec fn parse_metallic_spec(s: Seq<char>, pos: int, line: usize) -> Result<
    (Metallic, int),
    ParseError,
> {
    if lit_at(s, pos, ", metallic="@) {
        match parse_quoted_spec(s, pos + ", metallic="@.len()) {
            None => Err(ParseError::MalformedRecord { line, field: RecordField::Metallic }),
            Some((tok, p)) => match Metallic::from_token_spec(tok) {
                None => Err(ParseError::MalformedRecord { line, field: RecordField::Metallic }),
                Some(m) => Ok((m, p)),
            },
        }
    } else {
        Ok((Metallic::Nonmetallic, pos))
    }
}

/// The optional `fluorescence=` field; absent in a legacy record, where the
/// "non-" variant is the default.
pub open spec fn parse_fluorescence_spec(s: Seq<char>, pos: int, line: usize) -> Result<
    (Fluorescence, int),
    ParseError,
> {
    if lit_at(s, pos, ", fluorescence="@) {
        match parse_quoted_spec(s, pos + ", fluorescence="@.len()) {
            None => Err(ParseError::MalformedRecord { line, field: RecordField::Fluorescence }),
            Some((tok, p)) => match Fluorescence::from_token_spec(tok) {
                None => Err(
                    ParseError::MalformedRecord { line, field: RecordField::Fluorescence },
                ),
                Some(f) => Ok((f, p)),
            },
        }
    } else {
        Ok((Fluorescence::Nonfluorescent, pos))
    }
}

/// The optional `notes=` field; absent in a legacy record, where the notes
/// default to the empty string.
pub open spec fn parse_notes_spec(s: Seq<char>, pos: int, line: usize) -> Result<
    (Seq<char>, int),
    ParseError,
> {
    if lit_at(s, pos, ", notes="@) {
        match parse_quoted_spec(s, pos + ", notes="@.len()) {
            None => Err(ParseError::MalformedRecord { line, field: RecordField::Notes }),
            Some((t, p)) => Ok((t, p)),
        }
    } else {
        Ok((Seq::empty(), pos))
    }
}

/// One record line, in either shape, as `line` of its document.  The
/// result is pinned for every input: the record value on success, and the
/// field at which parsing failed otherwise.
pub open spec fn parse_record_spec(s: Seq<char>, line: usize) -> Result<PaintSpecV, ParseError> {
    match parse_tag_spec(s) {
        None => Err(ParseError::MalformedRecord { line, field: RecordField::Tag }),
        Some(p0) => if !lit_at(s, p0, "name="@) {
            Err(ParseError::MalformedRecord { line, field: RecordField::Name })
        } else {
            match parse_quoted_spec(s, p0 + "name="@.len()) {
                None => Err(ParseError::MalformedRecord { line, field: RecordField::Name }),
                Some((name, p1)) => if name.len() == 0 {
                    Err(ParseError::MalformedRecord { line, field: RecordField::Name })
                } else if !lit_at(s, p1, ", rgb="@) {
                    Err(ParseError::MalformedRecord { line, field: RecordField::Rgb })
                } else {
                    match parse_rgb_spec(s, p1 + ", rgb="@.len()) {
                        None => Err(ParseError::MalformedRecord { line, field: RecordField::Rgb }),
                        Some((rgb, p2)) => parse_record_tail_spec(s, p2, line, name, rgb),
                    }
                },
            }
        },
    }
}

/// The characteristic and notes fields of a record, after the RGB value.
pub open spec fn parse_record_tail_spec(
    s: Seq<char>,
    p2: int,
    line: usize,
    name: Seq<char>,
    rgb: RGB16,
) -> Result<PaintSpecV, ParseError> {
    if !lit_at(s, p2, ", transparency="@) {
        Err(ParseError::MalformedRecord { line, field: RecordField::Transparency })
    } else {
        match parse_quoted_spec(s, p2 + ", transparency="@.len()) {
            None => Err(ParseError::MalformedRecord { line, field: RecordField::Transparency }),
            Some((ttok, p3)) => match Transparency::from_token_spec(ttok) {
                None => Err(
                    ParseError::MalformedRecord { line, field: RecordField::Transparency },
                ),
                Some(transparency) => if !lit_at(s, p3, ", finish="@) {
                    Err(ParseError::MalformedRecord { line, field: RecordField::Finish })
                } else {
                    match parse_quoted_spec(s, p3 + ", finish="@.len()) {
                        None => Err(
                            ParseError::MalformedRecord { line, field: RecordField::Finish },
                        ),
                        Some((ftok, p4)) => match Finish::from_token_spec(ftok) {
                            None => Err(
                                ParseError::MalformedRecord { line, field: RecordField::Finish },
                            ),
                            Some(finish) => match parse_metallic_spec(s, p4, line) {
                                Err(e) => Err(e),
                                Ok((metallic, p5)) => match parse_fluorescence_spec(
                                    s,
                                    p5,
                                    line,
                                ) {
                                    Err(e) => Err(e),
                                    Ok((fluorescence, p6)) => match parse_notes_spec(
                                        s,
                                        p6,
                                        line,
                                    ) {
                                        Err(e) => Err(e),
                                        Ok((notes, p7)) => if lit_at(s, p7, ")"@) && p7 + 1
                                            == s.len() {
                                            Ok(
                                                PaintSpecV {
                                                    name,
                                                    rgb,
                                                    characteristics: ModelPaintCharacteristics {
                                                        finish,
                                                        transparency,
                                                        fluorescence,
                                                        metallic,
                                                    },
                                                    notes,
                                                },
                                            )
                                        } else {
                                            Err(
                                                ParseError::MalformedRecord {
                                                    line,
                                                    field: RecordField::Close,
                                                },
                                            )
                                        },
                                    },
                                },
                            },
                        },
                    }
                },
            },
        }
    }
}

/// A parse result with its record taken to the record's mathematical value.
pub open spec fn result_view(r: Result<PaintSpec, ParseError>) -> Result<PaintSpecV, ParseError> {
    match r {
        Ok(p) => Ok(p@),
        Err(e) => Err(e),
    }
}

/// Parses one record line standing at `line` of a document.
pub(crate) fn parse_record_at(text: &str, line: usize) -> (r: Result<PaintSpec, ParseError>)
    ensures
        result_view(r) == parse_record_spec(text@, line),
{
    let p0: usize;
    if matches_at(text, 0, "ModelPaint(") {
        p0 = "ModelPaint(".unicode_len();
    } else if matches_at(text, 0, "NamedColour(") {
        p0 = "NamedColour(".unicode_len();
    } else {
        return Err(ParseError::MalformedRecord { line, field: RecordField::Tag });
    }
    if !matches_at(text, p0, "name=") {
        return Err(ParseError::MalformedRecord { line, field: RecordField::Name });
    }
    let (name, p1) = match parse_quoted(text, p0 + "name=".unicode_len()) {
        Some(tp) => tp,
        None => {
            return Err(ParseError::MalformedRecord { line, field: RecordField::Name });
        },
    };
    if name.as_str().unicode_len() == 0 {
        return Err(ParseError::MalformedRecord { line, field: RecordField::Name });
    }
    if !matches_at(text, p1, ", rgb=") {
        return Err(ParseError::MalformedRecord { line, field: RecordField::Rgb });
    }
    let (rgb, p2) = match parse_rgb(text, p1 + ", rgb=".unicode_len()) {
        Some(vp) => vp,
        None => {
            return Err(ParseError::MalformedRecord { line, field: RecordField::Rgb });
        },
    };
    if !matches_at(text, p2, ", transparency=") {
        return Err(ParseError::MalformedRecord { line, field: RecordField::Transparency });
    }
    let (ttok, p3) = match parse_quoted(text, p2 + ", transparency=".unicode_len()) {
        Some(tp) => tp,
        None => {
            return Err(ParseError::MalformedRecord { line, field: RecordField::Transparency });
        },
    };
    let transparency = match Transparency::parse(ttok.as_str()) {
        Ok(t) => t,
        Err(_) => {
            return Err(ParseError::MalformedRecord { line, field: RecordField::Transparency });
        },
    };
    if !matches_at(text, p3, ", finish=") {
        return Err(ParseError::MalformedRecord { line, field: RecordField::Finish });
    }
    let (ftok, p4) = match parse_quoted(text, p3 + ", finish=".unicode_len()) {
        Some(tp) => tp,
        None => {
            return Err(ParseError::MalformedRecord { line, field: RecordField::Finish });
        },
    };
    let finish = match Finish::parse(ftok.as_str()) {
        Ok(f) => f,
        Err(_) => {
            return Err(ParseError::MalformedRecord { line, field: RecordField::Finish });
        },
    };
    let metallic: Metallic;
    let p5: usize;
    if matches_at(text, p4, ", metallic=") {
        let (mtok, p) = match parse_quoted(text, p4 + ", metallic=".unicode_len()) {
            Some(tp) => tp,
            None => {
                return Err(ParseError::MalformedRecord { line, field: RecordField::Metallic });
            },
        };
        metallic = match Metallic::parse(mtok.as_str()) {
            Ok(m) => m,
            Err(_) => {
                return Err(ParseError::MalformedRecord { line, field: RecordField::Metallic });
            },
        };
        p5 = p;
    } else {
        metallic = Metallic::Nonmetallic;
        p5 = p4;
    }
    let fluorescence: Fluorescence;
    let p6: usize;
    if matches_at(text, p5, ", fluorescence=") {
        let (fltok, p) = match parse_quoted(text, p5 + ", fluorescence=".unicode_len()) {
            Some(tp) => tp,
            None => {
                return Err(ParseError::MalformedRecord { line, field: RecordField::Fluorescence });
            },
        };
        fluorescence = match Fluorescence::parse(fltok.as_str()) {
            Ok(f) => f,
            Err(_) => {
                return Err(
                    ParseError::MalformedRecord { line, field: RecordField::Fluorescence },
                );
            },
        };
        p6 = p;
    } else {
        fluorescence = Fluorescence::Nonfluorescent;
        p6 = p5;
    }
    let notes: String;
    let p7: usize;
    if matches_at(text, p6, ", notes=") {
        let (t, p) = match parse_quoted(text, p6 + ", notes=".unicode_len()) {
            Some(tp) => tp,
            None => {
                return Err(ParseError::MalformedRecord { line, field: RecordField::Notes });
            },
        };
        notes = t;
        p7 = p;
    } else {
        notes = String::new();
        p7 = p6;
    }
    let slen = text.unicode_len();
    proof {
        reveal_strlit(")");
    }
    if !(matches_at(text, p7, ")") && p7 + 1 == slen) {
        return Err(ParseError::MalformedRecord { line, field: RecordField::Close });
    }
    Ok(
        PaintSpec {
            name,
            rgb,
            characteristics: ModelPaintCharacteristics {
                finish,
                transparency,
                fluorescence,
                metallic,
            },
            notes,
        },
    )
}

/// Parses one textual paint record, in the current or the legacy shape.
/// The result is exactly `parse_record_spec` of the text, taken as line 1
/// of a standalone document.
pub fn parse_record(text: &str) -> (r: Result<PaintSpec, ParseError>)
    ensures
        result_view(r) == parse_record_spec(text@, 1),
{
    parse_record_at(text, 1)
}

// ------------------------------------------------------------------
// Serialization to the current shape
// ------------------------------------------------------------------

/// The digit character of a hexadecimal value below 16 (upper case).
pub open spec fn hex_char(d: u16) -> char {
    if d == 0 {
        '0'
    } else if d == 1 {
        '1'
    } else if d == 2 {
        '2'
    } else if d == 3 {
        '3'
    } else if d == 4 {
        '4'
    } else if d == 5 {
        '5'
    } else if d == 6 {
        '6'
    } else if d == 7 {
        '7'
    } else if d == 8 {
        '8'
    } else if d == 9 {
        '9'
    } else if d == 10 {
        'A'
    } else if d == 11 {
        'B'
    } else if d == 12 {
        'C'
    } else if d == 13 {
        'D'
    } else if d == 14 {
        'E'
    } else {
        'F'
    }
}

/// A channel value as exactly four hexadecimal digits, most significant
/// first.
pub open spec fn hex4_seq(v: u16) -> Seq<char> {
    seq![
        hex_char((v >> 12) & 0xf),
        hex_char((v >> 8) & 0xf),
        hex_char((v >> 4) & 0xf),
        hex_char(v & 0xf),
    ]
}

fn hex_digit_char_str(d: u16) -> (r: &'static str)
    requires
        d < 16,
    ensures
        r@.len() == 1,
        r@[0] == hex_char(d),
{
    proof {
        reveal_strlit("0");
        reveal_strlit("1");
        reveal_strlit("2");
        reveal_strlit("3");
        reveal_strlit("4");
        reveal_strlit("5");
        reveal_strlit("6");
        reveal_strlit("7");
        reveal_strlit("8");
        reveal_strlit("9");
        reveal_strlit("A");
        reveal_strlit("B");
        reveal_strlit("C");
        reveal_strlit("D");
        reveal_strlit("E");
        reveal_strlit("F");
    }
    if d == 0 {
        "0"
    } else if d == 1 {
        "1"
    } else if d == 2 {
        "2"
    } else if d == 3 {
        "3"
    } else if d == 4 {
        "4"
    } else if d == 5 {
        "5"
    } else if d == 6 {
        "6"
    } else if d == 7 {
        "7"
    } else if d == 8 {
        "8"
    } else if d == 9 {
        "9"
    } else if d == 10 {
        "A"
    } else if d == 11 {
        "B"
    } else if d == 12 {
        "C"
    } else if d == 13 {
        "D"
    } else if d == 14 {
        "E"
    } else {
        "F"
    }
}

fn append_hex4(out: &mut String, v: u16)
    ensures
        final(out)@ == old(out)@ + hex4_seq(v),
{
    proof {
        assert((v >> 12) & 0xf < 16 && (v >> 8) & 0xf < 16 && (v >> 4) & 0xf < 16 && v & 0xf
            < 16) by (bit_vector);
    }
    out.append(hex_digit_char_str((v >> 12) & 0xf));
    out.append(hex_digit_char_str((v >> 8) & 0xf));
    out.append(hex_digit_char_str((v >> 4) & 0xf));
    out.append(hex_digit_char_str(v & 0xf));
    proof {
        assert(out@ =~= old(out)@ + hex4_seq(v));
    }
}

fn append_quoted(out: &mut String, t: &str)
    ensures
        final(out)@ == old(out)@ + quoted_seq(t@),
{
    out.append("\"");
    out.append(t);
    out.append("\"");
    proof {
        reveal_strlit("\"");
        assert(out@ =~= old(out)@ + quoted_seq(t@));
    }
}

/// The current-shape text of a record value, all fields written out.
pub open spec fn serialize_record_spec(p: PaintSpecV) -> Seq<char> {
    "ModelPaint("@ + "name="@ + quoted_seq(p.name) + ", rgb="@ + "RGB16("@ + "red=0x"@
        + hex4_seq(p.rgb.red) + ", green=0x"@ + hex4_seq(p.rgb.green) + ", blue=0x"@ + hex4_seq(
        p.rgb.blue,
    ) + ")"@ + ", transparency="@ + quoted_seq(p.characteristics.transparency.abbrev_spec())
        + ", finish="@ + quoted_seq(p.characteristics.finish.abbrev_spec()) + ", metallic="@
        + quoted_seq(p.characteristics.metallic.abbrev_spec()) + ", fluorescence="@ + quoted_seq(
        p.characteristics.fluorescence.abbrev_spec(),
    ) + ", notes="@ + quoted_seq(p.notes) + ")"@
}

/// Serializes a record to the current shape.
pub fn serialize_record(p: &PaintSpec) -> (r: String)
    ensures
        r@ == serialize_record_spec(p@),
{
    let mut out = String::new();
    out.append("ModelPaint(");
    out.append("name=");
    append_quoted(&mut out, p.name.as_str());
    out.append(", rgb=");
    out.append("RGB16(");
    out.append("red=0x");
    append_hex4(&mut out, p.rgb.red);
    out.append(", green=0x");
    append_hex4(&mut out, p.rgb.green);
    out.append(", blue=0x");
    append_hex4(&mut out, p.rgb.blue);
    out.append(")");
    out.append(", transparency=");
    append_quoted(&mut out, p.characteristics.transparency.abbreviation());
    out.append(", finish=");
    append_quoted(&mut out, p.characteristics.finish.abbreviation());
    out.append(", metallic=");
    append_quoted(&mut out, p.characteristics.metallic.abbreviation());
    out.append(", fluorescence=");
    append_quoted(&mut out, p.characteristics.fluorescence.abbreviation());
    out.append(", notes=");
    append_quoted(&mut out, p.notes.as_str());
    out.append(")");
    proof {
        assert(out@ =~= serialize_record_spec(p@));
    }
    out
}

} // verus!

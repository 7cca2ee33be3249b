//! The series document format: two header lines naming the manufacturer
//! and the series, then one paint record per non-empty line.

use vstd::prelude::*;

use crate::error::ParseError;
use crate::paint::PaintSpec;
use crate::paint::PaintSpecV;
use crate::record::parse_record_at;
use crate::record::parse_record_spec;
use crate::scan::find_char;
use crate::scan::find_char_from;
use crate::scan::lit_at;
use crate::scan::matches_at;
use crate::scan::str_eq;
use crate::series::Series;
use crate::series::SeriesIdentity;
use crate::series::SeriesIdentityV;
use crate::series::SeriesV;
use crate::series::has_paint_named;

verus! {

/// The lines of `s` from position `pos` on, split at newlines.  A final
/// newline ends the last line rather than opening an empty one.
pub open spec fn split_lines_from(s: Seq<char>, pos: int) -> Seq<Seq<char>>
    decreases s.len() - pos,
    via split_lines_from_dec
{
    if pos < 0 || pos >= s.len() {
        Seq::empty()
    } else {
        let j = find_char(s, pos, '\n');
        if j < s.len() {
            seq![s.subrange(pos, j)] + split_lines_from(s, j + 1)
        } else {
            seq![s.subrange(pos, s.len() as int)]
        }
    }
}

#[via_fn]
proof fn split_lines_from_dec(s: Seq<char>, pos: int) {
    if 0 <= pos < s.len() {
        crate::scan::lemma_find_char_props(s, pos, '\n');
    }
}

/// The lines of a document.
pub open spec fn split_lines(s: Seq<char>) -> Seq<Seq<char>> {
    split_lines_from(s, 0)
}

fn split_lines_exec(s: &str) -> (r: Vec<String>)
    ensures
        r.deep_view() == split_lines(s@),
{
    let slen = s.unicode_len();
    let mut lines: Vec<String> = Vec::new();
    let mut pos: usize = 0;
    while pos < slen
        invariant
            slen == s@.len(),
            pos <= slen,
            split_lines(s@) == lines.deep_view() + split_lines_from(s@, pos as int),
        decreases slen - pos,
    {
        let j = find_char_from(s, pos, '\n');
        proof {
            crate::scan::lemma_find_char_props(s@, pos as int, '\n');
        }
        let ghost old_lines = lines.deep_view();
        if j < slen {
            lines.push(String::from_str(s.substring_char(pos, j)));
            proof {
                assert(lines.deep_view() =~= old_lines.push(s@.subrange(pos as int, j as int)));
                assert(old_lines + split_lines_from(s@, pos as int) =~= lines.deep_view()
                    + split_lines_from(s@, j + 1));
            }
            pos = j + 1;
        } else {
            lines.push(String::from_str(s.substring_char(pos, slen)));
            proof {
                assert(lines.deep_view() =~= old_lines.push(
                    s@.subrange(pos as int, s@.len() as int),
                ));
                assert(old_lines + split_lines_from(s@, pos as int) =~= lines.deep_view()
                    + split_lines_from(s@, slen as int));
            }
            pos = slen;
        }
    }
    proof {
        assert(split_lines(s@) =~= lines.deep_view() + split_lines_from(s@, pos as int));
        assert(split_lines(s@) =~= lines.deep_view());
    }
    lines
}

/// The records of the document's lines from index `i` on, collected onto
/// `acc`: empty lines are skipped, a malformed record aborts the document,
/// and a name already collected is a duplicate.  Line numbers are 1-based,
/// so the record on the line at index `i` reports line `i + 1`.
pub open spec fn parse_records_spec(
    ls: Seq<Seq<char>>,
    i: int,
    acc: Seq<PaintSpecV>,
) -> Result<Seq<PaintSpecV>, ParseError>
    decreases ls.len() - i,
{
    if i < 0 || i >= ls.len() {
        Ok(acc)
    } else if ls[i].len() == 0 {
        parse_records_spec(ls, i + 1, acc)
    } else {
        match parse_record_spec(ls[i], (i + 1) as usize) {
            Err(e) => Err(e),
            Ok(p) => if has_paint_named(acc, p.name) {
                Err(ParseError::DuplicatePaintName { line: (i + 1) as usize })
            } else {
                parse_records_spec(ls, i + 1, acc.push(p))
            },
        }
    }
}

/// A whole series document: the `Manufacturer:` and `Series:` headers on
/// the first two lines, then the records.  The result is pinned for every
/// input.
pub open spec fn parse_document_spec(s: Seq<char>) -> Result<SeriesV, ParseError> {
    let ls = split_lines(s);
    if ls.len() < 2 {
        Err(ParseError::MissingHeader)
    } else if !lit_at(ls[0], 0, "Manufacturer: "@) {
        Err(ParseError::MissingHeader)
    } else if !lit_at(ls[1], 0, "Series: "@) {
        Err(ParseError::MissingHeader)
    } else {
        match parse_records_spec(ls, 2, Seq::empty()) {
            Err(e) => Err(e),
            Ok(ps) => Ok(
                SeriesV {
                    identity: SeriesIdentityV {
                        manufacturer: ls[0].subrange(
                            "Manufacturer: "@.len() as int,
                            ls[0].len() as int,
                        ),
                        series_name: ls[1].subrange("Series: "@.len() as int, ls[1].len() as int),
                    },
                    paints: ps,
                },
            ),
        }
    }
}

/// A document parse result with its series taken to its mathematical value.
pub open spec fn document_result_view(r: Result<Series, ParseError>) -> Result<
    SeriesV,
    ParseError,
> {
    match r {
        Ok(s) => Ok(s@),
        Err(e) => Err(e),
    }
}

fn contains_paint_named(paints: &Vec<PaintSpec>, name: &String) -> (r: bool)
    ensures
        r == has_paint_named(paints@.map(|i: int, p: PaintSpec| p@), name@),
{
    let ghost views = paints@.map(|i: int, p: PaintSpec| p@);
    let n = paints.len();
    let mut i: usize = 0;
    while i < n
        invariant
            n == paints@.len(),
            i <= n,
            views == paints@.map(|k: int, p: PaintSpec| p@),
            forall|j: int| 0 <= j < i ==> #[trigger] views[j].name != name@,
        decreases n - i,
    {
        proof {
            assert(views[i as int] == paints@[i as int]@);
        }
        if str_eq(paints[i].name.as_str(), name.as_str()) {
            return true;
        }
        i += 1;
    }
    proof {
        if has_paint_named(views, name@) {
            let j = choose|j: int| 0 <= j < views.len() && views[j].name == name@;
        }
    }
    false
}

/// Parses a whole series document.  The result is exactly
/// `parse_document_spec` of the text; on success the series' paint names
/// are unique.
#[verifier::rlimit(100)]
pub fn parse_document(text: &str) -> (r: Result<Series, ParseError>)
    ensures
        document_result_view(r) == parse_document_spec(text@),
        match r {
            Ok(series) => series@.wf(),
            Err(_) => true,
        },
{
    let lines = split_lines_exec(text);
    let ghost ls = lines.deep_view();
    if lines.len() < 2 {
        return Err(ParseError::MissingHeader);
    }
    proof {
        assert(ls[0] == lines@[0]@);
        assert(ls[1] == lines@[1]@);
    }
    if !matches_at(lines[0].as_str(), 0, "Manufacturer: ") {
        return Err(ParseError::MissingHeader);
    }
    if !matches_at(lines[1].as_str(), 0, "Series: ") {
        return Err(ParseError::MissingHeader);
    }
    let man_start = "Manufacturer: ".unicode_len();
    let l0len = lines[0].as_str().unicode_len();
    let manufacturer = String::from_str(lines[0].as_str().substring_char(man_start, l0len));
    let ser_start = "Series: ".unicode_len();
    let l1len = lines[1].as_str().unicode_len();
    let series_name = String::from_str(lines[1].as_str().substring_char(ser_start, l1len));
    let mut paints: Vec<PaintSpec> = Vec::new();
    proof {
        assert(paints@.map(|k: int, p: PaintSpec| p@) =~= Seq::<PaintSpecV>::empty());
    }
    let n = lines.len();
    let mut i: usize = 2;
    while i < n
        invariant
            n == lines@.len(),
            2 <= i <= n,
            ls == lines.deep_view(),
            ls == split_lines(text@),
            ls.len() >= 2,
            lit_at(ls[0], 0, "Manufacturer: "@),
            lit_at(ls[1], 0, "Series: "@),
            parse_records_spec(ls, 2, Seq::empty()) == parse_records_spec(
                ls,
                i as int,
                paints@.map(|k: int, p: PaintSpec| p@),
            ),
            forall|a: int, b: int|
                0 <= a < b < paints@.len() ==> (#[trigger] paints@[a])@.name != (
                #[trigger] paints@[b])@.name,
        decreases n - i,
    {
        let ghost acc = paints@.map(|k: int, p: PaintSpec| p@);
        proof {
            assert(ls[i as int] == lines@[i as int]@);
        }
        let line_len = lines[i].as_str().unicode_len();
        if line_len == 0 {
            i += 1;
            continue;
        }
        let p = match parse_record_at(lines[i].as_str(), i + 1) {
            Ok(p) => p,
            Err(e) => {
                proof {
                    assert(ls[i as int].len() != 0);
                    assert(parse_records_spec(ls, i as int, acc) == Err::<
                        Seq<PaintSpecV>,
                        ParseError,
                    >(e));
                }
                return Err(e);
            },
        };
        if contains_paint_named(&paints, &p.name) {
            proof {
                assert(ls[i as int].len() != 0);
                assert(has_paint_named(acc, p@.name));
                assert(parse_records_spec(ls, i as int, acc) == Err::<Seq<PaintSpecV>, ParseError>(
                    ParseError::DuplicatePaintName { line: (i + 1) as usize },
                ));
            }
            return Err(ParseError::DuplicatePaintName { line: i + 1 });
        }
        let ghost pv = p@;
        paints.push(p);
        proof {
            assert(paints@.map(|k: int, p: PaintSpec| p@) =~= acc.push(pv));
            assert forall|a: int, b: int|
                0 <= a < b < paints@.len() implies (#[trigger] paints@[a])@.name != (
            #[trigger] paints@[b])@.name by {
                if b == paints@.len() - 1 {
                    assert(paints@[b]@ == pv);
                    assert(acc[a] == paints@[a]@);
                    if paints@[a]@.name == pv.name {
                        assert(has_paint_named(acc, pv.name));
                    }
                }
            }
        }
        i += 1;
    }
    let ghost pseq = paints@;
    let series = Series::from_parts(SeriesIdentity { manufacturer, series_name }, paints);
    proof {
        assert(series@.wf()) by {
            assert forall|a: int, b: int|
                0 <= a < b < series@.paints.len() implies series@.paints[a].name
                != series@.paints[b].name by {
                assert(series@.paints[a] == pseq[a]@);
                assert(series@.paints[b] == pseq[b]@);
            }
        }
    }
    Ok(series)
}

} // verus!

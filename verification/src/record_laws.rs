//! Laws of the record grammar: a serialized record parses back to the same
//! value, and a legacy-shape record decodes with the documented defaults.

use vstd::prelude::*;

use crate::characteristics::Finish;
use crate::characteristics::Fluorescence;
use crate::characteristics::Metallic;
use crate::characteristics::ModelPaintCharacteristics;
use crate::characteristics::Transparency;
use crate::characteristics::lemma_finish_token_round_trip;
use crate::characteristics::lemma_fluorescence_token_round_trip;
use crate::characteristics::lemma_metallic_token_round_trip;
use crate::characteristics::lemma_transparency_token_round_trip;
use crate::error::ParseError;
use crate::paint::PaintSpecV;
use crate::paint::RGB16;
use crate::record::hex4_seq;
use crate::record::hex_char;
use crate::record::hex_digit_val;
use crate::record::hex_run_len;
use crate::record::hex_value;
use crate::record::is_hex_digit;
use crate::record::parse_hex_spec;
use crate::record::parse_quoted_spec;
use crate::record::parse_record_spec;
use crate::record::quoted_seq;
use crate::record::serialize_record_spec;
use crate::scan::find_char;
use crate::scan::lemma_find_char_after;
use crate::scan::lit_at;

verus! {

/// Peels a literal from the front of the suffix of `s` at `pos`.
proof fn lemma_peel_lit(s: Seq<char>, pos: int, lit: Seq<char>, rest: Seq<char>)
    requires
        0 <= pos <= s.len(),
        s.subrange(pos, s.len() as int) == lit + rest,
    ensures
        lit_at(s, pos, lit),
        s.len() == pos + lit.len() + rest.len(),
        s.subrange(pos + lit.len(), s.len() as int) == rest,
{
    let suf = s.subrange(pos, s.len() as int);
    assert(suf.len() == lit.len() + rest.len());
    assert(s.subrange(pos, pos + lit.len() as int) =~= lit) by {
        assert forall|i: int| 0 <= i < lit.len() implies s.subrange(
            pos,
            pos + lit.len() as int,
        )[i] == lit[i] by {
            assert(suf[i] == (lit + rest)[i]);
        }
    }
    assert(s.subrange(pos + lit.len(), s.len() as int) =~= rest) by {
        assert forall|i: int| 0 <= i < rest.len() implies s.subrange(
            pos + lit.len(),
            s.len() as int,
        )[i] == rest[i] by {
            assert(suf[lit.len() + i] == (lit + rest)[lit.len() + i]);
        }
    }
}

/// Peels a quoted string from the front of the suffix of `s` at `pos`; the
/// content must be quote-free, so the scan stops at the closing quote.
proof fn lemma_peel_quoted(s: Seq<char>, pos: int, t: Seq<char>, rest: Seq<char>)
    requires
        0 <= pos <= s.len(),
        s.subrange(pos, s.len() as int) == quoted_seq(t) + rest,
        !t.contains('"'),
    ensures
        parse_quoted_spec(s, pos) == Some((t, pos + t.len() + 2)),
        s.len() == pos + t.len() + 2 + rest.len(),
        s.subrange(pos + t.len() + 2, s.len() as int) == rest,
{
    let suf = s.subrange(pos, s.len() as int);
    let q = quoted_seq(t);
    assert(q.len() == t.len() + 2);
    assert(suf.len() == (q + rest).len());
    assert(s.len() == pos + t.len() + 2 + rest.len());
    assert(s[pos] == '"') by {
        assert(suf[0] == (q + rest)[0]);
    }
    assert forall|j: int| 0 <= j < t.len() implies s[pos + 1 + j] == t[j] by {
        assert(suf[1 + j] == (q + rest)[1 + j]);
    }
    assert(s[pos + 1 + t.len()] == '"') by {
        assert(suf[1 + t.len() as int] == (q + rest)[1 + t.len() as int]);
    }
    assert forall|j: int| 0 <= j < t.len() implies t[j] != '"' by {
        if t[j] == '"' {
            assert(t.contains('"'));
        }
    }
    lemma_find_char_after(s, pos + 1, '"', t);
    assert(find_char(s, pos + 1, '"') == pos + 1 + t.len());
    assert(s.subrange(pos + 1, pos + 1 + t.len()) =~= t);
    assert(s.subrange(pos + t.len() + 2, s.len() as int) =~= rest) by {
        assert forall|i: int| 0 <= i < rest.len() implies s.subrange(
            pos + t.len() + 2,
            s.len() as int,
        )[i] == rest[i] by {
            assert(suf[t.len() + 2 + i] == (q + rest)[t.len() + 2 + i]);
        }
    }
}

/// The digit character of a value below 16 is a hexadecimal digit with
/// that value.
proof fn lemma_hex_char_val(d: u16)
    requires
        d < 16,
    ensures
        is_hex_digit(hex_char(d)),
        hex_digit_val(hex_char(d)) == d as int,
{
}

/// Peels a four-digit hexadecimal value from the front of the suffix of
/// `s` at `pos`; the next character must not be a digit, so the scan stops
/// after the four.
proof fn lemma_peel_hex4(s: Seq<char>, pos: int, v: u16, rest: Seq<char>)
    requires
        0 <= pos <= s.len(),
        s.subrange(pos, s.len() as int) == hex4_seq(v) + rest,
        rest.len() > 0,
        !is_hex_digit(rest[0]),
    ensures
        parse_hex_spec(s, pos) == Some((v as int, pos + 4)),
        s.len() == pos + 4 + rest.len(),
        s.subrange(pos + 4, s.len() as int) == rest,
{
    let suf = s.subrange(pos, s.len() as int);
    let h = hex4_seq(v);
    assert(h.len() == 4);
    assert(suf.len() == (h + rest).len());
    assert(s.len() == pos + 4 + rest.len());
    let d3 = (v >> 12) & 0xf;
    let d2 = (v >> 8) & 0xf;
    let d1 = (v >> 4) & 0xf;
    let d0 = v & 0xf;
    assert((v >> 12) & 0xf < 16 && (v >> 8) & 0xf < 16 && (v >> 4) & 0xf < 16 && v & 0xf
        < 16) by (bit_vector);
    lemma_hex_char_val(d3);
    lemma_hex_char_val(d2);
    lemma_hex_char_val(d1);
    lemma_hex_char_val(d0);
    assert(s[pos] == hex_char(d3)) by {
        assert(suf[0] == (h + rest)[0]);
    }
    assert(s[pos + 1] == hex_char(d2)) by {
        assert(suf[1] == (h + rest)[1]);
    }
    assert(s[pos + 2] == hex_char(d1)) by {
        assert(suf[2] == (h + rest)[2]);
    }
    assert(s[pos + 3] == hex_char(d0)) by {
        assert(suf[3] == (h + rest)[3]);
    }
    assert(s[pos + 4] == rest[0]) by {
        assert(suf[4] == (h + rest)[4]);
    }
    assert(hex_run_len(s, pos + 4) == 0);
    assert(hex_run_len(s, pos + 3) == 1);
    assert(hex_run_len(s, pos + 2) == 2);
    assert(hex_run_len(s, pos + 1) == 3);
    assert(hex_run_len(s, pos) == 4);
    assert(hex_value(s, pos, 0) == 0);
    assert(hex_value(s, pos, 1) == d3 as int);
    assert(hex_value(s, pos, 2) == d3 as int * 16 + d2 as int);
    assert(hex_value(s, pos, 3) == (d3 as int * 16 + d2 as int) * 16 + d1 as int);
    assert(hex_value(s, pos, 4) == ((d3 as int * 16 + d2 as int) * 16 + d1 as int) * 16
        + d0 as int);
    assert((((((v >> 12) & 0xf) as u32) * 16 + (((v >> 8) & 0xf) as u32)) * 16 + (((v >> 4)
        & 0xf) as u32)) * 16 + ((v & 0xf) as u32) == v as u32) by (bit_vector);
    assert(hex_value(s, pos, 4) == v as int);
    assert(s.subrange(pos + 4, s.len() as int) =~= rest) by {
        assert forall|i: int| 0 <= i < rest.len() implies s.subrange(
            pos + 4,
            s.len() as int,
        )[i] == rest[i] by {
            assert(suf[4 + i] == (h + rest)[4 + i]);
        }
    }
}

proof fn lemma_seq_assoc(a: Seq<char>, b: Seq<char>, c: Seq<char>)
    ensures
        (a + b) + c == a + (b + c),
{
    assert((a + b) + c =~= a + (b + c));
}

/// The characteristic and notes fields of a serialized record, from the
/// position right after the RGB value.
spec fn tail_seq(p: PaintSpecV) -> Seq<char> {
    ", transparency="@ + (quoted_seq(p.characteristics.transparency.abbrev_spec()) + (", finish="@
        + (quoted_seq(p.characteristics.finish.abbrev_spec()) + (", metallic="@ + (quoted_seq(
        p.characteristics.metallic.abbrev_spec(),
    ) + (", fluorescence="@ + (quoted_seq(p.characteristics.fluorescence.abbrev_spec()) + (
    ", notes="@ + (quoted_seq(p.notes) + ")"@)))))))))
}

/// Where the characteristic fields of a serialized record start.
spec fn record_tail_pos(p: PaintSpecV) -> int {
    "ModelPaint("@.len() as int + "name="@.len() + p.name.len() + 2 + ", rgb="@.len()
        + "RGB16("@.len() + "red=0x"@.len() + 4 + ", green=0x"@.len() + 4 + ", blue=0x"@.len() + 4
        + ")"@.len()
}

/// The RGB channel values and everything after them in a serialized
/// record, from right after the `RGB16(` marker.
spec fn rgb_tail_seq(p: PaintSpecV) -> Seq<char> {
    "red=0x"@ + (hex4_seq(p.rgb.red) + (", green=0x"@ + (hex4_seq(p.rgb.green) + (", blue=0x"@
        + (hex4_seq(p.rgb.blue) + (")"@ + tail_seq(p)))))))
}

/// A serialized record, redivided into its name fields and the rest.
#[verifier::rlimit(100)]
proof fn lemma_serialize_nested(p: PaintSpecV)
    ensures
        serialize_record_spec(p) == "ModelPaint("@ + ("name="@ + (quoted_seq(p.name) + (", rgb="@
            + ("RGB16("@ + rgb_tail_seq(p))))),
{
    let s = serialize_record_spec(p);
    let ta = p.characteristics.transparency.abbrev_spec();
    let fa = p.characteristics.finish.abbrev_spec();
    let ma = p.characteristics.metallic.abbrev_spec();
    let fla = p.characteristics.fluorescence.abbrev_spec();
    let m1 = "ModelPaint("@;
    let m2 = "name="@;
    let m3 = quoted_seq(p.name);
    let m4 = ", rgb="@;
    let m5 = "RGB16("@;
    let m6 = "red=0x"@;
    let m7 = hex4_seq(p.rgb.red);
    let m8 = ", green=0x"@;
    let m9 = hex4_seq(p.rgb.green);
    let m10 = ", blue=0x"@;
    let m11 = hex4_seq(p.rgb.blue);
    let m12 = ")"@;
    let m13 = ", transparency="@;
    let m14 = quoted_seq(ta);
    let m15 = ", finish="@;
    let m16 = quoted_seq(fa);
    let m17 = ", metallic="@;
    let m18 = quoted_seq(ma);
    let m19 = ", fluorescence="@;
    let m20 = quoted_seq(fla);
    let m21 = ", notes="@;
    let m22 = quoted_seq(p.notes);
    let m23 = ")"@;
    let l1 = m1;
    let l2 = l1 + m2;
    let l3 = l2 + m3;
    let l4 = l3 + m4;
    let l5 = l4 + m5;
    let l6 = l5 + m6;
    let l7 = l6 + m7;
    let l8 = l7 + m8;
    let l9 = l8 + m9;
    let l10 = l9 + m10;
    let l11 = l10 + m11;
    let l12 = l11 + m12;
    let l13 = l12 + m13;
    let l14 = l13 + m14;
    let l15 = l14 + m15;
    let l16 = l15 + m16;
    let l17 = l16 + m17;
    let l18 = l17 + m18;
    let l19 = l18 + m19;
    let l20 = l19 + m20;
    let l21 = l20 + m21;
    let l22 = l21 + m22;
    assert(s == l22 + m23);
    let t23 = m23;
    let t22 = m22 + t23;
    let t21 = m21 + t22;
    let t20 = m20 + t21;
    let t19 = m19 + t20;
    let t18 = m18 + t19;
    let t17 = m17 + t18;
    let t16 = m16 + t17;
    let t15 = m15 + t16;
    let t14 = m14 + t15;
    let t13 = m13 + t14;
    let t12 = m12 + t13;
    let t11 = m11 + t12;
    let t10 = m10 + t11;
    let t9 = m9 + t10;
    let t8 = m8 + t9;
    let t7 = m7 + t8;
    let t6 = m6 + t7;
    let t5 = m5 + t6;
    let t4 = m4 + t5;
    let t3 = m3 + t4;
    let t2 = m2 + t3;
    lemma_seq_assoc(l21, m22, m23);
    lemma_seq_assoc(l20, m21, t22);
    lemma_seq_assoc(l19, m20, t21);
    lemma_seq_assoc(l18, m19, t20);
    lemma_seq_assoc(l17, m18, t19);
    lemma_seq_assoc(l16, m17, t18);
    lemma_seq_assoc(l15, m16, t17);
    lemma_seq_assoc(l14, m15, t16);
    lemma_seq_assoc(l13, m14, t15);
    lemma_seq_assoc(l12, m13, t14);
    lemma_seq_assoc(l11, m12, t13);
    lemma_seq_assoc(l10, m11, t12);
    lemma_seq_assoc(l9, m10, t11);
    lemma_seq_assoc(l8, m9, t10);
    lemma_seq_assoc(l7, m8, t9);
    lemma_seq_assoc(l6, m7, t8);
    lemma_seq_assoc(l5, m6, t7);
    lemma_seq_assoc(l4, m5, t6);
    lemma_seq_assoc(l3, m4, t5);
    lemma_seq_assoc(l2, m3, t4);
    lemma_seq_assoc(l1, m2, t3);
    assert(t13 == tail_seq(p));
    assert(t6 == rgb_tail_seq(p));
    assert(s == m1 + t2);
}

/// Where the quoted name of a serialized record starts.
spec fn pos_name(p: PaintSpecV) -> int {
    "ModelPaint("@.len() as int + "name="@.len()
}

/// Where the RGB channel values of a serialized record start.
spec fn pos_rgb_tail(p: PaintSpecV) -> int {
    pos_name(p) + p.name.len() + 2 + ", rgb="@.len() + "RGB16("@.len()
}

#[verifier::rlimit(100)]
proof fn lemma_head_part1(p: PaintSpecV)
    requires
        p.wf(),
    ensures
        lit_at(serialize_record_spec(p), 0, "ModelPaint("@),
        lit_at(serialize_record_spec(p), "ModelPaint("@.len() as int, "name="@),
        parse_quoted_spec(serialize_record_spec(p), pos_name(p)) == Some(
            (p.name, pos_name(p) + p.name.len() + 2),
        ),
        lit_at(serialize_record_spec(p), pos_name(p) + p.name.len() + 2, ", rgb="@),
        lit_at(
            serialize_record_spec(p),
            pos_name(p) + p.name.len() + 2 + ", rgb="@.len(),
            "RGB16("@,
        ),
        0 <= pos_rgb_tail(p) <= serialize_record_spec(p).len(),
        serialize_record_spec(p).subrange(
            pos_rgb_tail(p),
            serialize_record_spec(p).len() as int,
        ) == rgb_tail_seq(p),
{
    lemma_serialize_nested(p);
    let s = serialize_record_spec(p);
    let r1 = "name="@ + (quoted_seq(p.name) + (", rgb="@ + ("RGB16("@ + rgb_tail_seq(p))));
    let r2 = quoted_seq(p.name) + (", rgb="@ + ("RGB16("@ + rgb_tail_seq(p)));
    let r3 = ", rgb="@ + ("RGB16("@ + rgb_tail_seq(p));
    let r4 = "RGB16("@ + rgb_tail_seq(p);
    assert(s.subrange(0, s.len() as int) =~= s);
    lemma_peel_lit(s, 0, "ModelPaint("@, r1);
    let q1 = "ModelPaint("@.len() as int;
    lemma_peel_lit(s, q1, "name="@, r2);
    let q2 = q1 + "name="@.len();
    lemma_peel_quoted(s, q2, p.name, r3);
    let q3 = q2 + p.name.len() + 2;
    lemma_peel_lit(s, q3, ", rgb="@, r4);
    let q4 = q3 + ", rgb="@.len();
    lemma_peel_lit(s, q4, "RGB16("@, rgb_tail_seq(p));
}

/// How far the RGB channel values reach: past the three four-digit
/// channels, their separators and the closing parenthesis.
spec fn rgb_tail_len() -> int {
    "red=0x"@.len() as int + 4 + ", green=0x"@.len() + 4 + ", blue=0x"@.len() + 4 + ")"@.len()
}

#[verifier::rlimit(100)]
proof fn lemma_head_part2(s: Seq<char>, pos: int, p: PaintSpecV)
    requires
        0 <= pos <= s.len(),
        s.subrange(pos, s.len() as int) == rgb_tail_seq(p),
    ensures
        lit_at(s, pos, "red=0x"@),
        parse_hex_spec(s, pos + "red=0x"@.len()) == Some(
            (p.rgb.red as int, pos + "red=0x"@.len() + 4),
        ),
        lit_at(s, pos + "red=0x"@.len() + 4, ", green=0x"@),
        parse_hex_spec(s, pos + "red=0x"@.len() + 4 + ", green=0x"@.len()) == Some(
            (p.rgb.green as int, pos + "red=0x"@.len() + 4 + ", green=0x"@.len() + 4),
        ),
        lit_at(s, pos + "red=0x"@.len() + 4 + ", green=0x"@.len() + 4, ", blue=0x"@),
        parse_hex_spec(s, pos + "red=0x"@.len() + 4 + ", green=0x"@.len() + 4 + ", blue=0x"@.len())
            == Some(
            (
                p.rgb.blue as int,
                pos + "red=0x"@.len() + 4 + ", green=0x"@.len() + 4 + ", blue=0x"@.len() + 4,
            ),
        ),
        lit_at(
            s,
            pos + "red=0x"@.len() + 4 + ", green=0x"@.len() + 4 + ", blue=0x"@.len() + 4,
            ")"@,
        ),
        0 <= pos + rgb_tail_len() <= s.len(),
        s.subrange(pos + rgb_tail_len(), s.len() as int) == tail_seq(p),
{
    reveal_strlit(", green=0x");
    reveal_strlit(", blue=0x");
    reveal_strlit(")");
    let u1 = hex4_seq(p.rgb.red) + (", green=0x"@ + (hex4_seq(p.rgb.green) + (", blue=0x"@
        + (hex4_seq(p.rgb.blue) + (")"@ + tail_seq(p))))));
    let u2 = ", green=0x"@ + (hex4_seq(p.rgb.green) + (", blue=0x"@ + (hex4_seq(p.rgb.blue)
        + (")"@ + tail_seq(p)))));
    let u3 = hex4_seq(p.rgb.green) + (", blue=0x"@ + (hex4_seq(p.rgb.blue) + (")"@ + tail_seq(
        p,
    ))));
    let u4 = ", blue=0x"@ + (hex4_seq(p.rgb.blue) + (")"@ + tail_seq(p)));
    let u5 = hex4_seq(p.rgb.blue) + (")"@ + tail_seq(p));
    let u6 = ")"@ + tail_seq(p);
    lemma_peel_lit(s, pos, "red=0x"@, u1);
    let q1 = pos + "red=0x"@.len();
    assert(u2.len() > 0 && u2[0] == ',');
    lemma_peel_hex4(s, q1, p.rgb.red, u2);
    let q2 = q1 + 4;
    lemma_peel_lit(s, q2, ", green=0x"@, u3);
    let q3 = q2 + ", green=0x"@.len();
    assert(u4.len() > 0 && u4[0] == ',');
    lemma_peel_hex4(s, q3, p.rgb.green, u4);
    let q4 = q3 + 4;
    lemma_peel_lit(s, q4, ", blue=0x"@, u5);
    let q5 = q4 + ", blue=0x"@.len();
    assert(u6.len() > 0 && u6[0] == ')');
    lemma_peel_hex4(s, q5, p.rgb.blue, u6);
    let q6 = q5 + 4;
    lemma_peel_lit(s, q6, ")"@, tail_seq(p));
    assert(q6 + ")"@.len() == pos + rgb_tail_len());
}

/// Evaluates the RGB grammar given the facts of the three channels.
proof fn lemma_eval_rgb(s: Seq<char>, pos: int, b: int, r1: int, g1: int, bl1: int, rgb: RGB16)
    requires
        b == pos + "RGB16("@.len(),
        r1 == b + "red=0x"@.len(),
        g1 == r1 + 4 + ", green=0x"@.len(),
        bl1 == g1 + 4 + ", blue=0x"@.len(),
        lit_at(s, pos, "RGB16("@),
        lit_at(s, b, "red=0x"@),
        parse_hex_spec(s, r1) == Some((rgb.red as int, r1 + 4)),
        lit_at(s, r1 + 4, ", green=0x"@),
        parse_hex_spec(s, g1) == Some((rgb.green as int, g1 + 4)),
        lit_at(s, g1 + 4, ", blue=0x"@),
        parse_hex_spec(s, bl1) == Some((rgb.blue as int, bl1 + 4)),
        lit_at(s, bl1 + 4, ")"@),
    ensures
        crate::record::parse_rgb_spec(s, pos) == Some((rgb, bl1 + 4 + 1)),
{
    assert(RGB16 {
        red: (rgb.red as int) as u16,
        green: (rgb.green as int) as u16,
        blue: (rgb.blue as int) as u16,
    } == rgb);
}

/// Evaluates the head of the record grammar given the facts of the tag,
/// the name and the RGB value.
proof fn lemma_eval_record(
    s: Seq<char>,
    line: usize,
    name: Seq<char>,
    rgb: RGB16,
    pq: int,
    pr: int,
    pt: int,
)
    requires
        pq == "ModelPaint("@.len() as int + "name="@.len(),
        pr == pq + name.len() + 2 + ", rgb="@.len(),
        lit_at(s, 0, "ModelPaint("@),
        lit_at(s, "ModelPaint("@.len() as int, "name="@),
        parse_quoted_spec(s, pq) == Some((name, pq + name.len() + 2)),
        name.len() > 0,
        lit_at(s, pq + name.len() + 2, ", rgb="@),
        crate::record::parse_rgb_spec(s, pr) == Some((rgb, pt)),
    ensures
        parse_record_spec(s, line) == crate::record::parse_record_tail_spec(
            s,
            pt,
            line,
            name,
            rgb,
        ),
{
    assert(crate::record::parse_tag_spec(s) == Some("ModelPaint("@.len() as int));
}

#[verifier::rlimit(100)]
proof fn lemma_round_trip_head(p: PaintSpecV, line: usize)
    requires
        p.wf(),
    ensures
        parse_record_spec(serialize_record_spec(p), line) == crate::record::parse_record_tail_spec(
            serialize_record_spec(p),
            record_tail_pos(p),
            line,
            p.name,
            p.rgb,
        ),
        0 <= record_tail_pos(p) <= serialize_record_spec(p).len(),
        serialize_record_spec(p).subrange(
            record_tail_pos(p),
            serialize_record_spec(p).len() as int,
        ) == tail_seq(p),
{
    lemma_head_part1(p);
    lemma_head_part2(serialize_record_spec(p), pos_rgb_tail(p), p);
    reveal_strlit(")");
    let s = serialize_record_spec(p);
    let pq = pos_name(p);
    let pr = pq + p.name.len() + 2 + ", rgb="@.len();
    let b = pos_rgb_tail(p);
    let r1 = b + "red=0x"@.len();
    let g1 = r1 + 4 + ", green=0x"@.len();
    let bl1 = g1 + 4 + ", blue=0x"@.len();
    assert(b == pr + "RGB16("@.len());
    assert(record_tail_pos(p) == bl1 + 4 + 1);
    assert(record_tail_pos(p) == pos_rgb_tail(p) + rgb_tail_len());
    lemma_eval_rgb(s, pr, b, r1, g1, bl1, p.rgb);
    lemma_eval_record(s, line, p.name, p.rgb, pq, pr, bl1 + 4 + 1);
}

#[verifier::rlimit(100)]
proof fn lemma_round_trip_tail(s: Seq<char>, pos: int, p: PaintSpecV, line: usize)
    requires
        p.wf(),
        0 <= pos <= s.len(),
        s.subrange(pos, s.len() as int) == tail_seq(p),
    ensures
        crate::record::parse_record_tail_spec(s, pos, line, p.name, p.rgb) == Ok::<
            PaintSpecV,
            ParseError,
        >(p),
{
    let ta = p.characteristics.transparency.abbrev_spec();
    let fa = p.characteristics.finish.abbrev_spec();
    let ma = p.characteristics.metallic.abbrev_spec();
    let fla = p.characteristics.fluorescence.abbrev_spec();
    lemma_transparency_token_round_trip(p.characteristics.transparency);
    lemma_finish_token_round_trip(p.characteristics.finish);
    lemma_metallic_token_round_trip(p.characteristics.metallic);
    lemma_fluorescence_token_round_trip(p.characteristics.fluorescence);
    reveal_strlit(")");
    let w1 = quoted_seq(p.notes) + ")"@;
    let w2 = ", notes="@ + w1;
    let w3 = quoted_seq(fla) + w2;
    let w4 = ", fluorescence="@ + w3;
    let w5 = quoted_seq(ma) + w4;
    let w6 = ", metallic="@ + w5;
    let w7 = quoted_seq(fa) + w6;
    let w8 = ", finish="@ + w7;
    let w9 = quoted_seq(ta) + w8;
    assert(s.subrange(pos, s.len() as int) == ", transparency="@ + w9);
    lemma_peel_lit(s, pos, ", transparency="@, w9);
    let v1 = pos + ", transparency="@.len();
    lemma_peel_quoted(s, v1, ta, w8);
    let v2 = v1 + ta.len() + 2;
    lemma_peel_lit(s, v2, ", finish="@, w7);
    let v3 = v2 + ", finish="@.len();
    lemma_peel_quoted(s, v3, fa, w6);
    let v4 = v3 + fa.len() + 2;
    lemma_peel_lit(s, v4, ", metallic="@, w5);
    let v5 = v4 + ", metallic="@.len();
    lemma_peel_quoted(s, v5, ma, w4);
    let v6 = v5 + ma.len() + 2;
    lemma_peel_lit(s, v6, ", fluorescence="@, w3);
    let v7 = v6 + ", fluorescence="@.len();
    lemma_peel_quoted(s, v7, fla, w2);
    let v8 = v7 + fla.len() + 2;
    lemma_peel_lit(s, v8, ", notes="@, w1);
    let v9 = v8 + ", notes="@.len();
    lemma_peel_quoted(s, v9, p.notes, ")"@);
    let v10 = v9 + p.notes.len() + 2;
    assert(")"@ =~= ")"@ + Seq::<char>::empty());
    lemma_peel_lit(s, v10, ")"@, Seq::empty());
    assert(v10 + 1 == s.len());
    // evaluate the tail of the grammar over the established facts
    assert(crate::record::parse_metallic_spec(s, v4, line) == Ok::<_, ParseError>(
        (p.characteristics.metallic, v6),
    ));
    assert(crate::record::parse_fluorescence_spec(s, v6, line) == Ok::<_, ParseError>(
        (p.characteristics.fluorescence, v8),
    ));
    assert(crate::record::parse_notes_spec(s, v8, line) == Ok::<_, ParseError>((p.notes, v10)));
    assert(ModelPaintCharacteristics {
        finish: p.characteristics.finish,
        transparency: p.characteristics.transparency,
        fluorescence: p.characteristics.fluorescence,
        metallic: p.characteristics.metallic,
    } == p.characteristics);
}

// ------------------------------------------------------------------
// The legacy shape
// ------------------------------------------------------------------

/// A legacy-shape record text: the alternate `NamedColour` tag, the
/// bare-tuple `RGB` form, and no `metallic`, `fluorescence` or `notes`
/// fields.
pub open spec fn legacy_record_seq(
    name: Seq<char>,
    rgb: RGB16,
    transparency: Transparency,
    finish: Finish,
) -> Seq<char> {
    "NamedColour("@ + "name="@ + quoted_seq(name) + ", rgb="@ + "RGB("@ + "0x"@ + hex4_seq(rgb.red)
        + ", 0x"@ + hex4_seq(rgb.green) + ", 0x"@ + hex4_seq(rgb.blue) + ")"@ + ", transparency="@
        + quoted_seq(transparency.abbrev_spec()) + ", finish="@ + quoted_seq(finish.abbrev_spec())
        + ")"@
}

/// The characteristic fields of a legacy record: transparency and finish
/// only.
spec fn legacy_tail_seq(transparency: Transparency, finish: Finish) -> Seq<char> {
    ", transparency="@ + (quoted_seq(transparency.abbrev_spec()) + (", finish="@ + (quoted_seq(
        finish.abbrev_spec(),
    ) + ")"@)))
}

/// The RGB channel values and everything after them in a legacy record,
/// from right after the `RGB(` marker.
spec fn legacy_rgb_tail_seq(rgb: RGB16, transparency: Transparency, finish: Finish) -> Seq<char> {
    "0x"@ + (hex4_seq(rgb.red) + (", 0x"@ + (hex4_seq(rgb.green) + (", 0x"@ + (hex4_seq(rgb.blue)
        + (")"@ + legacy_tail_seq(transparency, finish)))))))
}

/// A legacy record text, redivided into its name fields and the rest.
#[verifier::rlimit(100)]
proof fn lemma_legacy_nested(
    name: Seq<char>,
    rgb: RGB16,
    transparency: Transparency,
    finish: Finish,
)
    ensures
        legacy_record_seq(name, rgb, transparency, finish) == "NamedColour("@ + ("name="@ + (
        quoted_seq(name) + (", rgb="@ + ("RGB("@ + legacy_rgb_tail_seq(
            rgb,
            transparency,
            finish,
        ))))),
{
    let s = legacy_record_seq(name, rgb, transparency, finish);
    let ta = transparency.abbrev_spec();
    let fa = finish.abbrev_spec();
    let m1 = "NamedColour("@;
    let m2 = "name="@;
    let m3 = quoted_seq(name);
    let m4 = ", rgb="@;
    let m5 = "RGB("@;
    let m6 = "0x"@;
    let m7 = hex4_seq(rgb.red);
    let m8 = ", 0x"@;
    let m9 = hex4_seq(rgb.green);
    let m10 = ", 0x"@;
    let m11 = hex4_seq(rgb.blue);
    let m12 = ")"@;
    let m13 = ", transparency="@;
    let m14 = quoted_seq(ta);
    let m15 = ", finish="@;
    let m16 = quoted_seq(fa);
    let m17 = ")"@;
    let l1 = m1;
    let l2 = l1 + m2;
    let l3 = l2 + m3;
    let l4 = l3 + m4;
    let l5 = l4 + m5;
    let l6 = l5 + m6;
    let l7 = l6 + m7;
    let l8 = l7 + m8;
    let l9 = l8 + m9;
    let l10 = l9 + m10;
    let l11 = l10 + m11;
    let l12 = l11 + m12;
    let l13 = l12 + m13;
    let l14 = l13 + m14;
    let l15 = l14 + m15;
    let l16 = l15 + m16;
    assert(s == l16 + m17);
    let t17 = m17;
    let t16 = m16 + t17;
    let t15 = m15 + t16;
    let t14 = m14 + t15;
    let t13 = m13 + t14;
    let t12 = m12 + t13;
    let t11 = m11 + t12;
    let t10 = m10 + t11;
    let t9 = m9 + t10;
    let t8 = m8 + t9;
    let t7 = m7 + t8;
    let t6 = m6 + t7;
    let t5 = m5 + t6;
    let t4 = m4 + t5;
    let t3 = m3 + t4;
    let t2 = m2 + t3;
    lemma_seq_assoc(l15, m16, m17);
    lemma_seq_assoc(l14, m15, t16);
    lemma_seq_assoc(l13, m14, t15);
    lemma_seq_assoc(l12, m13, t14);
    lemma_seq_assoc(l11, m12, t13);
    lemma_seq_assoc(l10, m11, t12);
    lemma_seq_assoc(l9, m10, t11);
    lemma_seq_assoc(l8, m9, t10);
    lemma_seq_assoc(l7, m8, t9);
    lemma_seq_assoc(l6, m7, t8);
    lemma_seq_assoc(l5, m6, t7);
    lemma_seq_assoc(l4, m5, t6);
    lemma_seq_assoc(l3, m4, t5);
    lemma_seq_assoc(l2, m3, t4);
    lemma_seq_assoc(l1, m2, t3);
    assert(t13 == legacy_tail_seq(transparency, finish));
    assert(t6 == legacy_rgb_tail_seq(rgb, transparency, finish));
    assert(s == m1 + t2);
}

/// Where the quoted name of a legacy record starts.
spec fn legacy_pos_name() -> int {
    "NamedColour("@.len() as int + "name="@.len()
}

/// Where the RGB channel values of a legacy record start.
spec fn legacy_pos_rgb_tail(name: Seq<char>) -> int {
    legacy_pos_name() + name.len() + 2 + ", rgb="@.len() + "RGB("@.len()
}

#[verifier::rlimit(100)]
proof fn lemma_legacy_part1(
    name: Seq<char>,
    rgb: RGB16,
    transparency: Transparency,
    finish: Finish,
)
    requires
        name.len() > 0,
        !name.contains('"'),
    ensures
        lit_at(legacy_record_seq(name, rgb, transparency, finish), 0, "NamedColour("@),
        lit_at(
            legacy_record_seq(name, rgb, transparency, finish),
            "NamedColour("@.len() as int,
            "name="@,
        ),
        parse_quoted_spec(legacy_record_seq(name, rgb, transparency, finish), legacy_pos_name())
            == Some((name, legacy_pos_name() + name.len() + 2)),
        lit_at(
            legacy_record_seq(name, rgb, transparency, finish),
            legacy_pos_name() + name.len() + 2,
            ", rgb="@,
        ),
        lit_at(
            legacy_record_seq(name, rgb, transparency, finish),
            legacy_pos_name() + name.len() + 2 + ", rgb="@.len(),
            "RGB("@,
        ),
        0 <= legacy_pos_rgb_tail(name) <= legacy_record_seq(name, rgb, transparency, finish).len(),
        legacy_record_seq(name, rgb, transparency, finish).subrange(
            legacy_pos_rgb_tail(name),
            legacy_record_seq(name, rgb, transparency, finish).len() as int,
        ) == legacy_rgb_tail_seq(rgb, transparency, finish),
{
    lemma_legacy_nested(name, rgb, transparency, finish);
    let s = legacy_record_seq(name, rgb, transparency, finish);
    let rt = legacy_rgb_tail_seq(rgb, transparency, finish);
    let r1 = "name="@ + (quoted_seq(name) + (", rgb="@ + ("RGB("@ + rt)));
    let r2 = quoted_seq(name) + (", rgb="@ + ("RGB("@ + rt));
    let r3 = ", rgb="@ + ("RGB("@ + rt);
    let r4 = "RGB("@ + rt;
    assert(s.subrange(0, s.len() as int) =~= s);
    lemma_peel_lit(s, 0, "NamedColour("@, r1);
    let q1 = "NamedColour("@.len() as int;
    lemma_peel_lit(s, q1, "name="@, r2);
    let q2 = q1 + "name="@.len();
    lemma_peel_quoted(s, q2, name, r3);
    let q3 = q2 + name.len() + 2;
    lemma_peel_lit(s, q3, ", rgb="@, r4);
    let q4 = q3 + ", rgb="@.len();
    lemma_peel_lit(s, q4, "RGB("@, rt);
}

/// How far the bare-tuple RGB channel values reach.
spec fn legacy_rgb_tail_len() -> int {
    "0x"@.len() as int + 4 + ", 0x"@.len() + 4 + ", 0x"@.len() + 4 + ")"@.len()
}

#[verifier::rlimit(100)]
proof fn lemma_legacy_part2(
    s: Seq<char>,
    pos: int,
    rgb: RGB16,
    transparency: Transparency,
    finish: Finish,
)
    requires
        0 <= pos <= s.len(),
        s.subrange(pos, s.len() as int) == legacy_rgb_tail_seq(rgb, transparency, finish),
    ensures
        lit_at(s, pos, "0x"@),
        parse_hex_spec(s, pos + "0x"@.len()) == Some((rgb.red as int, pos + "0x"@.len() + 4)),
        lit_at(s, pos + "0x"@.len() + 4, ", 0x"@),
        parse_hex_spec(s, pos + "0x"@.len() + 4 + ", 0x"@.len()) == Some(
            (rgb.green as int, pos + "0x"@.len() + 4 + ", 0x"@.len() + 4),
        ),
        lit_at(s, pos + "0x"@.len() + 4 + ", 0x"@.len() + 4, ", 0x"@),
        parse_hex_spec(s, pos + "0x"@.len() + 4 + ", 0x"@.len() + 4 + ", 0x"@.len()) == Some(
            (rgb.blue as int, pos + "0x"@.len() + 4 + ", 0x"@.len() + 4 + ", 0x"@.len() + 4),
        ),
        lit_at(s, pos + "0x"@.len() + 4 + ", 0x"@.len() + 4 + ", 0x"@.len() + 4, ")"@),
        0 <= pos + legacy_rgb_tail_len() <= s.len(),
        s.subrange(pos + legacy_rgb_tail_len(), s.len() as int) == legacy_tail_seq(
            transparency,
            finish,
        ),
{
    reveal_strlit(", 0x");
    reveal_strlit(")");
    let lt = legacy_tail_seq(transparency, finish);
    let u1 = hex4_seq(rgb.red) + (", 0x"@ + (hex4_seq(rgb.green) + (", 0x"@ + (hex4_seq(rgb.blue)
        + (")"@ + lt)))));
    let u2 = ", 0x"@ + (hex4_seq(rgb.green) + (", 0x"@ + (hex4_seq(rgb.blue) + (")"@ + lt))));
    let u3 = hex4_seq(rgb.green) + (", 0x"@ + (hex4_seq(rgb.blue) + (")"@ + lt)));
    let u4 = ", 0x"@ + (hex4_seq(rgb.blue) + (")"@ + lt));
    let u5 = hex4_seq(rgb.blue) + (")"@ + lt);
    let u6 = ")"@ + lt;
    lemma_peel_lit(s, pos, "0x"@, u1);
    let q1 = pos + "0x"@.len();
    assert(u2.len() > 0 && u2[0] == ',');
    lemma_peel_hex4(s, q1, rgb.red, u2);
    let q2 = q1 + 4;
    lemma_peel_lit(s, q2, ", 0x"@, u3);
    let q3 = q2 + ", 0x"@.len();
    assert(u4.len() > 0 && u4[0] == ',');
    lemma_peel_hex4(s, q3, rgb.green, u4);
    let q4 = q3 + 4;
    lemma_peel_lit(s, q4, ", 0x"@, u5);
    let q5 = q4 + ", 0x"@.len();
    assert(u6.len() > 0 && u6[0] == ')');
    lemma_peel_hex4(s, q5, rgb.blue, u6);
    let q6 = q5 + 4;
    lemma_peel_lit(s, q6, ")"@, lt);
    assert(q6 + ")"@.len() == pos + legacy_rgb_tail_len());
}

/// Evaluates the RGB grammar in its bare-tuple form.
proof fn lemma_eval_rgb_bare(
    s: Seq<char>,
    pos: int,
    b: int,
    r1: int,
    g1: int,
    bl1: int,
    rgb: RGB16,
)
    requires
        b == pos + "RGB("@.len(),
        r1 == b + "0x"@.len(),
        g1 == r1 + 4 + ", 0x"@.len(),
        bl1 == g1 + 4 + ", 0x"@.len(),
        lit_at(s, pos, "RGB("@),
        lit_at(s, b, "0x"@),
        parse_hex_spec(s, r1) == Some((rgb.red as int, r1 + 4)),
        lit_at(s, r1 + 4, ", 0x"@),
        parse_hex_spec(s, g1) == Some((rgb.green as int, g1 + 4)),
        lit_at(s, g1 + 4, ", 0x"@),
        parse_hex_spec(s, bl1) == Some((rgb.blue as int, bl1 + 4)),
        lit_at(s, bl1 + 4, ")"@),
    ensures
        crate::record::parse_rgb_spec(s, pos) == Some((rgb, bl1 + 4 + 1)),
{
    reveal_strlit("RGB16(");
    reveal_strlit("RGB(");
    reveal_strlit("red=0x");
    reveal_strlit("0x");
    assert(s[pos + 3] == '(') by {
        assert(s.subrange(pos, pos + "RGB("@.len() as int)[3] == "RGB("@[3]);
    }
    assert(!lit_at(s, pos, "RGB16("@)) by {
        if lit_at(s, pos, "RGB16("@) {
            assert(s.subrange(pos, pos + "RGB16("@.len() as int)[3] == "RGB16("@[3]);
        }
    }
    assert(s[b] == '0') by {
        assert(s.subrange(b, b + "0x"@.len() as int)[0] == "0x"@[0]);
    }
    assert(!lit_at(s, b, "red=0x"@)) by {
        if lit_at(s, b, "red=0x"@) {
            assert(s.subrange(b, b + "red=0x"@.len() as int)[0] == "red=0x"@[0]);
        }
    }
    assert(RGB16 {
        red: (rgb.red as int) as u16,
        green: (rgb.green as int) as u16,
        blue: (rgb.blue as int) as u16,
    } == rgb);
}

/// Evaluates the head of the record grammar for a legacy-tagged record.
proof fn lemma_eval_record_legacy(
    s: Seq<char>,
    line: usize,
    name: Seq<char>,
    rgb: RGB16,
    pq: int,
    pr: int,
    pt: int,
)
    requires
        pq == "NamedColour("@.len() as int + "name="@.len(),
        pr == pq + name.len() + 2 + ", rgb="@.len(),
        lit_at(s, 0, "NamedColour("@),
        lit_at(s, "NamedColour("@.len() as int, "name="@),
        parse_quoted_spec(s, pq) == Some((name, pq + name.len() + 2)),
        name.len() > 0,
        lit_at(s, pq + name.len() + 2, ", rgb="@),
        crate::record::parse_rgb_spec(s, pr) == Some((rgb, pt)),
    ensures
        parse_record_spec(s, line) == crate::record::parse_record_tail_spec(
            s,
            pt,
            line,
            name,
            rgb,
        ),
{
    reveal_strlit("ModelPaint(");
    reveal_strlit("NamedColour(");
    assert(s[0] == 'N') by {
        assert(s.subrange(0, "NamedColour("@.len() as int)[0] == "NamedColour("@[0]);
    }
    assert(!lit_at(s, 0, "ModelPaint("@)) by {
        if lit_at(s, 0, "ModelPaint("@) {
            assert(s.subrange(0, "ModelPaint("@.len() as int)[0] == "ModelPaint("@[0]);
        }
    }
    assert(crate::record::parse_tag_spec(s) == Some("NamedColour("@.len() as int));
}

/// Peels and evaluates the two characteristic fields of a legacy record
/// and the absent optional fields.
#[verifier::rlimit(100)]
proof fn lemma_legacy_part3(
    s: Seq<char>,
    pos: int,
    name: Seq<char>,
    rgb: RGB16,
    transparency: Transparency,
    finish: Finish,
    line: usize,
)
    requires
        0 <= pos <= s.len(),
        s.subrange(pos, s.len() as int) == legacy_tail_seq(transparency, finish),
    ensures
        crate::record::parse_record_tail_spec(s, pos, line, name, rgb) == Ok::<
            PaintSpecV,
            ParseError,
        >(
            PaintSpecV {
                name,
                rgb,
                characteristics: ModelPaintCharacteristics::with_legacy_defaults(
                    finish,
                    transparency,
                ),
                notes: Seq::empty(),
            },
        ),
{
    let ta = transparency.abbrev_spec();
    let fa = finish.abbrev_spec();
    lemma_transparency_token_round_trip(transparency);
    lemma_finish_token_round_trip(finish);
    reveal_strlit(")");
    reveal_strlit(", metallic=");
    reveal_strlit(", fluorescence=");
    reveal_strlit(", notes=");
    let w1 = quoted_seq(fa) + ")"@;
    let w2 = ", finish="@ + w1;
    let w3 = quoted_seq(ta) + w2;
    assert(s.subrange(pos, s.len() as int) == ", transparency="@ + w3);
    lemma_peel_lit(s, pos, ", transparency="@, w3);
    let v1 = pos + ", transparency="@.len();
    lemma_peel_quoted(s, v1, ta, w2);
    let v2 = v1 + ta.len() + 2;
    lemma_peel_lit(s, v2, ", finish="@, w1);
    let v3 = v2 + ", finish="@.len();
    lemma_peel_quoted(s, v3, fa, ")"@);
    let v4 = v3 + fa.len() + 2;
    assert(")"@ =~= ")"@ + Seq::<char>::empty());
    lemma_peel_lit(s, v4, ")"@, Seq::empty());
    assert(v4 + 1 == s.len());
    assert(!lit_at(s, v4, ", metallic="@));
    assert(!lit_at(s, v4, ", fluorescence="@));
    assert(!lit_at(s, v4, ", notes="@));
    assert(crate::record::parse_metallic_spec(s, v4, line) == Ok::<_, ParseError>(
        (Metallic::Nonmetallic, v4),
    ));
    assert(crate::record::parse_fluorescence_spec(s, v4, line) == Ok::<_, ParseError>(
        (Fluorescence::Nonfluorescent, v4),
    ));
    assert(crate::record::parse_notes_spec(s, v4, line) == Ok::<_, ParseError>(
        (Seq::<char>::empty(), v4),
    ));
}

/// A legacy-shape record, which has no fluorescence or metallicness
/// fields, decodes to the "non-" variant of each and to empty notes: the
/// backward-compatibility law, for every name the format can carry and
/// every colour, transparency and finish.
pub proof fn lemma_legacy_record_defaults(
    name: Seq<char>,
    rgb: RGB16,
    transparency: Transparency,
    finish: Finish,
    line: usize,
)
    requires
        name.len() > 0,
        !name.contains('"'),
    ensures
        parse_record_spec(legacy_record_seq(name, rgb, transparency, finish), line) == Ok::<
            PaintSpecV,
            ParseError,
        >(
            PaintSpecV {
                name,
                rgb,
                characteristics: ModelPaintCharacteristics::with_legacy_defaults(
                    finish,
                    transparency,
                ),
                notes: Seq::empty(),
            },
        ),
{
    let s = legacy_record_seq(name, rgb, transparency, finish);
    lemma_legacy_part1(name, rgb, transparency, finish);
    lemma_legacy_part2(s, legacy_pos_rgb_tail(name), rgb, transparency, finish);
    reveal_strlit(")");
    let pq = legacy_pos_name();
    let pr = pq + name.len() + 2 + ", rgb="@.len();
    let b = legacy_pos_rgb_tail(name);
    let r1 = b + "0x"@.len();
    let g1 = r1 + 4 + ", 0x"@.len();
    let bl1 = g1 + 4 + ", 0x"@.len();
    assert(b == pr + "RGB("@.len());
    lemma_eval_rgb_bare(s, pr, b, r1, g1, bl1, rgb);
    lemma_eval_record_legacy(s, line, name, rgb, pq, pr, bl1 + 4 + 1);
    assert(bl1 + 4 + 1 == b + legacy_rgb_tail_len());
    lemma_legacy_part3(s, bl1 + 4 + 1, name, rgb, transparency, finish, line);
}

/// Serializing a record to the current shape and parsing the text back
/// yields the same record, whatever line number the parse reports errors
/// under: the round-trip law of the format, for every record value the
/// format can carry.
pub proof fn lemma_record_round_trip(p: PaintSpecV, line: usize)
    requires
        p.wf(),
    ensures
        parse_record_spec(serialize_record_spec(p), line) == Ok::<PaintSpecV, ParseError>(p),
{
    lemma_round_trip_head(p, line);
    lemma_round_trip_tail(serialize_record_spec(p), record_tail_pos(p), p, line);
}

} // verus!

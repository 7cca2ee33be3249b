use mcmmtk::characteristics::Finish;
use mcmmtk::characteristics::Fluorescence;
use mcmmtk::characteristics::Metallic;
use mcmmtk::characteristics::ModelPaintCharacteristics;
use mcmmtk::characteristics::Transparency;
use mcmmtk::error::ParseError;
use mcmmtk::error::RecordField;
use mcmmtk::paint::PaintSpec;
use mcmmtk::paint::RGB16;
use mcmmtk::record::parse_record;
use mcmmtk::record::serialize_record;

#[test]
fn paint_model_paint() {
    let test_str = r#"ModelPaint(name="71.001 White", rgb=RGB16(red=0xF800, green=0xFA00, blue=0xF600), transparency="O", finish="F", metallic="NM", fluorescence="NF", notes="FS37925 RAL9016 RLM21")"#.to_string();
    if let Ok(spec) = parse_record(&test_str) {
        assert_eq!(spec.name, "71.001 White");
        assert_eq!(spec.characteristics.finish, Finish::Flat);
        assert_eq!(spec.characteristics.transparency, Transparency::Opaque);
        assert_eq!(spec.characteristics.fluorescence, Fluorescence::Nonfluorescent);
        assert_eq!(spec.characteristics.metallic, Metallic::Nonmetallic);
        assert_eq!(spec.notes, "FS37925 RAL9016 RLM21");
        let rgb16 = spec.rgb;
        assert_eq!(rgb16.red, u16::from_str_radix("F800", 16).unwrap());
        assert_eq!(rgb16.green, u16::from_str_radix("FA00", 16).unwrap());
        assert_eq!(rgb16.blue, u16::from_str_radix("F600", 16).unwrap());
    } else {
        panic!("expected a successful parse")
    }
}

#[test]
fn paint_model_paint_obsolete() {
    let test_str = r#"NamedColour(name="XF 2: Flat White *", rgb=RGB16(0xF800, 0xFA00, 0xF600), transparency="O", finish="F")"#.to_string();
    if let Ok(spec) = parse_record(&test_str) {
        assert_eq!(spec.name, "XF 2: Flat White *");
        assert_eq!(spec.characteristics.finish, Finish::Flat);
        assert_eq!(spec.characteristics.transparency, Transparency::Opaque);
        assert_eq!(spec.characteristics.fluorescence, Fluorescence::Nonfluorescent);
        assert_eq!(spec.characteristics.metallic, Metallic::Nonmetallic);
        assert_eq!(spec.notes, "");
        let rgb16 = spec.rgb;
        assert_eq!(rgb16.red, u16::from_str_radix("F800", 16).unwrap());
        assert_eq!(rgb16.green, u16::from_str_radix("FA00", 16).unwrap());
        assert_eq!(rgb16.blue, u16::from_str_radix("F600", 16).unwrap());
    } else {
        panic!("expected a successful parse")
    }
}

fn sample_paint() -> PaintSpec {
    PaintSpec {
        name: "71.001 White".to_string(),
        rgb: RGB16 { red: 0xF800, green: 0xFA00, blue: 0xF600 },
        characteristics: ModelPaintCharacteristics {
            finish: Finish::Flat,
            transparency: Transparency::Opaque,
            fluorescence: Fluorescence::Nonfluorescent,
            metallic: Metallic::Nonmetallic,
        },
        notes: "FS37925 RAL9016 RLM21".to_string(),
    }
}

#[test]
fn serialize_exact_text() {
    let text = serialize_record(&sample_paint());
    assert_eq!(
        text,
        r#"ModelPaint(name="71.001 White", rgb=RGB16(red=0xF800, green=0xFA00, blue=0xF600), transparency="O", finish="F", metallic="NM", fluorescence="NF", notes="FS37925 RAL9016 RLM21")"#
    );
}

#[test]
fn serialize_parse_round_trip() {
    let paint = sample_paint();
    let text = serialize_record(&paint);
    let back = parse_record(&text).unwrap();
    assert_eq!(back.name, paint.name);
    assert_eq!(back.rgb, paint.rgb);
    assert_eq!(back.characteristics, paint.characteristics);
    assert_eq!(back.notes, paint.notes);
}

#[test]
fn serialize_parse_round_trip_metallic() {
    let paint = PaintSpec {
        name: "Gunmetal".to_string(),
        rgb: RGB16 { red: 0x1234, green: 0x0, blue: 0xFFFF },
        characteristics: ModelPaintCharacteristics {
            finish: Finish::Satin,
            transparency: Transparency::SemiTransparent,
            fluorescence: Fluorescence::Fluorescent,
            metallic: Metallic::Metallic,
        },
        notes: String::new(),
    };
    let text = serialize_record(&paint);
    let back = parse_record(&text).unwrap();
    assert_eq!(back.name, paint.name);
    assert_eq!(back.rgb, paint.rgb);
    assert_eq!(back.characteristics, paint.characteristics);
    assert_eq!(back.notes, paint.notes);
}

#[test]
fn record_bad_tag() {
    let r = parse_record(r#"Paint(name="x", rgb=RGB16(red=0x0, green=0x0, blue=0x0), transparency="O", finish="G")"#);
    assert_eq!(r.unwrap_err(), ParseError::MalformedRecord { line: 1, field: RecordField::Tag });
}

#[test]
fn record_unmatched_quote() {
    let r = parse_record(r#"ModelPaint(name="x, rgb=RGB16(red=0x0, green=0x0, blue=0x0)"#);
    assert_eq!(r.unwrap_err(), ParseError::MalformedRecord { line: 1, field: RecordField::Name });
}

#[test]
fn record_empty_name() {
    let r = parse_record(r#"ModelPaint(name="", rgb=RGB16(red=0x0, green=0x0, blue=0x0), transparency="O", finish="G")"#);
    assert_eq!(r.unwrap_err(), ParseError::MalformedRecord { line: 1, field: RecordField::Name });
}

#[test]
fn record_bad_rgb() {
    let r = parse_record(r#"ModelPaint(name="x", rgb=RGB16(red=0x12345, green=0x0, blue=0x0), transparency="O", finish="G")"#);
    assert_eq!(r.unwrap_err(), ParseError::MalformedRecord { line: 1, field: RecordField::Rgb });
}

#[test]
fn record_bad_transparency_token() {
    let r = parse_record(r#"ModelPaint(name="x", rgb=RGB16(red=0x0, green=0x0, blue=0x0), transparency="Q", finish="G")"#);
    assert_eq!(r.unwrap_err(), ParseError::MalformedRecord { line: 1, field: RecordField::Transparency });
}

#[test]
fn record_bad_finish_token() {
    let r = parse_record(r#"ModelPaint(name="x", rgb=RGB16(red=0x0, green=0x0, blue=0x0), transparency="O", finish="Z")"#);
    assert_eq!(r.unwrap_err(), ParseError::MalformedRecord { line: 1, field: RecordField::Finish });
}

#[test]
fn record_trailing_garbage() {
    let r = parse_record(r#"ModelPaint(name="x", rgb=RGB16(red=0x0, green=0x0, blue=0x0), transparency="O", finish="G") "#);
    assert_eq!(r.unwrap_err(), ParseError::MalformedRecord { line: 1, field: RecordField::Close });
}

#[test]
fn record_short_hex_accepted() {
    let spec = parse_record(
        r#"ModelPaint(name="x", rgb=RGB16(red=0x0, green=0xA, blue=0xFFFF), transparency="O", finish="G")"#,
    )
    .unwrap();
    assert_eq!(spec.rgb, RGB16 { red: 0, green: 0xA, blue: 0xFFFF });
}

#[test]
fn record_legacy_rgb_tag() {
    let spec = parse_record(
        r#"NamedColour(name="XF 1: Flat Black *", rgb=RGB(0x2D00, 0x2B00, 0x3000), transparency="O", finish="F")"#,
    )
    .unwrap();
    assert_eq!(spec.rgb, RGB16 { red: 0x2D00, green: 0x2B00, blue: 0x3000 });
    assert_eq!(spec.characteristics.fluorescence, Fluorescence::Nonfluorescent);
    assert_eq!(spec.characteristics.metallic, Metallic::Nonmetallic);
}

#[test]
fn well_formed_names_and_notes() {
    assert!(sample_paint().is_well_formed());
    let mut bad = sample_paint();
    bad.name = String::new();
    assert!(!bad.is_well_formed());
    let mut quoted = sample_paint();
    quoted.notes = "say \"hi\"".to_string();
    assert!(!quoted.is_well_formed());
}

#[test]
fn record_field_names() {
    assert_eq!(RecordField::Name.name(), "name");
    assert_eq!(RecordField::Fluorescence.name(), "fluorescence");
}

use mcmmtk::document::parse_document;
use mcmmtk::error::ParseError;
use mcmmtk::paint::RGB16;
use mcmmtk::series::create_ideal_model_paint_series;

const IDEAL_PAINT_STR: &str = "Manufacturer: Imaginary
Series: Ideal Paint Colours Series
ModelPaint(name=\"Black\", rgb=RGB16(red=0x0, green=0x0, blue=0x0), transparency=\"O\", finish=\"G\", metallic=\"NM\", fluorescence=\"NF\", notes=\"\")
ModelPaint(name=\"Blue\", rgb=RGB16(red=0x0, green=0x0, blue=0xFFFF), transparency=\"O\", finish=\"G\", metallic=\"NM\", fluorescence=\"NF\", notes=\"\")
ModelPaint(name=\"Cyan\", rgb=RGB16(red=0x0, green=0xFFFF, blue=0xFFFF), transparency=\"O\", finish=\"G\", metallic=\"NM\", fluorescence=\"NF\", notes=\"\")
ModelPaint(name=\"Green\", rgb=RGB16(red=0x0, green=0xFFFF, blue=0x0), transparency=\"O\", finish=\"G\", metallic=\"NM\", fluorescence=\"NF\", notes=\"\")
ModelPaint(name=\"Magenta\", rgb=RGB16(red=0xFFFF, green=0x0, blue=0xFFFF), transparency=\"O\", finish=\"G\", metallic=\"NM\", fluorescence=\"NF\", notes=\"\")
ModelPaint(name=\"Red\", rgb=RGB16(red=0xFFFF, green=0x0, blue=0x0), transparency=\"O\", finish=\"G\", metallic=\"NM\", fluorescence=\"NF\", notes=\"\")
ModelPaint(name=\"White\", rgb=RGB16(red=0xFFFF, green=0xFFFF, blue=0xFFFF), transparency=\"O\", finish=\"G\", metallic=\"NM\", fluorescence=\"NF\", notes=\"\")
ModelPaint(name=\"Yellow\", rgb=RGB16(red=0xFFFF, green=0xFFFF, blue=0x0), transparency=\"O\", finish=\"G\", metallic=\"NM\", fluorescence=\"NF\", notes=\"\")";

const OBSOLETE_PAINT_STR: &str = "Manufacturer: Tamiya
Series: Flat Acrylic (Peter Williams Digital Samples #3)
NamedColour(name=\"XF 1: Flat Black *\", rgb=RGB(0x2D00, 0x2B00, 0x3000), transparency=\"O\", finish=\"F\")
NamedColour(name=\"XF 2: Flat White *\", rgb=RGB(0xFE00, 0xFE00, 0xFE00), transparency=\"O\", finish=\"F\")
NamedColour(name=\"XF 3: Flat Yellow *\", rgb=RGB(0xF800, 0xCD00, 0x2900), transparency=\"O\", finish=\"F\")
NamedColour(name=\"XF 4: Yellow Green *\", rgb=RGB(0xAA00, 0xAE00, 0x4000), transparency=\"O\", finish=\"F\")
";

const RED: RGB16 = RGB16 { red: 0xFFFF, green: 0, blue: 0 };
const GREEN: RGB16 = RGB16 { red: 0, green: 0xFFFF, blue: 0 };
const BLUE: RGB16 = RGB16 { red: 0, green: 0, blue: 0xFFFF };
const CYAN: RGB16 = RGB16 { red: 0, green: 0xFFFF, blue: 0xFFFF };
const MAGENTA: RGB16 = RGB16 { red: 0xFFFF, green: 0, blue: 0xFFFF };
const YELLOW: RGB16 = RGB16 { red: 0xFFFF, green: 0xFFFF, blue: 0 };
const BLACK: RGB16 = RGB16 { red: 0, green: 0, blue: 0 };
const WHITE: RGB16 = RGB16 { red: 0xFFFF, green: 0xFFFF, blue: 0xFFFF };

#[test]
fn paint_model_paint_ideal_series() {
    if let Ok(series) = parse_document(IDEAL_PAINT_STR) {
        for pair in [
            ("Red", RED),
            ("Green", GREEN),
            ("Blue", BLUE),
            ("Cyan", CYAN),
            ("Magenta", MAGENTA),
            ("Yellow", YELLOW),
            ("Black", BLACK),
            ("White", WHITE),
        ]
        .iter()
        {
            assert_eq!(series.get_paint(pair.0).unwrap().rgb, pair.1);
        }
    } else {
        panic!("expected a successful parse")
    }
    let series = create_ideal_model_paint_series();
    for pair in [
        ("Red", RED),
        ("Green", GREEN),
        ("Blue", BLUE),
        ("Cyan", CYAN),
        ("Magenta", MAGENTA),
        ("Yellow", YELLOW),
        ("Black", BLACK),
        ("White", WHITE),
    ]
    .iter()
    {
        assert_eq!(series.get_paint(pair.0).unwrap().rgb, pair.1);
    }
}

#[test]
fn paint_model_paint_obsolete_series() {
    match parse_document(OBSOLETE_PAINT_STR) {
        Ok(series) => {
            for pair in [
                ("XF 1: Flat Black *", RGB16 { red: 0x2D00, green: 0x2B00, blue: 0x3000 }),
                ("XF 2: Flat White *", RGB16 { red: 0xFE00, green: 0xFE00, blue: 0xFE00 }),
                ("XF 3: Flat Yellow *", RGB16 { red: 0xF800, green: 0xCD00, blue: 0x2900 }),
                ("XF 4: Yellow Green *", RGB16 { red: 0xAA00, green: 0xAE00, blue: 0x4000 }),
            ]
            .iter()
            {
                assert_eq!(series.get_paint(pair.0).unwrap().rgb, pair.1);
            }
        },
        Err(err) => panic!("expected a successful parse: {:?}", err),
    }
}

#[test]
fn ideal_series_identity_and_names() {
    let series = parse_document(IDEAL_PAINT_STR).unwrap();
    assert_eq!(series.identity().manufacturer, "Imaginary");
    assert_eq!(series.identity().series_name, "Ideal Paint Colours Series");
    assert_eq!(series.len(), 8);
    assert!(series.get_paint("Vermilion").is_none());
}

#[test]
fn document_duplicate_paint_name() {
    let text = "Manufacturer: M
Series: S
ModelPaint(name=\"Red\", rgb=RGB16(red=0xFFFF, green=0x0, blue=0x0), transparency=\"O\", finish=\"G\", metallic=\"NM\", fluorescence=\"NF\", notes=\"\")
ModelPaint(name=\"Red\", rgb=RGB16(red=0xF000, green=0x0, blue=0x0), transparency=\"O\", finish=\"G\", metallic=\"NM\", fluorescence=\"NF\", notes=\"\")";
    assert_eq!(parse_document(text).unwrap_err(), ParseError::DuplicatePaintName { line: 4 });
}

#[test]
fn document_missing_header() {
    assert_eq!(parse_document("").unwrap_err(), ParseError::MissingHeader);
    assert_eq!(parse_document("Manufacturer: M").unwrap_err(), ParseError::MissingHeader);
    assert_eq!(parse_document("Series: S\nManufacturer: M").unwrap_err(), ParseError::MissingHeader);
}

#[test]
fn document_malformed_record_line() {
    let text = "Manufacturer: M
Series: S

ModelPaint(name=\"Red\", rgb=RGB16(red=0xFFFF, green=0x0, blue=0x0), transparency=\"O\", finish=\"G\", metallic=\"NM\", fluorescence=\"NF\", notes=\"\")
not a record";
    match parse_document(text) {
        Err(ParseError::MalformedRecord { line, .. }) => assert_eq!(line, 5),
        other => panic!("unexpected result: {:?}", other),
    }
}

#[test]
fn document_blank_lines_skipped() {
    let text = "Manufacturer: M
Series: S

ModelPaint(name=\"Red\", rgb=RGB16(red=0xFFFF, green=0x0, blue=0x0), transparency=\"O\", finish=\"G\", metallic=\"NM\", fluorescence=\"NF\", notes=\"\")
";
    let series = parse_document(text).unwrap();
    assert_eq!(series.len(), 1);
    assert_eq!(series.get_paint("Red").unwrap().rgb, RED);
}

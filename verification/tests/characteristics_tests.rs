use mcmmtk::characteristics::Finish;
use mcmmtk::characteristics::Fluorescence;
use mcmmtk::characteristics::Metallic;
use mcmmtk::characteristics::ModelPaintCharacteristics;
use mcmmtk::characteristics::Transparency;
use mcmmtk::error::ParseError;

#[test]
fn finish_position_round_trip() {
    for v in [Finish::Gloss, Finish::Satin, Finish::Flat] {
        assert_eq!(Finish::from_position(v.to_position()), v);
    }
}

#[test]
fn transparency_position_round_trip() {
    for v in [
        Transparency::Opaque,
        Transparency::SemiOpaque,
        Transparency::SemiTransparent,
        Transparency::Transparent,
    ] {
        assert_eq!(Transparency::from_position(v.to_position()), v);
    }
}

#[test]
fn fluorescence_position_round_trip() {
    for v in [Fluorescence::Nonfluorescent, Fluorescence::Fluorescent] {
        assert_eq!(Fluorescence::from_position(v.to_position()), v);
    }
}

#[test]
fn metallic_position_round_trip() {
    for v in [Metallic::Nonmetallic, Metallic::Metallic] {
        assert_eq!(Metallic::from_position(v.to_position()), v);
    }
}

#[test]
fn from_position_picks_nearest() {
    // positions beyond the last variant clamp to it
    assert_eq!(Finish::from_position(7), Finish::Flat);
    assert_eq!(Transparency::from_position(99), Transparency::Transparent);
    assert_eq!(Fluorescence::from_position(2), Fluorescence::Fluorescent);
    assert_eq!(Metallic::from_position(5), Metallic::Metallic);
}

#[test]
fn characteristics_positions_round_trip() {
    let c = ModelPaintCharacteristics {
        finish: Finish::Satin,
        transparency: Transparency::SemiOpaque,
        fluorescence: Fluorescence::Fluorescent,
        metallic: Metallic::Metallic,
    };
    let positions = c.to_positions();
    assert_eq!(positions, vec![1, 1, 1, 1]);
    assert_eq!(ModelPaintCharacteristics::from_positions(&positions), c);
}

#[test]
fn abbreviations_and_descriptions() {
    assert_eq!(Finish::Gloss.abbreviation(), "G");
    assert_eq!(Finish::Satin.abbreviation(), "S");
    assert_eq!(Finish::Flat.abbreviation(), "F");
    assert_eq!(Transparency::Opaque.abbreviation(), "O");
    assert_eq!(Transparency::Transparent.abbreviation(), "T");
    assert_eq!(Fluorescence::Nonfluorescent.abbreviation(), "NF");
    assert_eq!(Metallic::Nonmetallic.abbreviation(), "NM");
    assert_eq!(Finish::Gloss.description(), "gloss");
    assert_eq!(Transparency::SemiTransparent.description(), "semi-transparent");
    assert_eq!(Fluorescence::Fluorescent.description(), "fluorescent");
    assert_eq!(Metallic::Metallic.description(), "metallic");
}

#[test]
fn parse_tokens() {
    assert_eq!(Finish::parse("G"), Ok(Finish::Gloss));
    assert_eq!(Finish::parse("Flat"), Ok(Finish::Flat));
    assert_eq!(Transparency::parse("O"), Ok(Transparency::Opaque));
    assert_eq!(Transparency::parse("SemiOpaque"), Ok(Transparency::SemiOpaque));
    assert_eq!(Fluorescence::parse("Fl"), Ok(Fluorescence::Fluorescent));
    assert_eq!(Metallic::parse("M"), Ok(Metallic::Metallic));
}

#[test]
fn parse_unknown_token() {
    assert_eq!(Finish::parse("shiny"), Err(ParseError::UnknownVariant));
    assert_eq!(Transparency::parse(""), Err(ParseError::UnknownVariant));
    assert_eq!(Fluorescence::parse("fl"), Err(ParseError::UnknownVariant));
    assert_eq!(Metallic::parse("NMX"), Err(ParseError::UnknownVariant));
}

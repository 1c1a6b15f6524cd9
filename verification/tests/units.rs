use neuronek::unit::{same_text, DosageError, Unit};

fn refused(label: &str) -> String {
    match Unit::parse(label) {
        Ok(unit) => panic!("{:?} was taken for {:?}", label, unit),
        Err(DosageError::UnsupportedUnit(kept)) => kept,
    }
}

#[test]
fn every_alias_names_its_unit() {
    for alias in ["mg", "milligram", "milligrams"] {
        assert_eq!(Unit::parse(alias).unwrap(), Unit::Milligram);
        assert_eq!(Unit::from_alias(alias), Some(Unit::Milligram));
    }
    for alias in ["g", "gram", "grams"] {
        assert_eq!(Unit::parse(alias).unwrap(), Unit::Gram);
        assert_eq!(Unit::from_alias(alias), Some(Unit::Gram));
    }
    for alias in ["kg", "kilogram", "kilograms"] {
        assert_eq!(Unit::parse(alias).unwrap(), Unit::Kilogram);
        assert_eq!(Unit::from_alias(alias), Some(Unit::Kilogram));
    }
}

#[test]
fn labels_are_read_in_any_letter_case() {
    assert_eq!(Unit::parse("MG").unwrap(), Unit::Milligram);
    assert_eq!(Unit::parse("Mg").unwrap(), Unit::Milligram);
    assert_eq!(Unit::parse("MilliGrams").unwrap(), Unit::Milligram);
    assert_eq!(Unit::parse("G").unwrap(), Unit::Gram);
    assert_eq!(Unit::parse("GRAM").unwrap(), Unit::Gram);
    assert_eq!(Unit::parse("Grams").unwrap(), Unit::Gram);
    assert_eq!(Unit::parse("KG").unwrap(), Unit::Kilogram);
    assert_eq!(Unit::parse("kG").unwrap(), Unit::Kilogram);
    assert_eq!(Unit::parse("KILOGRAMS").unwrap(), Unit::Kilogram);
}

#[test]
fn the_kelvin_sign_is_a_capital_k() {
    assert_eq!(Unit::parse("\u{212A}g").unwrap(), Unit::Kilogram);
    assert_eq!(Unit::from_alias("\u{212A}g"), None);
}

#[test]
fn aliases_are_looked_up_as_written() {
    assert_eq!(Unit::from_alias("MG"), None);
    assert_eq!(Unit::from_alias("Gram"), None);
    assert_eq!(Unit::from_alias("kG"), None);
    assert_eq!(Unit::from_alias(""), None);
    assert_eq!(Unit::from_alias("m"), None);
    assert_eq!(Unit::from_alias("mgs"), None);
    assert_eq!(Unit::from_alias("gramme"), None);
}

#[test]
fn unsupported_unit_keeps_the_label() {
    assert_eq!(refused("lb"), "lb");
    let error = Unit::parse("lb").unwrap_err();
    assert_eq!(error.message(), "Unsupported unit: lb");
}

#[test]
fn the_refused_label_keeps_its_letter_case() {
    assert_eq!(refused("LB"), "LB");
    assert_eq!(Unit::parse("Ounce").unwrap_err().message(), "Unsupported unit: Ounce");
}

#[test]
fn labels_are_not_trimmed_or_guessed() {
    assert_eq!(refused(""), "");
    assert_eq!(refused(" mg"), " mg");
    assert_eq!(refused("mg "), "mg ");
    assert_eq!(refused("µg"), "µg");
    assert_eq!(refused("milli gram"), "milli gram");
    assert_eq!(refused("kgs"), "kgs");
    assert_eq!(Unit::parse("").unwrap_err().message(), "Unsupported unit: ");
}

#[test]
fn units_are_shown_by_their_abbreviation() {
    assert_eq!(Unit::Milligram.symbol(), "mg");
    assert_eq!(Unit::Gram.symbol(), "g");
    assert_eq!(Unit::Kilogram.symbol(), "kg");
}

#[test]
fn an_abbreviation_names_the_unit_it_shows() {
    for unit in [Unit::Milligram, Unit::Gram, Unit::Kilogram] {
        assert_eq!(Unit::from_alias(unit.symbol()), Some(unit));
        assert_eq!(Unit::parse(unit.symbol()).unwrap(), unit);
    }
}

#[test]
fn texts_are_compared_character_by_character() {
    assert!(same_text("", ""));
    assert!(same_text("mg", "mg"));
    assert!(!same_text("mg", "m"));
    assert!(!same_text("m", "mg"));
    assert!(!same_text("mg", "mG"));
    assert!(!same_text("kg", "\u{212A}g"));
    assert!(same_text("µg", "µg"));
    assert!(!same_text("µg", "mg"));
    assert!(!same_text("", "g"));
}

use majordome::utils::types::{keyword, variant_name_upper};

#[derive(Debug)]
enum Sample {
    Plain,
    TwoWords,
    HTTPServer,
    Holding(u8),
}

#[test]
fn keyword_of_camel_case() {
    assert_eq!(keyword("NavierStokes"), "NAVIER_STOKES");
    assert_eq!(keyword("HeatEquationFvm"), "HEAT_EQUATION_FVM");
    assert_eq!(keyword("Euler"), "EULER");
}

#[test]
fn keyword_of_nothing_is_nothing() {
    assert_eq!(keyword(""), "");
}

#[test]
fn keyword_has_no_underscore_before_the_first_character() {
    assert_eq!(keyword("A"), "A");
    assert_eq!(keyword("a"), "A");
    assert_eq!(keyword("aB"), "A_B");
}

#[test]
fn keyword_separates_every_upper_case_character() {
    assert_eq!(keyword("ABC"), "A_B_C");
    assert_eq!(keyword("HTTPServer"), "H_T_T_P_SERVER");
}

#[test]
fn keyword_leaves_other_characters_alone() {
    assert_eq!(keyword("x1_y2"), "X1_Y2");
    assert_eq!(keyword("a b"), "A B");
}

#[test]
fn keyword_raises_only_ascii_letters() {
    // A lower-case letter outside ASCII stays; an upper-case one is
    // separated and stays.
    assert_eq!(keyword("é"), "é");
    assert_eq!(keyword("aÉb"), "A_ÉB");
    assert_eq!(keyword("δΔ"), "δ_Δ");
}

#[test]
fn variant_name_upper_of_variants() {
    assert_eq!(variant_name_upper(&Sample::Plain), "PLAIN");
    assert_eq!(variant_name_upper(&Sample::TwoWords), "TWO_WORDS");
    assert_eq!(variant_name_upper(&Sample::HTTPServer), "H_T_T_P_SERVER");
}

#[test]
fn variant_name_upper_goes_by_the_debug_text() {
    assert_eq!(variant_name_upper(&Sample::Holding(7)), "HOLDING(7)");
    assert_eq!(variant_name_upper(&"NavierStokes"), "\"_NAVIER_STOKES\"");
    assert_eq!(variant_name_upper(&12u32), "12");
}

/// The same keyword, worked out with the iterators of the standard
/// library.
fn with_iterators(name: &str) -> String {
    let mut word = String::new();
    for (i, c) in name.chars().enumerate() {
        if c.is_uppercase() && i > 0 {
            word.push('_');
        }
        word.push(c.to_ascii_uppercase());
    }
    word
}

#[test]
fn keyword_agrees_with_the_iterators_of_the_standard_library() {
    for name in [
        "",
        "a",
        "Z",
        "NavierStokes",
        "already_snake",
        "MixedUP_and_Down",
        "Ünïcödé",
        "ǅ titlecase",
        "ⅧRoman",
        "with space And Tab\t",
        "123Abc",
        "{}[]()",
    ] {
        assert_eq!(keyword(name), with_iterators(name), "for {:?}", name);
    }
}

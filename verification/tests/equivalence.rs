use zbus_lockstep::equivalence::{equivalent_chars, top_level_terms, Term, TermKind};
use zbus_lockstep::equivalent;
use zbus_lockstep::equivalence::check_equivalent;

fn texts(terms: Option<Vec<Term>>) -> Option<Vec<String>> {
    terms.map(|list| list.into_iter().map(|t| t.text).collect())
}

fn kinds(signature: &str) -> Vec<TermKind> {
    top_level_terms(signature).unwrap().into_iter().map(|t| t.kind).collect()
}

fn strings(items: &[&str]) -> Option<Vec<String>> {
    Some(items.iter().map(|s| s.to_string()).collect())
}

#[test]
fn a_signature_is_equivalent_to_itself() {
    for s in ["", "s", "ii", "(ii)", "a{sv}", "((so)(so)(so)iiassusau)", "(", "a", "}{", "x)y"] {
        assert!(equivalent(s, s), "{s}");
    }
}

#[test]
fn the_order_of_the_operands_makes_no_difference() {
    let samples = ["", "s", "(s)", "ii", "(ii)", "(i)(i)", "a{sv}", "(a{sv})", "i", "u", "(", "()"];
    for a in samples {
        for b in samples {
            assert_eq!(equivalent(a, b), equivalent(b, a), "{a} {b}");
        }
    }
}

#[test]
fn a_single_code_matches_its_struct() {
    assert!(equivalent("s", "(s)"));
    assert!(equivalent("(s)", "s"));
}

#[test]
fn a_flat_body_matches_its_struct() {
    assert!(equivalent("ii", "(ii)"));
    assert!(equivalent("(ii)", "ii"));
}

#[test]
fn separate_structs_do_not_match_a_flat_body() {
    assert!(!equivalent("ii", "(i)(i)"));
    assert!(!equivalent("(i)(i)", "ii"));
}

#[test]
fn separate_structs_do_not_match_one_struct() {
    assert!(!equivalent("(ii)", "(i)(i)"));
    assert!(!equivalent("(i)(i)", "(ii)"));
}

#[test]
fn a_dictionary_matches_its_struct() {
    assert!(equivalent("a{sv}", "(a{sv})"));
}

#[test]
fn different_codes_do_not_match() {
    assert!(!equivalent("i", "u"));
    assert!(!equivalent("(i)", "u"));
    assert!(!equivalent("i", "(u)"));
}

#[test]
fn order_matters() {
    assert!(!equivalent("is", "si"));
    assert!(!equivalent("(is)", "si"));
    assert!(!equivalent("a{sv}i", "ia{sv}"));
}

#[test]
fn added_and_removed_elements_do_not_match() {
    assert!(!equivalent("ii", "iii"));
    assert!(!equivalent("(ii)", "i"));
    assert!(!equivalent("ii", "(iii)"));
}

#[test]
fn only_one_wrapper_is_tolerated() {
    assert!(equivalent("(ii)", "((ii))"));
    assert!(!equivalent("ii", "((ii))"));
    assert!(!equivalent("s", "((s))"));
}

#[test]
fn nested_members_are_not_unwrapped() {
    assert!(!equivalent("(s(ii))", "sii"));
    assert!(!equivalent("s(ii)", "(sii)"));
    assert!(equivalent("s(ii)", "(s(ii))"));
}

#[test]
fn an_array_of_structs_is_one_term() {
    assert!(equivalent("a(ii)", "(a(ii))"));
    assert!(!equivalent("a(ii)", "aii"));
    assert!(!equivalent("a(ii)", "(aii)"));
}

#[test]
fn the_empty_signature_matches_the_empty_struct() {
    assert!(equivalent("", ""));
    assert!(equivalent("", "()"));
    assert!(!equivalent("", "i"));
}

#[test]
fn malformed_signatures_match_only_themselves() {
    assert!(equivalent("(ii", "(ii"));
    assert!(!equivalent("(ii", "ii"));
    assert!(!equivalent("ii)", "ii"));
    assert!(!equivalent("(a)", "a"));
    assert!(!equivalent("(i}", "i"));
    assert!(!equivalent("((})", "(}"));
    assert!(!equivalent("{sv)", "sv"));
}

#[test]
fn signatures_beyond_ascii_are_compared_by_character() {
    assert!(equivalent("é", "(é)"));
    assert!(!equivalent("é", "(e)"));
}

#[test]
fn a_long_body_matches_its_struct() {
    assert!(equivalent("(so)(so)(so)iiassusau", "((so)(so)(so)iiassusau)"));
    assert!(equivalent("susssasa{sv}i", "(susssasa{sv}i)"));
}

#[test]
fn characters_are_compared_as_given() {
    let a: Vec<char> = "ii".chars().collect();
    let b: Vec<char> = "(ii)".chars().collect();
    let c: Vec<char> = "(i)(i)".chars().collect();
    assert!(equivalent_chars(&a, &b));
    assert!(!equivalent_chars(&a, &c));
}

#[test]
fn terms_are_split_at_the_top_level_only() {
    assert_eq!(texts(top_level_terms("")), strings(&[]));
    assert_eq!(texts(top_level_terms("ii")), strings(&["i", "i"]));
    assert_eq!(texts(top_level_terms("(ii)")), strings(&["(ii)"]));
    assert_eq!(texts(top_level_terms("(i)(i)")), strings(&["(i)", "(i)"]));
    assert_eq!(texts(top_level_terms("a{sv}i")), strings(&["a{sv}", "i"]));
    assert_eq!(texts(top_level_terms("aaiv(s(ii))")), strings(&["aai", "v", "(s(ii))"]));
    assert_eq!(
        texts(top_level_terms("(so)(so)(so)iiassusau")),
        strings(&["(so)", "(so)", "(so)", "i", "i", "as", "s", "u", "s", "au"])
    );
}

#[test]
fn terms_of_a_malformed_signature_are_none() {
    assert!(top_level_terms("(").is_none());
    assert!(top_level_terms(")").is_none());
    assert!(top_level_terms("a").is_none());
    assert!(top_level_terms("i(").is_none());
    assert!(top_level_terms("(i}").is_none());
    assert!(top_level_terms("{sv)").is_none());
    assert!(top_level_terms("a{sv}}").is_none());
    assert!(top_level_terms("((i)").is_none());
}

#[test]
fn the_first_character_decides_the_kind() {
    assert_eq!(
        kinds("ivas(ii){sv}a{sv}"),
        vec![
            TermKind::Basic,
            TermKind::Variant,
            TermKind::Array,
            TermKind::Struct,
            TermKind::DictEntry,
            TermKind::Array
        ]
    );
}

#[test]
fn a_check_passes_on_equivalent_signatures() {
    assert!(check_equivalent("so", "(so)").is_ok());
    assert!(check_equivalent("so", "so").is_ok());
}

#[test]
fn a_failed_check_reports_both_signatures_as_given() {
    let mismatch = check_equivalent("ii", "(i)(i)").unwrap_err();
    assert_eq!(mismatch.expected, "ii");
    assert_eq!(mismatch.found, "(i)(i)");
    assert_eq!(mismatch.message(), "signatures are not equivalent\n- ii\n+ (i)(i)");
}

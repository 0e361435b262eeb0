use rdfreak::sparql_variable_generator::encode_base_26;
use rdfreak::SparqlVariableGenerator;

#[test]
fn test_variable_generator() {
    let mut generator = SparqlVariableGenerator::new();

    assert_eq!(generator.next(), Some("?a".to_string()));
    assert_eq!(generator.next(), Some("?b".to_string()));
    assert_eq!(generator.next(), Some("?c".to_string()));

    // jump to ?z
    assert_eq!(generator.nth(22), Some("?z".to_string()));

    // continue
    assert_eq!(generator.next(), Some("?aa".to_string()));
    assert_eq!(generator.next(), Some("?ab".to_string()));
    assert_eq!(generator.next(), Some("?ac".to_string()));

    // jump to ?az
    assert_eq!(generator.nth(22), Some("?az".to_string()));

    // continue
    assert_eq!(generator.next(), Some("?ba".to_string()));
    assert_eq!(generator.next(), Some("?bb".to_string()));
    assert_eq!(generator.next(), Some("?bc".to_string()));
}

#[test]
fn generator_default_starts_at_a() {
    let mut generator = SparqlVariableGenerator::default();
    assert_eq!(generator.next(), Some("?a".to_string()));
}

#[test]
fn generator_names_after_z_and_zz() {
    let mut generator = SparqlVariableGenerator::new();
    // 26th name
    assert_eq!(generator.nth(25), Some("?z".to_string()));
    // 702nd name = "zz" (26 + 26*26)
    assert_eq!(generator.nth(675), Some("?zz".to_string()));
    assert_eq!(generator.next(), Some("?aaa".to_string()));
}

#[test]
fn bare_variable_names_are_lowercase_letters() {
    let mut generator = SparqlVariableGenerator::new();
    assert_eq!(generator.next_variable(), "a");
    for _ in 0..1000 {
        let name = generator.next_variable();
        assert!(!name.is_empty());
        assert!(name.chars().all(|c| c.is_ascii_lowercase()));
    }
    assert_eq!(generator.next(), Some("?aln".to_string()));
}

#[test]
fn generated_names_come_in_shortlex_order() {
    let mut generator = SparqlVariableGenerator::new();
    let mut previous = generator.next_variable();
    for _ in 0..2000 {
        let name = generator.next_variable();
        assert!(
            previous.len() < name.len() || (previous.len() == name.len() && previous < name),
            "{previous} before {name}"
        );
        previous = name;
    }
}

#[test]
fn every_word_of_letters_is_some_numeral() {
    assert_eq!(encode_base_26(1), "a");
    assert_eq!(encode_base_26(26), "z");
    assert_eq!(encode_base_26(27), "aa");
    assert_eq!(encode_base_26(26 * 26 + 26), "zz");
    assert_eq!(encode_base_26(26 * 26 + 27), "aaa");
}

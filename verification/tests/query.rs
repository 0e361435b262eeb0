use rdfreak::construct_query::{ConstructQueryPatterns, GraphPattern, TriplePattern, TriplePatternNode};
use rdfreak::query::{
    all_query, delete_update, format_triple_patterns, insert_update, resolve_single_result,
    save_update, single_query,
};
use rdfreak::resource::DeserializeResourceError;
use rdfreak::term::{BlankId, Iri, Subject};

fn pattern(s: &str, p: &str, o: &str) -> TriplePattern {
    TriplePattern::new(
        TriplePatternNode::Variable(s.to_string()),
        TriplePatternNode::NamedNode(Iri::new(p).unwrap()),
        TriplePatternNode::Variable(o.to_string()),
    )
}

fn sample_patterns() -> ConstructQueryPatterns {
    let mut q = ConstructQueryPatterns::new();
    q.push_identical_triple_pattern(pattern("a", "http://example.com/p", "b"));
    let mut inner = GraphPattern::default();
    inner.push_triple_pattern(pattern("a", "http://example.com/q", "c"));
    q.template_patterns.push(pattern("a", "http://example.com/q", "c"));
    q.where_pattern.push_optional(inner);
    q
}

#[test]
fn format_triple_patterns_joins_with_spaces() {
    assert_eq!(format_triple_patterns(&[]), "");
    let ps = vec![
        pattern("a", "http://example.com/p", "b"),
        pattern("a", "http://example.com/q", "c"),
    ];
    assert_eq!(
        format_triple_patterns(&ps),
        "?a <http://example.com/p> ?b . ?a <http://example.com/q> ?c ."
    );
}

#[test]
fn single_query_text() {
    let q = sample_patterns();
    let subject = Subject::Iri(Iri::new("http://example.com/alice").unwrap());
    assert_eq!(
        single_query(&q, "a", &subject),
        "CONSTRUCT { ?a <http://example.com/p> ?b . ?a <http://example.com/q> ?c . } WHERE { VALUES ?a { <http://example.com/alice> } OPTIONAL { ?a <http://example.com/p> ?b .  ?a <http://example.com/q> ?c .  }  }"
    );
}

#[test]
fn all_query_text() {
    let mut q = ConstructQueryPatterns::new();
    q.push_identical_triple_pattern(pattern("a", "http://example.com/p", "b"));
    assert_eq!(
        all_query(&q),
        "CONSTRUCT { ?a <http://example.com/p> ?b . } WHERE { ?a <http://example.com/p> ?b .  }"
    );
}

#[test]
fn delete_update_text() {
    let mut q = ConstructQueryPatterns::new();
    q.push_identical_triple_pattern(pattern("a", "http://example.com/p", "b"));
    let subject = Subject::Blank(BlankId::new("b0").unwrap());
    assert_eq!(
        delete_update(&q, "a", &subject),
        "DELETE { ?a <http://example.com/p> ?b . } WHERE { VALUES ?a { _:b0 } ?a <http://example.com/p> ?b .  }"
    );
}

#[test]
fn save_update_text() {
    let mut q = ConstructQueryPatterns::new();
    q.push_identical_triple_pattern(pattern("a", "http://example.com/p", "b"));
    let subject = Subject::Iri(Iri::new("http://example.com/alice").unwrap());
    assert_eq!(
        save_update(&q, "a", &subject, "<http://example.com/alice> <http://example.com/p> 1 ."),
        "DELETE { ?a <http://example.com/p> ?b . } WHERE { VALUES ?a { <http://example.com/alice> } ?a <http://example.com/p> ?b .  }; INSERT DATA { <http://example.com/alice> <http://example.com/p> 1 . }"
    );
}

#[test]
fn insert_update_text() {
    assert_eq!(insert_update("<a> <b> <c> ."), "INSERT DATA { <a> <b> <c> . }");
}

#[test]
fn resolve_single_result_keeps_a_read_value() {
    let r: Result<u32, DeserializeResourceError> = Ok(7);
    assert!(matches!(resolve_single_result(r), Ok(Some(7))));
}

#[test]
fn resolve_single_result_answers_none_for_another_type() {
    let r: Result<u32, DeserializeResourceError> = Err(DeserializeResourceError::InvalidRdfType {
        expected: Iri::new("http://example.com/Person").unwrap(),
        found: vec![],
    });
    assert!(matches!(resolve_single_result(r), Ok(None)));
}

#[test]
fn resolve_single_result_passes_other_errors_on() {
    let r: Result<u32, DeserializeResourceError> = Err(DeserializeResourceError::MissingRdfType);
    assert!(matches!(
        resolve_single_result(r),
        Err(DeserializeResourceError::MissingRdfType)
    ));
}

#[test]
fn deletion_removes_what_the_fetch_constructs() {
    let q = sample_patterns();
    let subject = Subject::Iri(Iri::new("http://example.com/alice").unwrap());
    let fetch = single_query(&q, "a", &subject);
    let delete = delete_update(&q, "a", &subject);
    assert_eq!(fetch.strip_prefix("CONSTRUCT"), delete.strip_prefix("DELETE"));
    assert!(fetch.strip_prefix("CONSTRUCT").is_some());
    assert!(!fetch.contains("??"));
}

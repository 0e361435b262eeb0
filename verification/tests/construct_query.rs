use rdfreak::construct_query::{ConstructQueryPatterns, GraphPattern, TriplePattern, TriplePatternNode};
use rdfreak::term::Iri;

fn var(name: &str) -> TriplePatternNode {
    TriplePatternNode::Variable(name.to_string())
}

fn named(iri: &str) -> TriplePatternNode {
    TriplePatternNode::NamedNode(Iri::new(iri).unwrap())
}

fn pattern(s: &str, p: &str, o: &str) -> TriplePattern {
    TriplePattern::new(var(s), named(p), var(o))
}

#[test]
fn test_triple_pattern_display() {
    let triple_pattern = TriplePattern::new(
        TriplePatternNode::Variable("s".to_string()),
        TriplePatternNode::NamedNode(Iri::new("http://example.com/p").unwrap()),
        TriplePatternNode::Variable("o".to_string()),
    );

    assert_eq!(triple_pattern.to_string(), "?s <http://example.com/p> ?o .");
}

#[test]
fn triple_pattern_getters_give_back_the_nodes() {
    let t = pattern("s", "http://example.com/p", "o");
    assert_eq!(t.subject().to_string(), "?s");
    assert_eq!(t.predicate().to_string(), "<http://example.com/p>");
    assert_eq!(t.object().to_string(), "?o");
}

#[test]
fn default_graph_pattern_is_an_empty_group() {
    let g = GraphPattern::default();
    assert_eq!(g.to_string(), "");
    assert!(matches!(g, GraphPattern::Triples(ref ts) if ts.is_empty()));
}

#[test]
fn push_triple_pattern_appends_to_a_group() {
    let mut g = GraphPattern::default();
    g.push_triple_pattern(pattern("a", "http://example.com/p", "b"));
    g.push_triple_pattern(pattern("a", "http://example.com/q", "c"));
    assert_eq!(
        g.to_string(),
        "?a <http://example.com/p> ?b . ?a <http://example.com/q> ?c . "
    );
}

#[test]
fn push_optional_turns_a_group_into_an_optional_block() {
    let mut g = GraphPattern::default();
    g.push_triple_pattern(pattern("a", "http://example.com/p", "b"));
    let mut inner = GraphPattern::default();
    inner.push_triple_pattern(pattern("a", "http://example.com/q", "c"));
    g.push_optional(inner);
    assert_eq!(
        g.to_string(),
        "OPTIONAL { ?a <http://example.com/p> ?b .  ?a <http://example.com/q> ?c .  } "
    );
    match &g {
        GraphPattern::Optional(ps) => assert_eq!(ps.len(), 2),
        GraphPattern::Triples(_) => panic!("expected an optional block"),
    }
}

#[test]
fn push_optional_appends_to_an_optional_block() {
    let mut g = GraphPattern::Optional(vec![]);
    g.push_optional(GraphPattern::default());
    g.push_optional(GraphPattern::default());
    match &g {
        GraphPattern::Optional(ps) => assert_eq!(ps.len(), 2),
        GraphPattern::Triples(_) => panic!("expected an optional block"),
    }
    assert_eq!(g.to_string(), "OPTIONAL {   } ");
}

#[test]
fn push_triple_pattern_into_block_goes_to_first_group() {
    let mut g = GraphPattern::Optional(vec![
        GraphPattern::Optional(vec![]),
        GraphPattern::Triples(vec![pattern("a", "http://example.com/p", "b")]),
        GraphPattern::Triples(vec![]),
    ]);
    g.push_triple_pattern(pattern("a", "http://example.com/q", "c"));
    match &g {
        GraphPattern::Optional(ps) => {
            assert_eq!(ps.len(), 3);
            assert_eq!(
                ps[1].to_string(),
                "?a <http://example.com/p> ?b . ?a <http://example.com/q> ?c . "
            );
            assert_eq!(ps[2].to_string(), "");
        }
        GraphPattern::Triples(_) => panic!("expected an optional block"),
    }
}

#[test]
fn push_triple_pattern_into_block_without_group_appends_one() {
    let mut g = GraphPattern::Optional(vec![GraphPattern::Optional(vec![])]);
    g.push_triple_pattern(pattern("a", "http://example.com/q", "c"));
    match &g {
        GraphPattern::Optional(ps) => {
            assert_eq!(ps.len(), 2);
            assert_eq!(ps[1].to_string(), "?a <http://example.com/q> ?c . ");
        }
        GraphPattern::Triples(_) => panic!("expected an optional block"),
    }
}

#[test]
fn graph_pattern_clone_has_the_same_text() {
    let mut g = GraphPattern::default();
    g.push_triple_pattern(pattern("a", "http://example.com/p", "b"));
    g.push_optional(GraphPattern::Triples(vec![pattern("a", "http://example.com/q", "c")]));
    let c = g.clone();
    assert_eq!(c.to_string(), g.to_string());
}

#[test]
fn push_identical_triple_pattern_goes_to_template_and_where() {
    let mut q = ConstructQueryPatterns::new();
    assert!(q.template_patterns.is_empty());
    q.push_identical_triple_pattern(pattern("a", "http://example.com/p", "b"));
    assert_eq!(q.template_patterns.len(), 1);
    assert_eq!(q.template_patterns[0].to_string(), "?a <http://example.com/p> ?b .");
    assert_eq!(q.where_pattern.to_string(), "?a <http://example.com/p> ?b . ");
}

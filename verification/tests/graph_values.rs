use rdfreak::constructible::{Constructible, ConstructibleProperty};
use rdfreak::construct_query::ConstructQueryPatterns;
use rdfreak::entity::{DeserializeEntityError, DeserializeLiteralError, RdfLiteral};
use rdfreak::literal::{FromRdfLiteral, RdfLiteralError, ToRdfLiteral};
use rdfreak::object::{FromRdfObject, RdfObjectError, ToRdfObject};
use rdfreak::object_ref::ObjectRef;
use rdfreak::property::{insert_object, single_object, FromRdfProperty, RdfPropertyError, ToRdfProperty};
use rdfreak::query::{insert_update_for, resource_query_patterns, save_update_for};
use rdfreak::rdf_type::RdfType;
use rdfreak::resource::{
    check_rdf_type, deserialize_all, insert_rdf_type, read_resource_property, DeserializeResourceError,
    FromRdf, Resource, ToRdf,
};
use rdfreak::term::{rdf_type, BlankId, Iri, LiteralValue, RdfTerm, Statement, Subject};
use rdfreak::SparqlVariableGenerator;

fn iri(s: &str) -> Iri {
    Iri::new(s).unwrap()
}

fn alice() -> Subject {
    Subject::Iri(iri("http://example.org/alice"))
}

#[test]
fn iri_new_refuses_an_invalid_iri() {
    assert!(Iri::new("http://example.org/a").is_ok());
    let e = Iri::new("not an iri").err().unwrap();
    assert_eq!(e.iri, "not an iri");
    assert_eq!(iri("http://example.org/a").to_string(), "<http://example.org/a>");
}

#[test]
fn blank_node_ids_are_checked() {
    assert!(BlankId::new("b1").is_ok());
    assert!(BlankId::new("not valid!").is_err());
    assert_eq!(BlankId::new("b1").unwrap().to_string(), "_:b1");
}

#[test]
fn integer_literals_round_trip() {
    let l = ToRdfLiteral::to_literal(&42i32);
    assert_eq!(l.value(), "42");
    assert_eq!(l.datatype().as_str(), "http://www.w3.org/2001/XMLSchema#integer");
    assert_eq!(<i32 as FromRdfLiteral>::from_literal(&l).unwrap(), 42);
    assert_eq!(i8::from_literal(&(-128i8).to_literal()).unwrap(), -128);
    assert_eq!(u64::from_literal(&u64::MAX.to_literal()).unwrap(), u64::MAX);
    assert_eq!(i64::MIN.to_literal().value(), "-9223372036854775808");
}

#[test]
fn integer_literal_errors() {
    let l = LiteralValue::new_typed_literal("300".to_owned(), iri("http://www.w3.org/2001/XMLSchema#unsignedByte"));
    match u8::from_literal(&l) {
        Err(RdfLiteralError::Parse(m)) => assert_eq!(m, "number too large to fit in target type"),
        other => panic!("unexpected {:?}", other),
    }
    let l = LiteralValue::new_typed_literal("1x".to_owned(), iri("http://www.w3.org/2001/XMLSchema#integer"));
    match <i32 as FromRdfLiteral>::from_literal(&l) {
        Err(RdfLiteralError::Parse(m)) => assert_eq!(m, "invalid digit found in string"),
        other => panic!("unexpected {:?}", other),
    }
    let l = LiteralValue::new_typed_literal("1".to_owned(), iri("http://www.w3.org/2001/XMLSchema#long"));
    assert!(matches!(<i32 as FromRdfLiteral>::from_literal(&l), Err(RdfLiteralError::InvalidDatatype { .. })));
}

#[test]
fn bool_and_string_literals_round_trip() {
    assert_eq!(bool::from_literal(&true.to_literal()).unwrap(), true);
    assert_eq!(bool::from_literal(&false.to_literal()).unwrap(), false);
    assert_eq!(true.to_literal().value(), "true");
    let s = "hello".to_string();
    assert_eq!(<String as FromRdfLiteral>::from_literal(&ToRdfLiteral::to_literal(&s)).unwrap(), "hello");
    let l = LiteralValue::new_typed_literal("yes".to_owned(), iri("http://www.w3.org/2001/XMLSchema#boolean"));
    match bool::from_literal(&l) {
        Err(RdfLiteralError::Parse(m)) => assert_eq!(m, "provided string was not `true` or `false`"),
        other => panic!("unexpected {:?}", other),
    }
}

#[test]
fn entity_literals_for_i32_and_string() {
    let l = RdfLiteral::to_literal(&7i32);
    assert_eq!(l.value(), "7");
    assert_eq!(<i32 as RdfLiteral>::from_literal(&l).unwrap(), 7);
    let bad = LiteralValue::new_typed_literal("7".to_owned(), iri("http://www.w3.org/2001/XMLSchema#string"));
    match <i32 as RdfLiteral>::from_literal(&bad) {
        Err(DeserializeLiteralError::InvalidDatatype { expected, actual }) => {
            assert_eq!(expected, "http://www.w3.org/2001/XMLSchema#integer");
            assert_eq!(actual, "http://www.w3.org/2001/XMLSchema#string");
        }
        other => panic!("unexpected {:?}", other),
    }
    let s = RdfLiteral::to_literal(&"x".to_string());
    assert_eq!(<String as RdfLiteral>::from_literal(&s).unwrap(), "x");
    let bad = LiteralValue::new_typed_literal("x".to_owned(), iri("http://www.w3.org/2001/XMLSchema#integer"));
    match <i32 as RdfLiteral>::from_literal(&bad) {
        Err(DeserializeLiteralError::FailedToParse(m)) => assert_eq!(m, "invalid digit found in string"),
        other => panic!("unexpected {:?}", other),
    }
}

#[test]
fn terms_round_trip_and_refuse_other_kinds() {
    let mut g = oxrdf::Graph::new();
    let t = 5u32.to_term(&mut g);
    assert_eq!(u32::from_term(&g, &t).unwrap(), 5);
    let named = RdfTerm::Iri(iri("http://example.org/x"));
    assert!(matches!(u32::from_term(&g, &named), Err(RdfObjectError::UnexpectedTermType(_))));
    assert_eq!(Iri::from_term(&g, &named).unwrap().as_str(), "http://example.org/x");
}

#[test]
fn objects_are_inserted_once_and_found_again() {
    let mut g = oxrdf::Graph::new();
    let p = iri("http://example.org/knows");
    let o = RdfTerm::Iri(iri("http://example.org/bob"));
    assert!(single_object(&g, &alice(), &p).is_err());
    insert_object(&mut g, &alice(), &p, o.clone());
    insert_object(&mut g, &alice(), &p, o.clone());
    assert!(single_object(&g, &alice(), &p).unwrap() == o);
    let all: Vec<RdfTerm> = Vec::from_property(&g, &alice(), &p).unwrap();
    assert_eq!(all.len(), 1);
    let t = Statement::new(alice(), p.clone(), RdfTerm::Blank(BlankId::new("b2").unwrap()));
    assert_eq!(t.predicate.as_str(), "http://example.org/knows");
    assert!(single_object(&g, &alice(), &iri("http://example.org/other")).is_err());
}

#[test]
fn properties_round_trip_through_a_graph() {
    let mut g = oxrdf::Graph::new();
    let name = iri("http://example.org/name");
    let age = iri("http://example.org/age");
    "Alice".to_string().to_property(&mut g, &alice(), &name);
    30u32.to_property(&mut g, &alice(), &age);
    assert_eq!(String::from_property(&g, &alice(), &name).unwrap(), "Alice");
    assert_eq!(u32::from_property(&g, &alice(), &age).unwrap(), 30);
    match u32::from_property(&g, &alice(), &iri("http://example.org/missing")) {
        Err(RdfPropertyError::MissingObjectValue(p)) => assert_eq!(p.as_str(), "http://example.org/missing"),
        other => panic!("unexpected {:?}", other),
    }
    let none: Option<u32> = Option::from_property(&g, &alice(), &iri("http://example.org/missing")).unwrap();
    assert!(none.is_none());
    let some: Option<u32> = Option::from_property(&g, &alice(), &age).unwrap();
    assert_eq!(some, Some(30));
    let all: Vec<String> = Vec::from_property(&g, &alice(), &name).unwrap();
    assert_eq!(all, vec!["Alice".to_string()]);
}

#[test]
fn rdf_type_values() {
    let mut g = oxrdf::Graph::new();
    let person = iri("http://example.org/Person");
    let t = RdfType::new(person.clone());
    assert_eq!(t.get_named_node().as_str(), "http://example.org/Person");
    t.to_property(&mut g, &alice(), &rdf_type());
    let back = RdfType::from_property(&g, &alice(), &rdf_type()).unwrap();
    assert_eq!(back.get_named_node().as_str(), "http://example.org/Person");
    let lit = RdfTerm::Lit(1u8.to_literal());
    assert!(RdfType::from_term(&g, &lit).is_err());
}

#[test]
fn object_refs_keep_the_term() {
    let mut g = oxrdf::Graph::new();
    let p = iri("http://example.org/age");
    let r: ObjectRef<u32> = ObjectRef::new(RdfTerm::Lit(41u32.to_literal()));
    r.to_property(&mut g, &alice(), &p);
    let back: ObjectRef<u32> = ObjectRef::from_property(&g, &alice(), &p).unwrap();
    assert_eq!(back.deserialize(&g).unwrap(), 41);
    let missing = ObjectRef::<u32>::from_property(&g, &alice(), &iri("http://example.org/none"));
    assert!(matches!(missing, Err(RdfPropertyError::MissingObjectValue(_))));
}

#[test]
fn check_rdf_type_outcomes() {
    let mut g = oxrdf::Graph::new();
    let person = iri("http://example.org/Person");
    let robot = iri("http://example.org/Robot");
    match check_rdf_type(&g, &alice(), &person) {
        Err(DeserializeResourceError::InvalidRdfType { expected, found }) => {
            assert_eq!(expected.as_str(), "http://example.org/Person");
            assert!(found.is_empty());
        }
        other => panic!("unexpected {:?}", other),
    }
    insert_rdf_type(&mut g, &alice(), &robot);
    match check_rdf_type(&g, &alice(), &person) {
        Err(DeserializeResourceError::InvalidRdfType { found, .. }) => {
            assert_eq!(found.len(), 1);
            assert_eq!(found[0].as_str(), "http://example.org/Robot");
        }
        other => panic!("unexpected {:?}", other),
    }
    insert_rdf_type(&mut g, &alice(), &person);
    assert!(check_rdf_type(&g, &alice(), &person).is_ok());
    "odd".to_string().to_property(&mut g, &alice(), &rdf_type());
    match check_rdf_type(&g, &alice(), &person) {
        Err(DeserializeResourceError::FailedToDeserializeProperty { property, .. }) => {
            assert_eq!(property, "rdf:type")
        }
        other => panic!("unexpected {:?}", other),
    }
}

struct Person {
    subject: Subject,
    name: String,
}

impl Resource for Person {
    fn get_rdf_type() -> Iri {
        Iri::new("http://example.org/Person").unwrap()
    }

    fn get_subject(&self) -> &Subject {
        &self.subject
    }
}

impl ToRdf for Person {
    fn to_rdf(&self, graph: &mut oxrdf::Graph) {
        insert_rdf_type(graph, &self.subject, &Person::get_rdf_type());
        self.name.to_property(graph, &self.subject, &Iri::new("http://example.org/name").unwrap());
    }
}

impl FromRdf for Person {
    fn from_rdf(graph: &oxrdf::Graph, subject: &Subject) -> Result<Self, DeserializeResourceError> {
        check_rdf_type(graph, subject, &Person::get_rdf_type())?;
        let name = read_resource_property(graph, subject, &Iri::new("http://example.org/name").unwrap(), "name")?;
        Ok(Person { subject: subject.clone(), name })
    }
}

impl Constructible for Person {
    fn insert_patterns(
        construct_query_patterns: &mut ConstructQueryPatterns,
        variable_generator: &mut SparqlVariableGenerator,
        subject_variable: &str,
    ) {
        <String as ConstructibleProperty>::insert_patterns(
            construct_query_patterns,
            variable_generator,
            subject_variable,
            &Iri::new("http://example.org/name").unwrap(),
        );
    }
}

#[test]
fn resources_are_written_and_read_back() {
    let mut g = oxrdf::Graph::new();
    let p = Person { subject: alice(), name: "Alice".to_string() };
    p.to_rdf(&mut g);
    let back = Person::from_rdf(&g, &alice()).unwrap();
    assert_eq!(back.name, "Alice");
    let all = deserialize_all::<Person>(&g);
    assert_eq!(all.len(), 1);
    assert_eq!(all[0].as_ref().unwrap().name, "Alice");
    let bob = Subject::Iri(iri("http://example.org/bob"));
    insert_rdf_type(&mut g, &bob, &Person::get_rdf_type());
    let all = deserialize_all::<Person>(&g);
    assert_eq!(all.len(), 2);
    match Person::from_rdf(&g, &bob) {
        Err(DeserializeResourceError::FailedToDeserializeProperty { property, .. }) => assert_eq!(property, "name"),
        _ => panic!("bob has no name"),
    }
}

#[test]
fn property_patterns_use_fresh_variables() {
    let mut q = ConstructQueryPatterns::new();
    let mut gen = SparqlVariableGenerator::new();
    let subject_variable = gen.next_variable();
    <u32 as ConstructibleProperty>::insert_patterns(&mut q, &mut gen, &subject_variable, &iri("http://example.org/age"));
    <Option<String> as ConstructibleProperty>::insert_patterns(&mut q, &mut gen, &subject_variable, &iri("http://example.org/name"));
    assert_eq!(q.template_patterns.len(), 2);
    assert_eq!(q.template_patterns[0].to_string(), "?a <http://example.org/age> ?b .");
    assert_eq!(q.template_patterns[1].to_string(), "?a <http://example.org/name> ?c .");
    assert_eq!(
        q.where_pattern.to_string(),
        "OPTIONAL { ?a <http://example.org/age> ?b .  ?a <http://example.org/name> ?c .  } "
    );
    assert_eq!(gen.next().unwrap(), "?d");
}

#[test]
fn resource_patterns_and_updates() {
    let (q, subject_variable) = resource_query_patterns::<Person>();
    assert_eq!(subject_variable, "a");
    assert_eq!(q.template_patterns.len(), 1);
    let p = Person { subject: alice(), name: "Alice".to_string() };
    let insert = insert_update_for(&p);
    assert!(insert.starts_with("INSERT DATA { "));
    assert!(insert.contains("<http://example.org/alice>"));
    assert!(insert.contains("\"Alice\""));
    assert!(insert.ends_with(" }"));
    let save = save_update_for(&p);
    assert!(save.starts_with(
        "DELETE { ?a <http://example.org/name> ?b . } WHERE { VALUES ?a { <http://example.org/alice> } ?a <http://example.org/name> ?b .  }; INSERT DATA { "
    ));
    assert!(save.contains("<http://example.org/alice>"));
    assert!(save.contains("<http://example.org/Person>"));
    assert!(save.contains("\"Alice\""));
    assert!(save.ends_with(" }"));
    assert!(!save.contains("??"));
    assert!(insert.contains("<http://example.org/Person>"));
    assert!(!insert.contains("??"));
}

#[test]
fn property_reading_errors_carry_the_object_error() {
    let mut g = oxrdf::Graph::new();
    let p = iri("http://example.org/age");
    RdfTerm::Iri(iri("http://example.org/bob")).to_property(&mut g, &alice(), &p);
    match u32::from_property(&g, &alice(), &p) {
        Err(RdfPropertyError::Object(RdfObjectError::UnexpectedTermType(RdfTerm::Iri(n)))) => {
            assert_eq!(n.as_str(), "http://example.org/bob")
        }
        other => panic!("unexpected {:?}", other),
    }
    let all: Result<Vec<u32>, RdfPropertyError> = Vec::from_property(&g, &alice(), &p);
    assert!(matches!(all, Err(RdfPropertyError::Object(_))));
    let maybe: Result<Option<u32>, RdfPropertyError> = Option::from_property(&g, &alice(), &p);
    assert!(matches!(maybe, Err(RdfPropertyError::Object(_))));
}

#[test]
fn optional_and_repeated_values_are_written_as_objects() {
    let mut g = oxrdf::Graph::new();
    let p = iri("http://example.org/tag");
    let none: Option<String> = None;
    none.to_property(&mut g, &alice(), &p);
    assert!(single_object(&g, &alice(), &p).is_err());
    vec!["a".to_string(), "b".to_string(), "a".to_string()].to_property(&mut g, &alice(), &p);
    let mut tags: Vec<String> = Vec::from_property(&g, &alice(), &p).unwrap();
    tags.sort();
    assert_eq!(tags, vec!["a".to_string(), "b".to_string()]);
}

#[test]
fn nodes_and_literals_round_trip_as_properties() {
    let mut g = oxrdf::Graph::new();
    let p = iri("http://example.org/p");
    let q = iri("http://example.org/q");
    let r = iri("http://example.org/r");
    let blank = BlankId::new("n1").unwrap();
    blank.to_property(&mut g, &alice(), &p);
    assert_eq!(BlankId::from_property(&g, &alice(), &p).unwrap().as_str(), "n1");
    let tagged = LiteralValue::new_language_tagged_literal_unchecked("bonjour".to_owned(), "fr".to_owned());
    tagged.to_property(&mut g, &alice(), &q);
    let back = LiteralValue::from_property(&g, &alice(), &q).unwrap();
    assert!(back == tagged);
    assert_eq!(back.language(), Some("fr"));
    assert_eq!(back.datatype().as_str(), "http://www.w3.org/1999/02/22-rdf-syntax-ns#langString");
    Subject::Blank(blank.clone()).to_property(&mut g, &alice(), &r);
    assert!(matches!(Subject::from_property(&g, &alice(), &r).unwrap(), Subject::Blank(_)));
    let term = RdfTerm::from_property(&g, &alice(), &p).unwrap();
    assert!(term == RdfTerm::Blank(blank));
}

#[test]
fn boxed_values_read_through_the_inner_type() {
    let g = oxrdf::Graph::new();
    let t = RdfTerm::Lit(ToRdfLiteral::to_literal(&12i64));
    let b: Box<i64> = FromRdfObject::from_term(&g, &t).unwrap();
    assert_eq!(*b, 12);
}

#[test]
fn entity_errors_wrap_literal_errors() {
    let e: DeserializeEntityError = DeserializeLiteralError::FailedToParse("x".to_string()).into();
    assert!(matches!(e, DeserializeEntityError::FailedToDeserializeLiteral(DeserializeLiteralError::FailedToParse(_))));
    let m = DeserializeEntityError::MissingProperty("name".to_string());
    assert!(matches!(m, DeserializeEntityError::MissingProperty(ref p) if p == "name"));
}

#[test]
fn fresh_blank_nodes_differ() {
    let a = BlankId::fresh();
    let b = BlankId::fresh();
    assert!(!a.as_str().is_empty());
    assert!(a.as_str() != b.as_str());
    for id in [a.as_str(), b.as_str()] {
        assert!(id.len() <= 32);
        assert!(matches!(id.chars().next(), Some('a'..='f')));
        assert!(id.chars().all(|c| c.is_ascii_digit() || ('a'..='f').contains(&c)));
        assert!(BlankId::new(id).is_ok());
    }
}

#[test]
fn optional_values_read_back_as_written() {
    let mut g = oxrdf::Graph::new();
    let name = iri("http://example.org/name");
    let nick = iri("http://example.org/nick");
    Some("Alice".to_string()).to_property(&mut g, &alice(), &name);
    let none: Option<String> = None;
    none.to_property(&mut g, &alice(), &nick);
    assert_eq!(Option::<String>::from_property(&g, &alice(), &name).unwrap(), Some("Alice".to_string()));
    assert_eq!(Option::<String>::from_property(&g, &alice(), &nick).unwrap(), None);
    match Option::<u32>::from_property(&g, &alice(), &name) {
        Err(RdfPropertyError::Object(RdfObjectError::Literal(_))) => {}
        other => panic!("unexpected {:?}", other),
    }
}

#[test]
fn list_values_read_back_in_some_order_each_once() {
    let mut g = oxrdf::Graph::new();
    let p = iri("http://example.org/size");
    vec![3u32, 1, 3, 2].to_property(&mut g, &alice(), &p);
    let mut sizes: Vec<u32> = Vec::from_property(&g, &alice(), &p).unwrap();
    sizes.sort();
    assert_eq!(sizes, vec![1, 2, 3]);
    let empty: Vec<u32> = Vec::from_property(&g, &alice(), &iri("http://example.org/none")).unwrap();
    assert!(empty.is_empty());
    "big".to_string().to_property(&mut g, &alice(), &p);
    assert!(matches!(
        Vec::<u32>::from_property(&g, &alice(), &p),
        Err(RdfPropertyError::Object(RdfObjectError::Literal(_)))
    ));
}

#[test]
fn blank_node_id_characters_are_checked() {
    for ok in ["b0", "_x", ":a", "1", "a-b", "a.b", "\u{e9}t\u{e9}", "x\u{b7}y"] {
        assert!(BlankId::new(ok).is_ok(), "{ok}");
    }
    for bad in ["", "-a", ".a", "a.", "a b", "a/b", "\u{b7}a"] {
        assert!(BlankId::new(bad).is_err(), "{bad}");
    }
    assert!(BlankId::new(BlankId::fresh().as_str()).is_ok());
}

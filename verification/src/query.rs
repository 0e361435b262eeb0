//! The SPARQL text of the queries and updates that fetch, store and delete
//! resources, and the decision taken on what a fetch gives back.

use vstd::prelude::*;

use crate::construct_query::{
    graph_pattern_text, templates_matched, triple_pattern_models, triple_pattern_text,
    ConstructQueryModel, ConstructQueryPatterns, TriplePattern, TriplePatternModel,
};
use crate::constructible::{empty_patterns, new_templates_from, Constructible};
use crate::graph::{graph_statements, graph_triples, lists_each_once, new_graph, ox_named_node, ox_subject, ox_term};
use crate::resource::{DeserializeResourceError, Resource, ToRdf};
use crate::sparql_variable_generator::{base26, SparqlVariableGenerator};
use crate::term::{subject_text, Statement, Subject, SubjectModel, TripleModel};
use crate::text::{push_char, push_str};

verus! {

/// The texts of the triple patterns, separated by single spaces.
pub open spec fn joined_patterns_text(ts: Seq<TriplePatternModel>) -> Seq<char>
    decreases ts.len(),
{
    if ts.len() == 0 {
        Seq::empty()
    } else if ts.len() == 1 {
        triple_pattern_text(ts[0])
    } else {
        joined_patterns_text(ts.drop_last()) + seq![' '] + triple_pattern_text(ts.last())
    }
}

/// `CONSTRUCT { T } WHERE { VALUES ?V { S } W }`: the template `T`, the
/// subject variable `V` bound to the subject `S`, the WHERE pattern `W`.
pub open spec fn single_query_text(
    q: ConstructQueryModel,
    subject_variable: Seq<char>,
    subject: SubjectModel,
) -> Seq<char> {
    "CONSTRUCT { "@ + joined_patterns_text(q.templates) + " } WHERE { VALUES ?"@
        + subject_variable + " { "@ + subject_text(subject) + " } "@ + graph_pattern_text(
        q.where_pattern,
    ) + " }"@
}

/// What follows the first word of the fetch of a single resource and of
/// its deletion: ` { T } WHERE { VALUES ?V { S } W }`.
pub open spec fn single_query_body_text(
    q: ConstructQueryModel,
    subject_variable: Seq<char>,
    subject: SubjectModel,
) -> Seq<char> {
    " { "@ + joined_patterns_text(q.templates) + " } WHERE { VALUES ?"@ + subject_variable + " { "@
        + subject_text(subject) + " } "@ + graph_pattern_text(q.where_pattern) + " }"@
}

/// The deletion of a resource removes what the query that fetches it
/// constructs: the two texts differ only in their first word, so they hold
/// the same template, the same binding of the subject and the same pattern.
pub proof fn lemma_delete_matches_fetch(q: ConstructQueryModel, subject_variable: Seq<char>, subject: SubjectModel)
    ensures
        single_query_text(q, subject_variable, subject) == "CONSTRUCT"@ + single_query_body_text(
            q,
            subject_variable,
            subject,
        ),
        delete_update_text(q, subject_variable, subject) == "DELETE"@ + single_query_body_text(
            q,
            subject_variable,
            subject,
        ),
{
    reveal_strlit("CONSTRUCT { ");
    reveal_strlit("CONSTRUCT");
    reveal_strlit("DELETE { ");
    reveal_strlit("DELETE");
    reveal_strlit(" { ");
    assert(single_query_text(q, subject_variable, subject) =~= "CONSTRUCT"@ + single_query_body_text(
        q,
        subject_variable,
        subject,
    ));
    assert(delete_update_text(q, subject_variable, subject) =~= "DELETE"@ + single_query_body_text(
        q,
        subject_variable,
        subject,
    ));
}

/// `CONSTRUCT { T } WHERE { W }`.
pub open spec fn all_query_text(q: ConstructQueryModel) -> Seq<char> {
    "CONSTRUCT { "@ + joined_patterns_text(q.templates) + " } WHERE { "@ + graph_pattern_text(
        q.where_pattern,
    ) + " }"@
}

/// `DELETE { T } WHERE { VALUES ?V { S } W }`.
pub open spec fn delete_update_text(
    q: ConstructQueryModel,
    subject_variable: Seq<char>,
    subject: SubjectModel,
) -> Seq<char> {
    "DELETE { "@ + joined_patterns_text(q.templates) + " } WHERE { VALUES ?"@ + subject_variable
        + " { "@ + subject_text(subject) + " } "@ + graph_pattern_text(q.where_pattern) + " }"@
}

/// An upsert: `DELETE { T } WHERE { VALUES ?V { S } W }; INSERT DATA { D }`.
/// The old triples matched for the subject go, then the data `D` is
/// inserted whether or not the subject was stored before.
pub open spec fn save_update_text(
    q: ConstructQueryModel,
    subject_variable: Seq<char>,
    subject: SubjectModel,
    data: Seq<char>,
) -> Seq<char> {
    delete_update_text(q, subject_variable, subject) + "; "@ + insert_update_text(data)
}

/// `INSERT DATA { D }`.
pub open spec fn insert_update_text(data: Seq<char>) -> Seq<char> {
    "INSERT DATA { "@ + data + " }"@
}

/// The texts of the triple patterns, separated by single spaces.
pub fn format_triple_patterns(triples: &[TriplePattern]) -> (s: String)
    ensures
        s@ == joined_patterns_text(triple_pattern_models(triples@)),
{
    let mut s = String::new();
    let mut i: usize = 0;
    while i < triples.len()
        invariant
            i <= triples.len(),
            s@ == joined_patterns_text(triple_pattern_models(triples@.take(i as int))),
        decreases triples.len() - i,
    {
        if i > 0 {
            push_char(&mut s, ' ');
        }
        let t = triples[i].to_string();
        push_str(&mut s, t.as_str());
        proof {
            let done = triple_pattern_models(triples@.take(i + 1));
            assert(done.drop_last() =~= triple_pattern_models(triples@.take(i as int)));
            assert(done.last() == triples@[i as int]@);
            if i == 0 {
                assert(done.len() == 1);
                assert(s@ =~= triple_pattern_text(done[0]));
            }
        }
        i = i + 1;
    }
    assert(triples@.take(triples.len() as int) =~= triples@);
    s
}

/// The patterns of the query that fetches a resource of type `E`, and the
/// name (without `?`) of the variable bound to its subject: the first
/// generated one. Every variable of the template is that one or a later
/// generated one.
pub fn resource_query_patterns<E: Constructible>() -> (r: (ConstructQueryPatterns, String))
    ensures
        templates_matched(r.0@),
        r.1@ == base26(1),
        exists|c: nat| #[trigger] new_templates_from(empty_patterns(), r.0@, base26(1), 1, c),
        E::obeys_patterns_spec() ==> r.0@ == E::patterns_after(empty_patterns(), base26(1), 1).0,
{
    let mut construct_query_patterns = ConstructQueryPatterns::new();
    assert(construct_query_patterns@ == empty_patterns());
    let mut variable_generator = SparqlVariableGenerator::new();
    let subject_variable = variable_generator.next_variable();
    E::insert_patterns(&mut construct_query_patterns, &mut variable_generator, subject_variable.as_str());
    let r = (construct_query_patterns, subject_variable);
    assert(new_templates_from(empty_patterns(), r.0@, base26(1), 1, variable_generator.count()));
    r
}

/// `CONSTRUCT { T } WHERE { VALUES ?V { S } W }` for the given patterns.
pub fn single_query(
    patterns: &ConstructQueryPatterns,
    subject_variable: &str,
    subject: &Subject,
) -> (s: String)
    ensures
        s@ == single_query_text(patterns@, subject_variable@, subject@),
{
    let mut s = String::new();
    push_str(&mut s, "CONSTRUCT { ");
    let templates = format_triple_patterns(patterns.template_patterns.as_slice());
    push_str(&mut s, templates.as_str());
    push_str(&mut s, " } WHERE { VALUES ?");
    push_str(&mut s, subject_variable);
    push_str(&mut s, " { ");
    let subject_value = subject.to_string();
    push_str(&mut s, subject_value.as_str());
    push_str(&mut s, " } ");
    let where_patterns = patterns.where_pattern.to_string();
    push_str(&mut s, where_patterns.as_str());
    push_str(&mut s, " }");
    assert(s@ =~= single_query_text(patterns@, subject_variable@, subject@));
    s
}

/// `CONSTRUCT { T } WHERE { W }` for the given patterns.
pub fn all_query(patterns: &ConstructQueryPatterns) -> (s: String)
    ensures
        s@ == all_query_text(patterns@),
{
    let mut s = String::new();
    push_str(&mut s, "CONSTRUCT { ");
    let templates = format_triple_patterns(patterns.template_patterns.as_slice());
    push_str(&mut s, templates.as_str());
    push_str(&mut s, " } WHERE { ");
    let where_patterns = patterns.where_pattern.to_string();
    push_str(&mut s, where_patterns.as_str());
    push_str(&mut s, " }");
    assert(s@ =~= all_query_text(patterns@));
    s
}

/// `DELETE { T } WHERE { VALUES ?V { S } W }` for the given patterns.
pub fn delete_update(
    patterns: &ConstructQueryPatterns,
    subject_variable: &str,
    subject: &Subject,
) -> (s: String)
    ensures
        s@ == delete_update_text(patterns@, subject_variable@, subject@),
{
    let mut s = String::new();
    push_str(&mut s, "DELETE { ");
    let templates = format_triple_patterns(patterns.template_patterns.as_slice());
    push_str(&mut s, templates.as_str());
    push_str(&mut s, " } WHERE { VALUES ?");
    push_str(&mut s, subject_variable);
    push_str(&mut s, " { ");
    let subject_value = subject.to_string();
    push_str(&mut s, subject_value.as_str());
    push_str(&mut s, " } ");
    let where_patterns = patterns.where_pattern.to_string();
    push_str(&mut s, where_patterns.as_str());
    push_str(&mut s, " }");
    assert(s@ =~= delete_update_text(patterns@, subject_variable@, subject@));
    s
}

/// The upsert `DELETE { T } WHERE { VALUES ?V { S } W }; INSERT DATA { D }`
/// for the given patterns and data.
pub fn save_update(
    patterns: &ConstructQueryPatterns,
    subject_variable: &str,
    subject: &Subject,
    data: &str,
) -> (s: String)
    ensures
        s@ == save_update_text(patterns@, subject_variable@, subject@, data@),
{
    let mut s = delete_update(patterns, subject_variable, subject);
    push_str(&mut s, "; ");
    let insert = insert_update(data);
    push_str(&mut s, insert.as_str());
    assert(s@ =~= save_update_text(patterns@, subject_variable@, subject@, data@));
    s
}

/// `INSERT DATA { D }`.
pub fn insert_update(data: &str) -> (s: String)
    ensures
        s@ == insert_update_text(data@),
{
    let mut s = String::new();
    push_str(&mut s, "INSERT DATA { ");
    push_str(&mut s, data);
    push_str(&mut s, " }");
    assert(s@ =~= insert_update_text(data@));
    s
}

/// What a fetch of a single resource answers: the resource when it was
/// read, nothing when the subject does not have the resource's `rdf:type`,
/// the error otherwise.
pub fn resolve_single_result<E>(result: Result<E, DeserializeResourceError>) -> (r: Result<
    Option<E>,
    DeserializeResourceError,
>)
    ensures
        match result {
            Ok(e) => r == Ok::<Option<E>, DeserializeResourceError>(Some(e)),
            Err(DeserializeResourceError::InvalidRdfType { .. }) => r == Ok::<
                Option<E>,
                DeserializeResourceError,
            >(None),
            Err(e) => r == Err::<Option<E>, DeserializeResourceError>(e),
        },
{
    match result {
        Ok(entity) => Ok(Some(entity)),
        Err(DeserializeResourceError::InvalidRdfType { .. }) => Ok(None),
        Err(err) => Err(err),
    }
}

/// The Turtle text that `oxttl::TurtleSerializer` (with no prefixes)
/// writes for the triples `ts`, serialized one after the other in that
/// order.
pub uninterp spec fn turtle_text(ts: Seq<TripleModel>) -> Seq<char>;

/// Writes `triples` as Turtle with `oxttl::TurtleSerializer`, one
/// `serialize_triple` call per triple in the order given, into a byte
/// buffer (writing to memory cannot fail; Turtle output is UTF-8).
#[verifier::external_body]
fn turtle_of_statements(triples: &[Statement]) -> (data: String)
    ensures
        data@ == turtle_text(triples@.map_values(|t: Statement| t@)),
{
    let mut serializer = oxttl::TurtleSerializer::new().for_writer(Vec::new());
    for t in triples {
        let triple = oxrdf::Triple::new(ox_subject(&t.subject), ox_named_node(&t.predicate), ox_term(&t.object));
        serializer.serialize_triple(&triple).unwrap();
    }
    String::from_utf8(serializer.finish().unwrap()).unwrap()
}

/// The Turtle text of the triples of `graph`, taken in the graph's own
/// iteration order: some listing of its triples, each once.
fn turtle_of_graph(graph: &oxrdf::Graph) -> (data: String)
    ensures
        exists|ts: Seq<TripleModel>|
            lists_each_once(ts, graph_triples(*graph)) && data@ == #[trigger] turtle_text(ts),
{
    let statements = graph_statements(graph);
    let ghost ts = statements@.map_values(|t: Statement| t@);
    assert forall|t: TripleModel| graph_triples(*graph).contains(t) <==> ts.contains(t) by {
        if graph_triples(*graph).contains(t) {
            let i = choose|i: int| 0 <= i < statements.len() && #[trigger] statements@[i]@ == t;
            assert(ts[i] == t);
        }
        if ts.contains(t) {
            let i = choose|i: int| 0 <= i < ts.len() && ts[i] == t;
            assert(statements@[i]@ == t);
        }
    }
    assert(ts.no_duplicates()) by {
        assert forall|i: int, j: int| 0 <= i < ts.len() && 0 <= j < ts.len() && i != j implies ts[i] != ts[j] by {
            if i < j {
                assert(statements@[i]@ != statements@[j]@);
            } else {
                assert(statements@[j]@ != statements@[i]@);
            }
        }
    }
    turtle_of_statements(statements.as_slice())
}

/// `INSERT DATA { D }` with the resource's triples, written as Turtle, as
/// the data `D`.
pub fn insert_update_for<E: ToRdf>(entity: &E) -> (s: String)
    ensures
        exists|ts: Seq<TripleModel>|
            {
                &&& (E::obeys_to_rdf_spec() ==> lists_each_once(ts, entity.rdf_triples()))
                &&& s@ == insert_update_text(#[trigger] turtle_text(ts))
            },
{
    let mut graph = new_graph();
    entity.to_rdf(&mut graph);
    let data = turtle_of_graph(&graph);
    assert(Set::<TripleModel>::empty().union(entity.rdf_triples()) =~= entity.rdf_triples());
    insert_update(data.as_str())
}

/// The upsert `DELETE { T } WHERE { VALUES ?V { S } W }; INSERT DATA { D }`:
/// the patterns of `E` bound to the resource's subject, and its triples as
/// Turtle data.
pub fn save_update_for<E: Resource + ToRdf + Constructible>(entity: &E) -> (s: String)
    ensures
        exists|q: ConstructQueryModel, subject: SubjectModel, ts: Seq<TripleModel>|
            #![trigger save_update_text(q, base26(1), subject, turtle_text(ts))]
            {
                &&& templates_matched(q)
                &&& exists|c: nat| #[trigger] new_templates_from(empty_patterns(), q, base26(1), 1, c)
                &&& (E::obeys_patterns_spec() ==> q == E::patterns_after(empty_patterns(), base26(1), 1).0)
                &&& (E::obeys_resource_spec() ==> subject == entity.subject_spec())
                &&& exists|sub: &Subject| call_ensures(E::get_subject, (entity,), sub) && subject == sub@
                &&& (E::obeys_to_rdf_spec() ==> lists_each_once(ts, entity.rdf_triples()))
                &&& s@ == save_update_text(q, base26(1), subject, turtle_text(ts))
            },
{
    let (patterns, subject_variable) = resource_query_patterns::<E>();
    let mut graph = new_graph();
    entity.to_rdf(&mut graph);
    let data = turtle_of_graph(&graph);
    assert(Set::<TripleModel>::empty().union(entity.rdf_triples()) =~= entity.rdf_triples());
    let subject = entity.get_subject();
    assert(call_ensures(E::get_subject, (entity,), subject));
    save_update(&patterns, subject_variable.as_str(), subject, data.as_str())
}

} // verus!

//! The RDF graph that values are written to and read from: an
//! `oxrdf::Graph`, seen as the set of triples it holds.

use vstd::prelude::*;

use crate::term::{
    BlankId, LiteralValue, Iri, Subject, SubjectModel, RdfTerm, TermModel, Statement,
    TripleModel,
};

verus! {

/// `oxrdf::Graph`, a set of triples (its content is named by `graph_triples`).
#[verifier::external_type_specification]
#[verifier::external_body]
pub struct ExGraph(oxrdf::Graph);

/// `oxrdf::NamedNode`.
#[verifier::external_type_specification]
#[verifier::external_body]
pub struct ExOxNamedNode(oxrdf::NamedNode);

/// `oxrdf::NamedOrBlankNode`.
#[verifier::external_type_specification]
#[verifier::external_body]
pub struct ExOxNamedOrBlankNode(oxrdf::NamedOrBlankNode);

/// `oxrdf::Term`.
#[verifier::external_type_specification]
#[verifier::external_body]
pub struct ExOxTerm(oxrdf::Term);

/// `oxrdf::Literal`.
#[verifier::external_type_specification]
#[verifier::external_body]
pub struct ExOxLiteral(oxrdf::Literal);

/// The set of triples that an `oxrdf::Graph` holds.
pub uninterp spec fn graph_triples(g: oxrdf::Graph) -> Set<TripleModel>;

/// The objects `o` such that `(s, p, o)` is one of `triples`.
pub open spec fn objects_of(triples: Set<TripleModel>, s: SubjectModel, p: Seq<char>) -> Set<
    TermModel,
> {
    Set::new(|o: TermModel| triples.contains(TripleModel { subject: s, predicate: p, object: o }))
}

/// The subjects `s` such that `(s, p, o)` is one of `triples`.
pub open spec fn subjects_of(triples: Set<TripleModel>, p: Seq<char>, o: TermModel) -> Set<
    SubjectModel,
> {
    Set::new(|s: SubjectModel| triples.contains(TripleModel { subject: s, predicate: p, object: o }))
}

/// Whether the views of the elements of `v` are pairwise distinct.
pub open spec fn distinct_terms(v: Seq<RdfTerm>) -> bool {
    forall|i: int, j: int| 0 <= i < j < v.len() ==> v[i]@ != v[j]@
}

/// Whether the views of the elements of `v` are pairwise distinct.
pub open spec fn distinct_subjects(v: Seq<Subject>) -> bool {
    forall|i: int, j: int| 0 <= i < j < v.len() ==> v[i]@ != v[j]@
}

/// Whether `s` lists each element of `set` exactly once, in some order.
pub open spec fn lists_each_once<A>(s: Seq<A>, set: Set<A>) -> bool {
    &&& s.no_duplicates()
    &&& forall|a: A| set.contains(a) <==> s.contains(a)
}

/// Whether the views of the elements of `v` are pairwise distinct.
pub open spec fn distinct_statements(v: Seq<Statement>) -> bool {
    forall|i: int, j: int| 0 <= i < j < v.len() ==> v[i]@ != v[j]@
}

/// Converts a named node to its `oxrdf` counterpart (`Iri::new_unchecked`
/// on the same IRI).
#[verifier::external_body]
pub(crate) fn ox_named_node(n: &Iri) -> oxrdf::NamedNode {
    oxrdf::NamedNode::new_unchecked(n.as_str())
}

/// Converts a subject to its `oxrdf` counterpart, keeping the IRI or the
/// blank node identifier.
#[verifier::external_body]
pub(crate) fn ox_subject(s: &Subject) -> oxrdf::NamedOrBlankNode {
    match s {
        Subject::Iri(n) => ox_named_node(n).into(),
        Subject::Blank(b) => oxrdf::BlankNode::new_unchecked(b.as_str()).into(),
    }
}

/// Converts a literal to its `oxrdf` counterpart: a language-tagged string
/// keeps its tag (`new_language_tagged_literal_unchecked`), any other literal
/// its datatype (`new_typed_literal`).
#[verifier::external_body]
fn ox_literal(l: &LiteralValue) -> oxrdf::Literal {
    match l.language() {
        Some(lang) => oxrdf::Literal::new_language_tagged_literal_unchecked(l.value(), lang),
        None => oxrdf::Literal::new_typed_literal(l.value(), ox_named_node(&l.datatype())),
    }
}

/// Converts a term to its `oxrdf` counterpart.
#[verifier::external_body]
pub(crate) fn ox_term(t: &RdfTerm) -> oxrdf::Term {
    match t {
        RdfTerm::Iri(n) => ox_named_node(n).into(),
        RdfTerm::Blank(b) => oxrdf::BlankNode::new_unchecked(b.as_str()).into(),
        RdfTerm::Lit(l) => ox_literal(l).into(),
    }
}

/// Converts an `oxrdf` literal back (`LiteralValue::destruct`): lexical form,
/// language tag if any, else datatype (`xsd:string` when none is stored).
#[verifier::external_body]
fn lib_literal(l: oxrdf::Literal) -> LiteralValue {
    match l.destruct() {
        (value, _, Some(lang)) => LiteralValue::new_language_tagged_literal_unchecked(value, lang),
        (value, Some(dt), None) => LiteralValue::new_typed_literal(value, Iri::new_unchecked(dt.into_string())),
        (value, None, None) => LiteralValue::new_simple_literal(value),
    }
}

/// Converts an `oxrdf` term back, keeping IRIs and blank node identifiers.
#[verifier::external_body]
fn lib_term(t: oxrdf::Term) -> RdfTerm {
    match t {
        oxrdf::Term::NamedNode(n) => RdfTerm::Iri(Iri::new_unchecked(n.into_string())),
        oxrdf::Term::BlankNode(b) => RdfTerm::Blank(BlankId::new_unchecked(b.into_string())),
        oxrdf::Term::Literal(l) => RdfTerm::Lit(lib_literal(l)),
    }
}

/// Converts an `oxrdf` subject back, keeping the IRI or identifier.
#[verifier::external_body]
fn lib_subject(s: oxrdf::NamedOrBlankNode) -> Subject {
    match s {
        oxrdf::NamedOrBlankNode::NamedNode(n) => Subject::Iri(Iri::new_unchecked(n.into_string())),
        oxrdf::NamedOrBlankNode::BlankNode(b) => Subject::Blank(BlankId::new_unchecked(b.into_string())),
    }
}

/// Calls `oxrdf::Graph::new`: a graph with no triple.
#[verifier::external_body]
pub(crate) fn new_graph() -> (g: oxrdf::Graph)
    ensures
        graph_triples(g) == Set::<TripleModel>::empty(),
{
    oxrdf::Graph::new()
}

/// Calls `oxrdf::Graph::insert`: the graph now also holds `t` (a graph is a
/// set, so a triple already there is not added twice); the result tells
/// whether `t` was new.
#[verifier::external_body]
pub(crate) fn graph_insert(g: &mut oxrdf::Graph, t: &Statement) -> (added: bool)
    ensures
        graph_triples(*final(g)) == graph_triples(*old(g)).insert(t@),
        added == !graph_triples(*old(g)).contains(t@),
{
    g.insert(&oxrdf::Triple::new(ox_subject(&t.subject), ox_named_node(&t.predicate), ox_term(&t.object)))
}

/// Calls `oxrdf::Graph::objects_for_subject_predicate`: every object of a
/// triple with subject `s` and predicate `p`, each once. The order is the
/// graph's internal index order, which nothing here states.
#[verifier::external_body]
pub(crate) fn graph_objects(g: &oxrdf::Graph, s: &Subject, p: &Iri) -> (v: Vec<RdfTerm>)
    ensures
        distinct_terms(v@),
        forall|o: TermModel|
            objects_of(graph_triples(*g), s@, p@).contains(o) <==> exists|i: int|
                0 <= i < v.len() && #[trigger] v@[i]@ == o,
{
    let mut v = Vec::new();
    for o in g.objects_for_subject_predicate(&ox_subject(s), &ox_named_node(p)) {
        v.push(lib_term(o.into_owned()));
    }
    v
}

/// Calls `oxrdf::Graph::object_for_subject_predicate`: some object of a
/// triple with subject `s` and predicate `p` (the first in index order, which
/// nothing here states), or `None` when there is none.
#[verifier::external_body]
pub(crate) fn graph_object(g: &oxrdf::Graph, s: &Subject, p: &Iri) -> (r: Option<RdfTerm>)
    ensures
        r is None <==> objects_of(graph_triples(*g), s@, p@).is_empty(),
        r matches Some(t) ==> objects_of(graph_triples(*g), s@, p@).contains(t@),
{
    g.object_for_subject_predicate(&ox_subject(s), &ox_named_node(p)).map(|o| lib_term(o.into_owned()))
}

/// Calls `oxrdf::Graph::subjects_for_predicate_object`: every subject of a
/// triple with predicate `p` and object `o`, each once, in an order that
/// nothing here states.
#[verifier::external_body]
pub(crate) fn graph_subjects(g: &oxrdf::Graph, p: &Iri, o: &RdfTerm) -> (v: Vec<Subject>)
    ensures
        distinct_subjects(v@),
        forall|s: SubjectModel|
            subjects_of(graph_triples(*g), p@, o@).contains(s) <==> exists|i: int|
                0 <= i < v.len() && #[trigger] v@[i]@ == s,
{
    let mut v = Vec::new();
    for s in g.subjects_for_predicate_object(&ox_named_node(p), &ox_term(o)) {
        v.push(lib_subject(s.into_owned()));
    }
    v
}

/// Walks `oxrdf::Graph::iter`: every triple of the graph, each once. The
/// order is the graph's internal index order, which rests on the hashes its
/// interner draws (seeded per process), so nothing here states it.
#[verifier::external_body]
pub(crate) fn graph_statements(g: &oxrdf::Graph) -> (v: Vec<Statement>)
    ensures
        distinct_statements(v@),
        forall|t: TripleModel|
            graph_triples(*g).contains(t) <==> exists|i: int|
                0 <= i < v.len() && #[trigger] v@[i]@ == t,
{
    let mut v = Vec::new();
    for t in g.iter() {
        v.push(Statement {
            subject: lib_subject(t.subject.into_owned()),
            predicate: Iri::new_unchecked(t.predicate.into_owned().into_string()),
            object: lib_term(t.object.into_owned()),
        });
    }
    v
}

} // verus!

//! A reference to an object term, read as a value only when asked.

use vstd::prelude::*;

use crate::graph::{graph_triples, objects_of};
use crate::object::{lemma_string_term_round_trip, object_error_fits, FromRdfObject, ObjectErrorModel, RdfObjectError, ToRdfObject};
use crate::property::{
    insert_object, single_object, string_term, triple, FromRdfProperty, PropertyErrorModel, RdfPropertyError,
    ToRdfProperty,
};
use crate::term::{Iri, RdfTerm, Subject, SubjectModel, TermModel, TripleModel};

verus! {

/// The object term of a property, to be read as a `T` later
/// (`deserialize`), for instance once the graph holding the resource it
/// names is at hand.
#[derive(Debug)]
pub struct ObjectRef<T> {
    object_term: RdfTerm,
    marker: std::marker::PhantomData<T>,
}

impl<T> View for ObjectRef<T> {
    type V = TermModel;

    open spec fn view(&self) -> TermModel {
        self.spec_term()@
    }
}

impl<T> ObjectRef<T> {
    /// The term referred to.
    pub closed spec fn spec_term(&self) -> RdfTerm {
        self.object_term
    }

    /// A reference to `object_term`.
    pub fn new(object_term: RdfTerm) -> (r: Self)
        ensures
            r.spec_term() == object_term,
    {
        ObjectRef { object_term, marker: std::marker::PhantomData }
    }
}

impl<T: FromRdfObject> ObjectRef<T> {
    /// Reads the term as a `T` (`T::from_term`), with `graph` for the
    /// triples of the resource it may name; a refusal describes the term.
    pub fn deserialize(&self, graph: &oxrdf::Graph) -> (r: Result<T, RdfObjectError>)
        ensures
            r matches Err(e) ==> object_error_fits(e@, self@),
            call_ensures(T::from_term, (graph, &self.spec_term()), r),
            T::obeys_from_term_spec() ==> T::reads_term(graph_triples(*graph), self@, r),
    {
        T::from_term(graph, &self.object_term)
    }
}

impl<T> ToRdfObject for ObjectRef<T> {
    /// The term itself; nothing is added to the graph.
    fn to_term(&self, graph: &mut oxrdf::Graph) -> (t: RdfTerm)
        ensures
            t == self.spec_term(),
            graph_triples(*final(graph)) == graph_triples(*old(graph)),
    {
        self.object_term.clone()
    }
}

impl<T> FromRdfObject for ObjectRef<T> {
    open spec fn obeys_from_term_spec() -> bool {
        true
    }

    open spec fn reads_term(triples: Set<TripleModel>, term: TermModel, r: Result<ObjectRef<T>, RdfObjectError>) -> bool {
        r matches Ok(v) && v@ == term
    }

    /// Any term: the reading into a `T` is left to `deserialize`.
    fn from_term(graph: &oxrdf::Graph, term: &RdfTerm) -> (r: Result<ObjectRef<T>, RdfObjectError>)
        ensures
            r matches Ok(v) && v.spec_term() == *term,
    {
        Ok(ObjectRef::new(term.clone()))
    }
}

impl<T> ToRdfProperty for ObjectRef<T> {
    open spec fn obeys_to_property_spec() -> bool {
        true
    }

    open spec fn writes_property(&self, before: Set<TripleModel>, after: Set<TripleModel>, s: SubjectModel, p: Seq<char>) -> bool {
        after == before.insert(triple(s, p, self@))
    }

    /// Adds `(subject, predicate, term)`.
    fn to_property(&self, graph: &mut oxrdf::Graph, subject: &Subject, predicate: &Iri)
        ensures
            graph_triples(*final(graph)) == graph_triples(*old(graph)).insert(
                triple(subject@, predicate@, self@),
            ),
    {
        insert_object(graph, subject, predicate, self.object_term.clone());
    }
}

impl<T> FromRdfProperty for ObjectRef<T> {
    /// A reference to one object of the property, or the refusal of a
    /// missing value.
    fn from_property(graph: &oxrdf::Graph, subject: &Subject, predicate: &Iri) -> (r: Result<
        ObjectRef<T>,
        RdfPropertyError,
    >)
        ensures
            r is Err <==> objects_of(graph_triples(*graph), subject@, predicate@).is_empty(),
            r matches Ok(v) ==> objects_of(graph_triples(*graph), subject@, predicate@).contains(v@),
            r matches Err(e) ==> e@ == PropertyErrorModel::MissingObjectValue(predicate@),
    {
        let object = single_object(graph, subject, predicate)?;
        Ok(ObjectRef::new(object))
    }
}

/// A reference to a named node resolves, as an IRI, to that node's IRI; a
/// reference to any other term is refused as unexpected.
pub proof fn lemma_iri_reference_resolves_to_its_node(
    reference: &ObjectRef<Iri>,
    graph: &oxrdf::Graph,
    r: Result<Iri, RdfObjectError>,
)
    requires
        call_ensures(ObjectRef::<Iri>::deserialize, (reference, graph), r),
    ensures
        r is Ok <==> reference@ is Named,
        r matches Ok(i) ==> reference@ == TermModel::Named(i@),
        r matches Err(e) ==> e@ == ObjectErrorModel::UnexpectedTermType(reference@),
{
}

/// A reference to the literal of a string resolves, as a string, to that
/// string.
pub proof fn lemma_string_reference_resolves_to_its_string(
    reference: &ObjectRef<String>,
    graph: &oxrdf::Graph,
    r: Result<String, RdfObjectError>,
    x: Seq<char>,
)
    requires
        call_ensures(ObjectRef::<String>::deserialize, (reference, graph), r),
        reference@ == string_term(x),
    ensures
        r matches Ok(v) && v@ == x,
{
    lemma_string_term_round_trip(x);
}

} // verus!

//! The `rdf:type` of a resource, read and written as a property value.

use vstd::prelude::*;

use crate::graph::{graph_triples, objects_of};
use crate::object::{decode_iri_term, is_reading, FromRdfObject, ObjectErrorModel, RdfObjectError, ToRdfObject};
use crate::property::{
    insert_object, single_object, single_reading, triple, FromRdfProperty, PropertyErrorModel,
    RdfPropertyError, ToRdfProperty,
};
use crate::term::{Iri, RdfTerm, Subject, TermModel, TripleModel};

verus! {

/// An `rdf:type` value: the IRI of a class.
#[derive(Debug)]
pub struct RdfType {
    value: Iri,
}

impl View for RdfType {
    type V = Seq<char>;

    open spec fn view(&self) -> Seq<char> {
        self.spec_value()@
    }
}

impl Clone for RdfType {
    fn clone(&self) -> (r: Self)
        ensures
            r == *self,
    {
        RdfType { value: self.value.clone() }
    }
}

impl RdfType {
    /// The class IRI.
    pub closed spec fn spec_value(&self) -> Iri {
        self.value
    }

    /// The `rdf:type` value naming the class `value`.
    pub fn new(value: Iri) -> (t: Self)
        ensures
            t.spec_value() == value,
    {
        RdfType { value }
    }

    /// The class IRI.
    pub fn get_named_node(&self) -> (n: &Iri)
        ensures
            *n == self.spec_value(),
    {
        &self.value
    }
}

impl ToRdfObject for RdfType {
    /// The class IRI as a named node.
    fn to_term(&self, graph: &mut oxrdf::Graph) -> (t: RdfTerm)
        ensures
            t@ == TermModel::Named(self@),
            graph_triples(*final(graph)) == graph_triples(*old(graph)),
    {
        RdfTerm::Iri(self.value.clone())
    }
}

impl FromRdfObject for RdfType {
    open spec fn obeys_from_term_spec() -> bool {
        true
    }

    open spec fn reads_term(triples: Set<TripleModel>, term: TermModel, r: Result<RdfType, RdfObjectError>) -> bool {
        is_reading(r, decode_iri_term(term), |v: RdfType| v@)
    }

    /// A named node names the class; any other term is refused.
    fn from_term(graph: &oxrdf::Graph, term: &RdfTerm) -> (r: Result<RdfType, RdfObjectError>)
        ensures
            r matches Ok(v) ==> decode_iri_term(term@) == Ok::<Seq<char>, ObjectErrorModel>(v@),
            r matches Err(e) ==> decode_iri_term(term@) == Err::<Seq<char>, ObjectErrorModel>(e@),
    {
        match term {
            RdfTerm::Iri(n) => Ok(RdfType::new(n.clone())),
            _ => Err(RdfObjectError::UnexpectedTermType(term.clone())),
        }
    }
}

impl ToRdfProperty for RdfType {
    /// Adds `(subject, predicate, <class>)`.
    fn to_property(&self, graph: &mut oxrdf::Graph, subject: &Subject, predicate: &Iri)
        ensures
            graph_triples(*final(graph)) == graph_triples(*old(graph)).insert(
                triple(subject@, predicate@, TermModel::Named(self@)),
            ),
    {
        let object = self.to_term(graph);
        insert_object(graph, subject, predicate, object);
    }
}

impl FromRdfProperty for RdfType {
    /// Reads one object of the property as a class IRI.
    fn from_property(graph: &oxrdf::Graph, subject: &Subject, predicate: &Iri) -> (r: Result<
        RdfType,
        RdfPropertyError,
    >)
        ensures
            single_reading(
                objects_of(graph_triples(*graph), subject@, predicate@),
                predicate@,
                |o: TermModel| decode_iri_term(o),
                match r {
                    Ok(v) => Ok::<Seq<char>, PropertyErrorModel>(v@),
                    Err(e) => Err(e@),
                },
            ),
    {
        let object = single_object(graph, subject, predicate)?;
        let ghost o = object@;
        let r = match RdfType::from_term(graph, &object) {
            Ok(v) => Ok(v),
            Err(e) => Err(RdfPropertyError::Object(e)),
        };
        assert(objects_of(graph_triples(*graph), subject@, predicate@).contains(o));
        r
    }
}

} // verus!

//! Properties: the objects that a subject has for a predicate, written to
//! and read from a graph.

use vstd::prelude::*;

use crate::graph::{distinct_terms, graph_insert, graph_object, graph_objects, graph_triples, lists_each_once, objects_of};
use crate::literal::{bool_text, int_literal, typed_literal, xsd_boolean_iri, xsd_byte_iri, xsd_integer_iri, xsd_long_iri, xsd_unsigned_byte_iri, xsd_unsigned_int_iri, xsd_unsigned_long_iri};
use crate::object::{
    object_error_fits,
    FromRdfObject, ObjectErrorModel, RdfObjectError, ToRdfObject, decode_blank_term, decode_bool_term,
    decode_int_term, decode_iri_term, decode_literal_term, decode_string_term, decode_subject_term,
    lemma_int_term_round_trip, lemma_bool_term_round_trip, lemma_string_term_round_trip,
};
use crate::term::{BlankId, Iri, LiteralModel, LiteralValue, RdfTerm, Statement, Subject, SubjectModel, TermModel, TripleModel, subject_term, xsd_string_iri};

verus! {

/// Why a property could not be read.
#[derive(Debug)]
pub enum RdfPropertyError {
    /// The subject has no object for the predicate.
    MissingObjectValue(Iri),
    /// The object does not read as the value.
    Object(RdfObjectError),
}

/// Model of `RdfPropertyError`.
pub enum PropertyErrorModel {
    MissingObjectValue(Seq<char>),
    Object(ObjectErrorModel),
}

impl View for RdfPropertyError {
    type V = PropertyErrorModel;

    open spec fn view(&self) -> PropertyErrorModel {
        match self {
            RdfPropertyError::MissingObjectValue(p) => PropertyErrorModel::MissingObjectValue(p@),
            RdfPropertyError::Object(e) => PropertyErrorModel::Object(e@),
        }
    }
}

/// The reading of an object, as the reading of a property.
pub open spec fn lift_reading<V>(d: Result<V, ObjectErrorModel>) -> Result<V, PropertyErrorModel> {
    match d {
        Ok(v) => Ok(v),
        Err(e) => Err(PropertyErrorModel::Object(e)),
    }
}

/// Whether `r` is a possible reading of a single-valued property whose
/// objects are `objs`: a missing value when there is none, else the reading
/// (by `decode`) of one of them (which one, the graph's index order decides).
pub open spec fn single_reading<V>(
    objs: Set<TermModel>,
    p: Seq<char>,
    decode: spec_fn(TermModel) -> Result<V, ObjectErrorModel>,
    r: Result<V, PropertyErrorModel>,
) -> bool {
    if objs.is_empty() {
        r == Err::<V, PropertyErrorModel>(PropertyErrorModel::MissingObjectValue(p))
    } else {
        exists|o: TermModel| #[trigger] objs.contains(o) && r == lift_reading(decode(o))
    }
}

/// The triple `(s, p, o)`.
pub open spec fn triple(s: SubjectModel, p: Seq<char>, o: TermModel) -> TripleModel {
    TripleModel { subject: s, predicate: p, object: o }
}

/// A value that writes itself as the objects of a property.
pub trait ToRdfProperty: Sized {
    /// Whether this type's writing is the one `writes_property` states (the
    /// types of this library say so; another implementation promises
    /// nothing by default).
    open spec fn obeys_to_property_spec() -> bool {
        false
    }

    /// Whether writing the value as the object(s) of `s` for `p` turns a
    /// graph holding `before` into one holding `after`.
    open spec fn writes_property(&self, before: Set<TripleModel>, after: Set<TripleModel>, s: SubjectModel, p: Seq<char>) -> bool {
        true
    }

    /// Writes the value into `graph` as object(s) of `subject` for
    /// `predicate`; the graph keeps every triple it had.
    fn to_property(&self, graph: &mut oxrdf::Graph, subject: &Subject, predicate: &Iri)
        ensures
            graph_triples(*old(graph)).subset_of(graph_triples(*final(graph))),
            Self::obeys_to_property_spec() ==> self.writes_property(
                graph_triples(*old(graph)),
                graph_triples(*final(graph)),
                subject@,
                predicate@,
            ),
    ;
}

/// Whether a refusal to read the property `p` whose objects are `objs` fits
/// them: a missing value when there is no object, else the refusal of one
/// of the objects, which describes that object.
pub open spec fn property_error_fits(e: PropertyErrorModel, objs: Set<TermModel>, p: Seq<char>) -> bool {
    match e {
        PropertyErrorModel::MissingObjectValue(q) => q == p && objs.is_empty(),
        PropertyErrorModel::Object(oe) => exists|o: TermModel| #[trigger] objs.contains(o) && object_error_fits(oe, o),
    }
}

/// A value that reads itself from the objects of a property.
pub trait FromRdfProperty: Sized {
    /// Reads the value from the object(s) of `subject` for `predicate`. A
    /// refusal is a missing value when there is no object, else the refusal
    /// of one of the objects.
    fn from_property(graph: &oxrdf::Graph, subject: &Subject, predicate: &Iri) -> (r: Result<Self, RdfPropertyError>)
        ensures
            r matches Err(e) ==> property_error_fits(
                e@,
                objects_of(graph_triples(*graph), subject@, predicate@),
                predicate@,
            ),
    ;
}

/// Adds the triple `(subject, predicate, object)` to the graph.
pub fn insert_object(graph: &mut oxrdf::Graph, subject: &Subject, predicate: &Iri, object: RdfTerm)
    ensures
        graph_triples(*final(graph)) == graph_triples(*old(graph)).insert(triple(subject@, predicate@, object@)),
{
    let t = Statement::new(subject.clone(), predicate.clone(), object);
    let _ = graph_insert(graph, &t);
}

/// One object of `subject` for `predicate`, or the refusal of a missing value.
pub fn single_object(graph: &oxrdf::Graph, subject: &Subject, predicate: &Iri) -> (r: Result<RdfTerm, RdfPropertyError>)
    ensures
        r is Err <==> objects_of(graph_triples(*graph), subject@, predicate@).is_empty(),
        r matches Ok(t) ==> objects_of(graph_triples(*graph), subject@, predicate@).contains(t@),
        r matches Err(e) ==> e@ == PropertyErrorModel::MissingObjectValue(predicate@),
{
    match graph_object(graph, subject, predicate) {
        Some(t) => Ok(t),
        None => Err(RdfPropertyError::MissingObjectValue(predicate.clone())),
    }
}

impl ToRdfProperty for i8 {
    open spec fn obeys_to_property_spec() -> bool {
        true
    }

    open spec fn writes_property(&self, before: Set<TripleModel>, after: Set<TripleModel>, s: SubjectModel, p: Seq<char>) -> bool {
        after == before.insert(triple(s, p, TermModel::Literal(int_literal(*self as int, xsd_byte_iri()))))
    }

    fn to_property(&self, graph: &mut oxrdf::Graph, subject: &Subject, predicate: &Iri)
        ensures
            graph_triples(*final(graph)) == graph_triples(*old(graph)).insert(triple(subject@, predicate@, TermModel::Literal(int_literal(*self as int, xsd_byte_iri())))),
    {
        let object = self.to_term(graph);
        insert_object(graph, subject, predicate, object);
    }
}

impl FromRdfProperty for i8 {
    fn from_property(graph: &oxrdf::Graph, subject: &Subject, predicate: &Iri) -> (r: Result<i8, RdfPropertyError>)
        ensures
            single_reading(
                objects_of(graph_triples(*graph), subject@, predicate@),
                predicate@,
                |o: TermModel| decode_int_term(o, xsd_byte_iri(), i8::MIN as int, i8::MAX as int, true),
                match r {
                    Ok(v) => Ok::<int, PropertyErrorModel>(v as int),
                    Err(e) => Err(e@),
                },
            ),
    {
        let object = single_object(graph, subject, predicate)?;
        let ghost o = object@;
        let r = match i8::from_term(graph, &object) {
            Ok(v) => Ok(v),
            Err(e) => Err(RdfPropertyError::Object(e)),
        };
        assert(objects_of(graph_triples(*graph), subject@, predicate@).contains(o));
        r
    }
}

impl ToRdfProperty for i32 {
    open spec fn obeys_to_property_spec() -> bool {
        true
    }

    open spec fn writes_property(&self, before: Set<TripleModel>, after: Set<TripleModel>, s: SubjectModel, p: Seq<char>) -> bool {
        after == before.insert(triple(s, p, TermModel::Literal(int_literal(*self as int, xsd_integer_iri()))))
    }

    fn to_property(&self, graph: &mut oxrdf::Graph, subject: &Subject, predicate: &Iri)
        ensures
            graph_triples(*final(graph)) == graph_triples(*old(graph)).insert(triple(subject@, predicate@, TermModel::Literal(int_literal(*self as int, xsd_integer_iri())))),
    {
        let object = self.to_term(graph);
        insert_object(graph, subject, predicate, object);
    }
}

impl FromRdfProperty for i32 {
    fn from_property(graph: &oxrdf::Graph, subject: &Subject, predicate: &Iri) -> (r: Result<i32, RdfPropertyError>)
        ensures
            single_reading(
                objects_of(graph_triples(*graph), subject@, predicate@),
                predicate@,
                |o: TermModel| decode_int_term(o, xsd_integer_iri(), i32::MIN as int, i32::MAX as int, true),
                match r {
                    Ok(v) => Ok::<int, PropertyErrorModel>(v as int),
                    Err(e) => Err(e@),
                },
            ),
    {
        let object = single_object(graph, subject, predicate)?;
        let ghost o = object@;
        let r = match i32::from_term(graph, &object) {
            Ok(v) => Ok(v),
            Err(e) => Err(RdfPropertyError::Object(e)),
        };
        assert(objects_of(graph_triples(*graph), subject@, predicate@).contains(o));
        r
    }
}

impl ToRdfProperty for i64 {
    open spec fn obeys_to_property_spec() -> bool {
        true
    }

    open spec fn writes_property(&self, before: Set<TripleModel>, after: Set<TripleModel>, s: SubjectModel, p: Seq<char>) -> bool {
        after == before.insert(triple(s, p, TermModel::Literal(int_literal(*self as int, xsd_long_iri()))))
    }

    fn to_property(&self, graph: &mut oxrdf::Graph, subject: &Subject, predicate: &Iri)
        ensures
            graph_triples(*final(graph)) == graph_triples(*old(graph)).insert(triple(subject@, predicate@, TermModel::Literal(int_literal(*self as int, xsd_long_iri())))),
    {
        let object = self.to_term(graph);
        insert_object(graph, subject, predicate, object);
    }
}

impl FromRdfProperty for i64 {
    fn from_property(graph: &oxrdf::Graph, subject: &Subject, predicate: &Iri) -> (r: Result<i64, RdfPropertyError>)
        ensures
            single_reading(
                objects_of(graph_triples(*graph), subject@, predicate@),
                predicate@,
                |o: TermModel| decode_int_term(o, xsd_long_iri(), i64::MIN as int, i64::MAX as int, true),
                match r {
                    Ok(v) => Ok::<int, PropertyErrorModel>(v as int),
                    Err(e) => Err(e@),
                },
            ),
    {
        let object = single_object(graph, subject, predicate)?;
        let ghost o = object@;
        let r = match i64::from_term(graph, &object) {
            Ok(v) => Ok(v),
            Err(e) => Err(RdfPropertyError::Object(e)),
        };
        assert(objects_of(graph_triples(*graph), subject@, predicate@).contains(o));
        r
    }
}

impl ToRdfProperty for u8 {
    open spec fn obeys_to_property_spec() -> bool {
        true
    }

    open spec fn writes_property(&self, before: Set<TripleModel>, after: Set<TripleModel>, s: SubjectModel, p: Seq<char>) -> bool {
        after == before.insert(triple(s, p, TermModel::Literal(int_literal(*self as int, xsd_unsigned_byte_iri()))))
    }

    fn to_property(&self, graph: &mut oxrdf::Graph, subject: &Subject, predicate: &Iri)
        ensures
            graph_triples(*final(graph)) == graph_triples(*old(graph)).insert(triple(subject@, predicate@, TermModel::Literal(int_literal(*self as int, xsd_unsigned_byte_iri())))),
    {
        let object = self.to_term(graph);
        insert_object(graph, subject, predicate, object);
    }
}

impl FromRdfProperty for u8 {
    fn from_property(graph: &oxrdf::Graph, subject: &Subject, predicate: &Iri) -> (r: Result<u8, RdfPropertyError>)
        ensures
            single_reading(
                objects_of(graph_triples(*graph), subject@, predicate@),
                predicate@,
                |o: TermModel| decode_int_term(o, xsd_unsigned_byte_iri(), 0, u8::MAX as int, false),
                match r {
                    Ok(v) => Ok::<int, PropertyErrorModel>(v as int),
                    Err(e) => Err(e@),
                },
            ),
    {
        let object = single_object(graph, subject, predicate)?;
        let ghost o = object@;
        let r = match u8::from_term(graph, &object) {
            Ok(v) => Ok(v),
            Err(e) => Err(RdfPropertyError::Object(e)),
        };
        assert(objects_of(graph_triples(*graph), subject@, predicate@).contains(o));
        r
    }
}

impl ToRdfProperty for u32 {
    open spec fn obeys_to_property_spec() -> bool {
        true
    }

    open spec fn writes_property(&self, before: Set<TripleModel>, after: Set<TripleModel>, s: SubjectModel, p: Seq<char>) -> bool {
        after == before.insert(triple(s, p, TermModel::Literal(int_literal(*self as int, xsd_unsigned_int_iri()))))
    }

    fn to_property(&self, graph: &mut oxrdf::Graph, subject: &Subject, predicate: &Iri)
        ensures
            graph_triples(*final(graph)) == graph_triples(*old(graph)).insert(triple(subject@, predicate@, TermModel::Literal(int_literal(*self as int, xsd_unsigned_int_iri())))),
    {
        let object = self.to_term(graph);
        insert_object(graph, subject, predicate, object);
    }
}

impl FromRdfProperty for u32 {
    fn from_property(graph: &oxrdf::Graph, subject: &Subject, predicate: &Iri) -> (r: Result<u32, RdfPropertyError>)
        ensures
            single_reading(
                objects_of(graph_triples(*graph), subject@, predicate@),
                predicate@,
                |o: TermModel| decode_int_term(o, xsd_unsigned_int_iri(), 0, u32::MAX as int, false),
                match r {
                    Ok(v) => Ok::<int, PropertyErrorModel>(v as int),
                    Err(e) => Err(e@),
                },
            ),
    {
        let object = single_object(graph, subject, predicate)?;
        let ghost o = object@;
        let r = match u32::from_term(graph, &object) {
            Ok(v) => Ok(v),
            Err(e) => Err(RdfPropertyError::Object(e)),
        };
        assert(objects_of(graph_triples(*graph), subject@, predicate@).contains(o));
        r
    }
}

impl ToRdfProperty for u64 {
    open spec fn obeys_to_property_spec() -> bool {
        true
    }

    open spec fn writes_property(&self, before: Set<TripleModel>, after: Set<TripleModel>, s: SubjectModel, p: Seq<char>) -> bool {
        after == before.insert(triple(s, p, TermModel::Literal(int_literal(*self as int, xsd_unsigned_long_iri()))))
    }

    fn to_property(&self, graph: &mut oxrdf::Graph, subject: &Subject, predicate: &Iri)
        ensures
            graph_triples(*final(graph)) == graph_triples(*old(graph)).insert(triple(subject@, predicate@, TermModel::Literal(int_literal(*self as int, xsd_unsigned_long_iri())))),
    {
        let object = self.to_term(graph);
        insert_object(graph, subject, predicate, object);
    }
}

impl FromRdfProperty for u64 {
    fn from_property(graph: &oxrdf::Graph, subject: &Subject, predicate: &Iri) -> (r: Result<u64, RdfPropertyError>)
        ensures
            single_reading(
                objects_of(graph_triples(*graph), subject@, predicate@),
                predicate@,
                |o: TermModel| decode_int_term(o, xsd_unsigned_long_iri(), 0, u64::MAX as int, false),
                match r {
                    Ok(v) => Ok::<int, PropertyErrorModel>(v as int),
                    Err(e) => Err(e@),
                },
            ),
    {
        let object = single_object(graph, subject, predicate)?;
        let ghost o = object@;
        let r = match u64::from_term(graph, &object) {
            Ok(v) => Ok(v),
            Err(e) => Err(RdfPropertyError::Object(e)),
        };
        assert(objects_of(graph_triples(*graph), subject@, predicate@).contains(o));
        r
    }
}

impl ToRdfProperty for bool {
    open spec fn obeys_to_property_spec() -> bool {
        true
    }

    open spec fn writes_property(&self, before: Set<TripleModel>, after: Set<TripleModel>, s: SubjectModel, p: Seq<char>) -> bool {
        after == before.insert(triple(s, p, TermModel::Literal(typed_literal(bool_text(*self), xsd_boolean_iri()))))
    }

    fn to_property(&self, graph: &mut oxrdf::Graph, subject: &Subject, predicate: &Iri)
        ensures
            graph_triples(*final(graph)) == graph_triples(*old(graph)).insert(triple(subject@, predicate@, TermModel::Literal(typed_literal(bool_text(*self), xsd_boolean_iri())))),
    {
        let object = self.to_term(graph);
        insert_object(graph, subject, predicate, object);
    }
}

impl FromRdfProperty for bool {
    fn from_property(graph: &oxrdf::Graph, subject: &Subject, predicate: &Iri) -> (r: Result<bool, RdfPropertyError>)
        ensures
            single_reading(
                objects_of(graph_triples(*graph), subject@, predicate@),
                predicate@,
                |o: TermModel| decode_bool_term(o),
                match r {
                    Ok(v) => Ok::<bool, PropertyErrorModel>(v),
                    Err(e) => Err(e@),
                },
            ),
    {
        let object = single_object(graph, subject, predicate)?;
        let ghost o = object@;
        let r = match bool::from_term(graph, &object) {
            Ok(v) => Ok(v),
            Err(e) => Err(RdfPropertyError::Object(e)),
        };
        assert(objects_of(graph_triples(*graph), subject@, predicate@).contains(o));
        r
    }
}

impl ToRdfProperty for String {
    open spec fn obeys_to_property_spec() -> bool {
        true
    }

    open spec fn writes_property(&self, before: Set<TripleModel>, after: Set<TripleModel>, s: SubjectModel, p: Seq<char>) -> bool {
        after == before.insert(triple(s, p, TermModel::Literal(typed_literal(self@, xsd_string_iri()))))
    }

    fn to_property(&self, graph: &mut oxrdf::Graph, subject: &Subject, predicate: &Iri)
        ensures
            graph_triples(*final(graph)) == graph_triples(*old(graph)).insert(triple(subject@, predicate@, TermModel::Literal(typed_literal(self@, xsd_string_iri())))),
    {
        let object = self.to_term(graph);
        insert_object(graph, subject, predicate, object);
    }
}

impl FromRdfProperty for String {
    fn from_property(graph: &oxrdf::Graph, subject: &Subject, predicate: &Iri) -> (r: Result<String, RdfPropertyError>)
        ensures
            single_reading(
                objects_of(graph_triples(*graph), subject@, predicate@),
                predicate@,
                |o: TermModel| decode_string_term(o),
                match r {
                    Ok(v) => Ok::<Seq<char>, PropertyErrorModel>(v@),
                    Err(e) => Err(e@),
                },
            ),
    {
        let object = single_object(graph, subject, predicate)?;
        let ghost o = object@;
        let r = match String::from_term(graph, &object) {
            Ok(v) => Ok(v),
            Err(e) => Err(RdfPropertyError::Object(e)),
        };
        assert(objects_of(graph_triples(*graph), subject@, predicate@).contains(o));
        r
    }
}

impl ToRdfProperty for Iri {
    open spec fn obeys_to_property_spec() -> bool {
        true
    }

    open spec fn writes_property(&self, before: Set<TripleModel>, after: Set<TripleModel>, s: SubjectModel, p: Seq<char>) -> bool {
        after == before.insert(triple(s, p, TermModel::Named(self@)))
    }

    fn to_property(&self, graph: &mut oxrdf::Graph, subject: &Subject, predicate: &Iri)
        ensures
            graph_triples(*final(graph)) == graph_triples(*old(graph)).insert(triple(subject@, predicate@, TermModel::Named(self@))),
    {
        let object = self.to_term(graph);
        insert_object(graph, subject, predicate, object);
    }
}

impl FromRdfProperty for Iri {
    fn from_property(graph: &oxrdf::Graph, subject: &Subject, predicate: &Iri) -> (r: Result<Iri, RdfPropertyError>)
        ensures
            single_reading(
                objects_of(graph_triples(*graph), subject@, predicate@),
                predicate@,
                |o: TermModel| decode_iri_term(o),
                match r {
                    Ok(v) => Ok::<Seq<char>, PropertyErrorModel>(v@),
                    Err(e) => Err(e@),
                },
            ),
    {
        let object = single_object(graph, subject, predicate)?;
        let ghost o = object@;
        let r = match Iri::from_term(graph, &object) {
            Ok(v) => Ok(v),
            Err(e) => Err(RdfPropertyError::Object(e)),
        };
        assert(objects_of(graph_triples(*graph), subject@, predicate@).contains(o));
        r
    }
}

impl ToRdfProperty for BlankId {
    open spec fn obeys_to_property_spec() -> bool {
        true
    }

    open spec fn writes_property(&self, before: Set<TripleModel>, after: Set<TripleModel>, s: SubjectModel, p: Seq<char>) -> bool {
        after == before.insert(triple(s, p, TermModel::Blank(self@)))
    }

    fn to_property(&self, graph: &mut oxrdf::Graph, subject: &Subject, predicate: &Iri)
        ensures
            graph_triples(*final(graph)) == graph_triples(*old(graph)).insert(triple(subject@, predicate@, TermModel::Blank(self@))),
    {
        let object = self.to_term(graph);
        insert_object(graph, subject, predicate, object);
    }
}

impl FromRdfProperty for BlankId {
    fn from_property(graph: &oxrdf::Graph, subject: &Subject, predicate: &Iri) -> (r: Result<BlankId, RdfPropertyError>)
        ensures
            single_reading(
                objects_of(graph_triples(*graph), subject@, predicate@),
                predicate@,
                |o: TermModel| decode_blank_term(o),
                match r {
                    Ok(v) => Ok::<Seq<char>, PropertyErrorModel>(v@),
                    Err(e) => Err(e@),
                },
            ),
    {
        let object = single_object(graph, subject, predicate)?;
        let ghost o = object@;
        let r = match BlankId::from_term(graph, &object) {
            Ok(v) => Ok(v),
            Err(e) => Err(RdfPropertyError::Object(e)),
        };
        assert(objects_of(graph_triples(*graph), subject@, predicate@).contains(o));
        r
    }
}

impl ToRdfProperty for Subject {
    open spec fn obeys_to_property_spec() -> bool {
        true
    }

    open spec fn writes_property(&self, before: Set<TripleModel>, after: Set<TripleModel>, s: SubjectModel, p: Seq<char>) -> bool {
        after == before.insert(triple(s, p, subject_term(self@)))
    }

    fn to_property(&self, graph: &mut oxrdf::Graph, subject: &Subject, predicate: &Iri)
        ensures
            graph_triples(*final(graph)) == graph_triples(*old(graph)).insert(triple(subject@, predicate@, subject_term(self@))),
    {
        let object = self.to_term(graph);
        insert_object(graph, subject, predicate, object);
    }
}

impl FromRdfProperty for Subject {
    fn from_property(graph: &oxrdf::Graph, subject: &Subject, predicate: &Iri) -> (r: Result<Subject, RdfPropertyError>)
        ensures
            single_reading(
                objects_of(graph_triples(*graph), subject@, predicate@),
                predicate@,
                |o: TermModel| decode_subject_term(o),
                match r {
                    Ok(v) => Ok::<SubjectModel, PropertyErrorModel>(v@),
                    Err(e) => Err(e@),
                },
            ),
    {
        let object = single_object(graph, subject, predicate)?;
        let ghost o = object@;
        let r = match Subject::from_term(graph, &object) {
            Ok(v) => Ok(v),
            Err(e) => Err(RdfPropertyError::Object(e)),
        };
        assert(objects_of(graph_triples(*graph), subject@, predicate@).contains(o));
        r
    }
}

impl ToRdfProperty for LiteralValue {
    open spec fn obeys_to_property_spec() -> bool {
        true
    }

    open spec fn writes_property(&self, before: Set<TripleModel>, after: Set<TripleModel>, s: SubjectModel, p: Seq<char>) -> bool {
        after == before.insert(triple(s, p, TermModel::Literal(self@)))
    }

    fn to_property(&self, graph: &mut oxrdf::Graph, subject: &Subject, predicate: &Iri)
        ensures
            graph_triples(*final(graph)) == graph_triples(*old(graph)).insert(triple(subject@, predicate@, TermModel::Literal(self@))),
    {
        let object = self.to_term(graph);
        insert_object(graph, subject, predicate, object);
    }
}

impl FromRdfProperty for LiteralValue {
    fn from_property(graph: &oxrdf::Graph, subject: &Subject, predicate: &Iri) -> (r: Result<LiteralValue, RdfPropertyError>)
        ensures
            single_reading(
                objects_of(graph_triples(*graph), subject@, predicate@),
                predicate@,
                |o: TermModel| decode_literal_term(o),
                match r {
                    Ok(v) => Ok::<LiteralModel, PropertyErrorModel>(v@),
                    Err(e) => Err(e@),
                },
            ),
    {
        let object = single_object(graph, subject, predicate)?;
        let ghost o = object@;
        let r = match LiteralValue::from_term(graph, &object) {
            Ok(v) => Ok(v),
            Err(e) => Err(RdfPropertyError::Object(e)),
        };
        assert(objects_of(graph_triples(*graph), subject@, predicate@).contains(o));
        r
    }
}

impl ToRdfProperty for RdfTerm {
    open spec fn obeys_to_property_spec() -> bool {
        true
    }

    open spec fn writes_property(&self, before: Set<TripleModel>, after: Set<TripleModel>, s: SubjectModel, p: Seq<char>) -> bool {
        after == before.insert(triple(s, p, self@))
    }

    fn to_property(&self, graph: &mut oxrdf::Graph, subject: &Subject, predicate: &Iri)
        ensures
            graph_triples(*final(graph)) == graph_triples(*old(graph)).insert(triple(subject@, predicate@, self@)),
    {
        let object = self.to_term(graph);
        insert_object(graph, subject, predicate, object);
    }
}

impl FromRdfProperty for RdfTerm {
    fn from_property(graph: &oxrdf::Graph, subject: &Subject, predicate: &Iri) -> (r: Result<RdfTerm, RdfPropertyError>)
        ensures
            single_reading(
                objects_of(graph_triples(*graph), subject@, predicate@),
                predicate@,
                |o: TermModel| Ok::<TermModel, ObjectErrorModel>(o),
                match r {
                    Ok(v) => Ok::<TermModel, PropertyErrorModel>(v@),
                    Err(e) => Err(e@),
                },
            ),
    {
        let object = single_object(graph, subject, predicate)?;
        let ghost o = object@;
        let r = match Ok::<RdfTerm, RdfObjectError>(object) {
            Ok(v) => Ok(v),
            Err(e) => Err(RdfPropertyError::Object(e)),
        };
        assert(objects_of(graph_triples(*graph), subject@, predicate@).contains(o));
        r
    }
}

/// The reading of an optional property from the reading of its object, if
/// there is one.
pub fn optional_reading<T>(found: Option<Result<T, RdfObjectError>>) -> (r: Result<Option<T>, RdfPropertyError>)
    ensures
        found is None ==> r matches Ok(None),
        found matches Some(Ok(v)) ==> r == Ok::<Option<T>, RdfPropertyError>(Some(v)),
        found matches Some(Err(e)) ==> r == Err::<Option<T>, RdfPropertyError>(RdfPropertyError::Object(e)),
{
    match found {
        None => Ok(None),
        Some(Ok(v)) => Ok(Some(v)),
        Some(Err(e)) => Err(RdfPropertyError::Object(e)),
    }
}

/// The reading of a multi-valued property from the readings of its objects:
/// all values in order when every object reads, else the first refusal.
pub fn collect_readings<T>(readings: Vec<Result<T, RdfObjectError>>) -> (r: Result<Vec<T>, RdfPropertyError>)
    ensures
        r is Ok <==> forall|i: int| 0 <= i < readings@.len() ==> #[trigger] readings@[i] is Ok,
        r matches Ok(v) ==> v@.len() == readings@.len() && forall|i: int|
            0 <= i < v@.len() ==> readings@[i] == Ok::<T, RdfObjectError>(#[trigger] v@[i]),
        r matches Err(e) ==> exists|k: int|
            0 <= k < readings@.len() && (forall|i: int| 0 <= i < k ==> #[trigger] readings@[i] is Ok)
                && readings@[k] == Err::<T, RdfObjectError>(e->Object_0) && e is Object,
{
    let ghost all = readings@;
    let mut values: Vec<T> = Vec::new();
    let mut rest = readings;
    let n = rest.len();
    while rest.len() > 0
        invariant
            all == readings@,
            all.len() == n,
            values@.len() + rest@.len() == n,
            rest@ == all.skip(values@.len() as int),
            forall|i: int| 0 <= i < values@.len() ==> all[i] == Ok::<T, RdfObjectError>(#[trigger] values@[i]),
        decreases rest.len(),
    {
        let k = values.len();
        let next = rest.remove(0);
        assert(all[k as int] == next);
        assert(rest@ =~= all.skip(k + 1));
        match next {
            Ok(v) => {
                values.push(v);
            },
            Err(e) => {
                assert forall|i: int| 0 <= i < k implies #[trigger] all[i] is Ok by {
                    assert(all[i] == Ok::<T, RdfObjectError>(values@[i]));
                }
                assert(all[k as int] == Err::<T, RdfObjectError>(e));
                assert(!(all[k as int] is Ok));
                let r = RdfPropertyError::Object(e);
                assert(0 <= k < all.len() && (forall|i: int| 0 <= i < k ==> #[trigger] all[i] is Ok)
                    && all[k as int] == Err::<T, RdfObjectError>(r->Object_0) && r is Object);
                return Err(r);
            },
        }
    }
    assert forall|i: int| 0 <= i < n implies #[trigger] all[i] is Ok by {
        assert(all[i] == Ok::<T, RdfObjectError>(values@[i]));
    }
    Ok(values)
}

impl<T: ToRdfProperty> ToRdfProperty for Option<T> {
    open spec fn obeys_to_property_spec() -> bool {
        T::obeys_to_property_spec()
    }

    /// Nothing for `None`; the inner value's writing for `Some`.
    open spec fn writes_property(&self, before: Set<TripleModel>, after: Set<TripleModel>, s: SubjectModel, p: Seq<char>) -> bool {
        match self {
            Some(v) => v.writes_property(before, after, s, p),
            None => after == before,
        }
    }

    fn to_property(&self, graph: &mut oxrdf::Graph, subject: &Subject, predicate: &Iri)
        ensures
            self is None ==> graph_triples(*final(graph)) == graph_triples(*old(graph)),
    {
        if let Some(value) = self {
            value.to_property(graph, subject, predicate);
        }
    }
}

/// Whether `T::from_term` can give a value for `o` in `graph`.
pub open spec fn from_term_gives_value<T: FromRdfObject>(graph: &oxrdf::Graph, o: RdfTerm) -> bool {
    exists|w: T| call_ensures(T::from_term, (graph, &o), Ok::<T, RdfObjectError>(w))
}

/// Whether `r`, as the reading of an optional property, is what
/// `T::from_term` gives for `o` in `graph`: its value as `Some`, its
/// refusal as the property's.
pub open spec fn optional_from_term<T: FromRdfObject>(
    graph: &oxrdf::Graph,
    o: RdfTerm,
    r: Result<Option<T>, RdfPropertyError>,
) -> bool {
    match r {
        Ok(Some(v)) => call_ensures(T::from_term, (graph, &o), Ok::<T, RdfObjectError>(v)),
        Err(RdfPropertyError::Object(e)) => call_ensures(T::from_term, (graph, &o), Err::<T, RdfObjectError>(e)),
        _ => false,
    }
}

/// Whether `r`, as the reading of a multi-valued property whose objects
/// are read in the order `os`, is made of what `T::from_term` gives for
/// them in `graph`: every value, in that order, or else the refusal of the
/// first object refused.
pub open spec fn listed_from_term<T: FromRdfObject>(
    graph: &oxrdf::Graph,
    os: Seq<RdfTerm>,
    r: Result<Vec<T>, RdfPropertyError>,
) -> bool {
    match r {
        Ok(v) => v@.len() == os.len() && forall|i: int|
            0 <= i < os.len() ==> call_ensures(T::from_term, (graph, &os[i]), Ok::<T, RdfObjectError>(#[trigger] v@[i])),
        Err(RdfPropertyError::Object(e)) => exists|k: int|
            {
                &&& 0 <= k < os.len()
                &&& call_ensures(T::from_term, (graph, &os[k]), Err::<T, RdfObjectError>(e))
                &&& forall|i: int| 0 <= i < k ==> from_term_gives_value::<T>(graph, #[trigger] os[i])
            },
        Err(_) => false,
    }
}

/// Whether `r` is a possible reading of an optional property whose objects
/// are `objs`, in a graph holding `triples`: nothing when there is none,
/// else `T`'s reading of one of them (which one, the graph's index order
/// decides), its refusal as the property's.
pub open spec fn optional_property_reading<T: FromRdfObject>(
    triples: Set<TripleModel>,
    objs: Set<TermModel>,
    r: Result<Option<T>, RdfPropertyError>,
) -> bool {
    if objs.is_empty() {
        r matches Ok(None)
    } else {
        exists|o: TermModel|
            #[trigger] objs.contains(o) && match r {
                Ok(Some(v)) => T::reads_term(triples, o, Ok(v)),
                Err(RdfPropertyError::Object(e)) => T::reads_term(triples, o, Err(e)),
                _ => false,
            }
    }
}

impl<T: FromRdfObject> FromRdfProperty for Option<T> {
    fn from_property(graph: &oxrdf::Graph, subject: &Subject, predicate: &Iri) -> (r: Result<Option<T>, RdfPropertyError>)
        ensures
            r matches Ok(None) <==> objects_of(graph_triples(*graph), subject@, predicate@).is_empty(),
            r matches Err(e) ==> e is Object,
            T::obeys_from_term_spec() ==> optional_property_reading::<T>(
                graph_triples(*graph),
                objects_of(graph_triples(*graph), subject@, predicate@),
                r,
            ),
            !objects_of(graph_triples(*graph), subject@, predicate@).is_empty() ==> exists|o: RdfTerm|
                objects_of(graph_triples(*graph), subject@, predicate@).contains(o@)
                    && #[trigger] optional_from_term::<T>(graph, o, r),
    {
        let object = graph_object(graph, subject, predicate);
        let found = match &object {
            None => None,
            Some(object) => Some(T::from_term(graph, object)),
        };
        let r = optional_reading(found);
        proof {
            if let Some(o) = object {
                assert(objects_of(graph_triples(*graph), subject@, predicate@).contains(o@));
                assert(optional_from_term::<T>(graph, o, r));
            }
        }
        r
    }
}

/// Whether writing the values `vs` one after the other, as objects of `s`
/// for `p`, passes through the graphs `gs`: value `i` turns `gs[i]` into
/// `gs[i + 1]`.
pub open spec fn writes_in_turn<T: ToRdfProperty>(vs: Seq<T>, gs: Seq<Set<TripleModel>>, s: SubjectModel, p: Seq<char>) -> bool {
    &&& gs.len() == vs.len() + 1
    &&& forall|i: int| 0 <= i < vs.len() ==> #[trigger] vs[i].writes_property(gs[i], gs[i + 1], s, p)
}

impl<T: ToRdfProperty> ToRdfProperty for Vec<T> {
    open spec fn obeys_to_property_spec() -> bool {
        T::obeys_to_property_spec()
    }

    /// Each value's writing in turn, from `before` to `after`.
    open spec fn writes_property(&self, before: Set<TripleModel>, after: Set<TripleModel>, s: SubjectModel, p: Seq<char>) -> bool {
        exists|gs: Seq<Set<TripleModel>>|
            #[trigger] writes_in_turn(self@, gs, s, p) && gs[0] == before && gs.last() == after
    }

    fn to_property(&self, graph: &mut oxrdf::Graph, subject: &Subject, predicate: &Iri)
        ensures
            self@.len() == 0 ==> graph_triples(*final(graph)) == graph_triples(*old(graph)),
    {
        let ghost mut gs: Seq<Set<TripleModel>> = seq![graph_triples(*graph)];
        let mut i: usize = 0;
        while i < self.len()
            invariant
                i <= self@.len(),
                self@.len() == 0 ==> graph_triples(*graph) == graph_triples(*old(graph)),
                graph_triples(*old(graph)).subset_of(graph_triples(*graph)),
                gs.len() == i + 1,
                gs[0] == graph_triples(*old(graph)),
                gs.last() == graph_triples(*graph),
                T::obeys_to_property_spec() ==> forall|k: int|
                    0 <= k < i ==> #[trigger] self@[k].writes_property(gs[k], gs[k + 1], subject@, predicate@),
            decreases self.len() - i,
        {
            self[i].to_property(graph, subject, predicate);
            proof {
                gs = gs.push(graph_triples(*graph));
            }
            i = i + 1;
        }
        proof {
            if T::obeys_to_property_spec() {
                assert(writes_in_turn(self@, gs, subject@, predicate@));
            }
        }
    }
}

/// Whether `T` reads some value from `o`, in a graph holding `triples`.
pub open spec fn reads_some_value<T: FromRdfObject>(triples: Set<TripleModel>, o: TermModel) -> bool {
    exists|w: T| T::reads_term(triples, o, Ok(w))
}

/// Whether `r` is the reading of a multi-valued property whose objects, in
/// the order they are read, are `os`, in a graph holding `triples`: `T`'s
/// reading of each object, in that order, or else the refusal of the first
/// object that `T` refuses.
pub open spec fn listed_property_reading<T: FromRdfObject>(
    triples: Set<TripleModel>,
    os: Seq<TermModel>,
    r: Result<Vec<T>, RdfPropertyError>,
) -> bool {
    match r {
        Ok(v) => v@.len() == os.len() && forall|i: int|
            0 <= i < os.len() ==> T::reads_term(triples, os[i], Ok(#[trigger] v@[i])),
        Err(RdfPropertyError::Object(e)) => exists|k: int|
            {
                &&& 0 <= k < os.len()
                &&& T::reads_term(triples, os[k], Err(e))
                &&& forall|i: int| 0 <= i < k ==> reads_some_value::<T>(triples, #[trigger] os[i])
            },
        Err(_) => false,
    }
}

impl<T: FromRdfObject> FromRdfProperty for Vec<T> {
    fn from_property(graph: &oxrdf::Graph, subject: &Subject, predicate: &Iri) -> (r: Result<Vec<T>, RdfPropertyError>)
        ensures
            exists|objs: Seq<TermModel>|
                {
                    &&& #[trigger] lists_each_once(objs, objects_of(graph_triples(*graph), subject@, predicate@))
                    &&& r matches Ok(v) ==> v@.len() == objs.len()
                    &&& T::obeys_from_term_spec() ==> listed_property_reading::<T>(graph_triples(*graph), objs, r)
                    &&& exists|os: Seq<RdfTerm>|
                        os.map_values(|t: RdfTerm| t@) == objs && #[trigger] listed_from_term::<T>(graph, os, r)
                },
            r matches Err(e) ==> e is Object && !objects_of(graph_triples(*graph), subject@, predicate@).is_empty(),
    {
        let objects = graph_objects(graph, subject, predicate);
        let ghost objs = objects@.map_values(|t: RdfTerm| t@);
        let mut readings: Vec<Result<T, RdfObjectError>> = Vec::new();
        let mut i: usize = 0;
        while i < objects.len()
            invariant
                i <= objects@.len(),
                readings@.len() == i,
                forall|k: int| 0 <= k < i ==> (#[trigger] readings@[k] matches Err(e) ==> object_error_fits(
                    e@,
                    objects@[k]@,
                )),
                T::obeys_from_term_spec() ==> forall|k: int|
                    0 <= k < i ==> T::reads_term(graph_triples(*graph), objects@[k]@, #[trigger] readings@[k]),
                forall|k: int| 0 <= k < i ==> call_ensures(T::from_term, (graph, &objects@[k]), #[trigger] readings@[k]),
            decreases objects.len() - i,
        {
            let reading = T::from_term(graph, &objects[i]);
            readings.push(reading);
            i = i + 1;
        }
        proof {
            assert forall|o: TermModel| objects_of(graph_triples(*graph), subject@, predicate@).contains(o)
                <==> #[trigger] objs.contains(o) by {
                if objs.contains(o) {
                    let k = choose|k: int| 0 <= k < objs.len() && objs[k] == o;
                    assert(objects@[k]@ == o);
                }
                if objects_of(graph_triples(*graph), subject@, predicate@).contains(o) {
                    let k = choose|k: int| 0 <= k < objects.len() && #[trigger] objects@[k]@ == o;
                    assert(objs[k] == o);
                }
            }
            assert(objs.no_duplicates()) by {
                assert(distinct_terms(objects@));
            }
        }
        let r = collect_readings(readings);
        proof {
            if r is Err {
                assert(readings@.len() > 0);
                assert(objects_of(graph_triples(*graph), subject@, predicate@).contains(objects@[0]@));
                let k = choose|k: int|
                    0 <= k < readings@.len() && (forall|i: int| 0 <= i < k ==> #[trigger] readings@[i] is Ok)
                        && readings@[k] == Err::<T, RdfObjectError>(r->Err_0->Object_0) && r->Err_0 is Object;
                assert(readings@[k] matches Err(e) ==> object_error_fits(e@, objects@[k]@));
                assert(objects_of(graph_triples(*graph), subject@, predicate@).contains(objects@[k]@));
            }
            if T::obeys_from_term_spec() {
                if r is Ok {
                    let v = r->Ok_0;
                    {
                        assert forall|i: int| 0 <= i < objs.len() implies T::reads_term(
                            graph_triples(*graph),
                            objs[i],
                            Ok(#[trigger] v@[i]),
                        ) by {
                            assert(readings@[i] == Ok::<T, RdfObjectError>(v@[i]));
                        }
                    }
                } else {
                    let e = r->Err_0;
                    {
                        let k = choose|k: int|
                            0 <= k < readings@.len() && (forall|i: int| 0 <= i < k ==> #[trigger] readings@[i] is Ok)
                                && readings@[k] == Err::<T, RdfObjectError>(e->Object_0) && e is Object;
                        assert(T::reads_term(graph_triples(*graph), objs[k], Err(e->Object_0)));
                        assert forall|i: int| 0 <= i < k implies reads_some_value::<T>(graph_triples(*graph), #[trigger] objs[i]) by {
                            assert(readings@[i] is Ok);
                            assert(T::reads_term(graph_triples(*graph), objs[i], Ok(readings@[i]->Ok_0)));
                        }
                        assert(r == Err::<Vec<T>, RdfPropertyError>(RdfPropertyError::Object(e->Object_0)));
                        assert(listed_property_reading::<T>(graph_triples(*graph), objs, r));
                    }
                }
            }
            assert(lists_each_once(objs, objects_of(graph_triples(*graph), subject@, predicate@)));
            let os = objects@;
            if r is Ok {
                let v = r->Ok_0;
                assert forall|i: int| 0 <= i < os.len() implies call_ensures(
                    T::from_term,
                    (graph, &os[i]),
                    Ok::<T, RdfObjectError>(#[trigger] v@[i]),
                ) by {
                    assert(readings@[i] == Ok::<T, RdfObjectError>(v@[i]));
                }
                assert(listed_from_term::<T>(graph, os, r));
            } else {
                let e = r->Err_0;
                let k = choose|k: int|
                    0 <= k < readings@.len() && (forall|i: int| 0 <= i < k ==> #[trigger] readings@[i] is Ok)
                        && readings@[k] == Err::<T, RdfObjectError>(e->Object_0) && e is Object;
                assert(call_ensures(T::from_term, (graph, &os[k]), Err::<T, RdfObjectError>(e->Object_0)));
                assert forall|i: int| 0 <= i < k implies from_term_gives_value::<T>(graph, #[trigger] os[i]) by {
                    assert(readings@[i] is Ok);
                    assert(call_ensures(T::from_term, (graph, &os[i]), Ok::<T, RdfObjectError>(readings@[i]->Ok_0)));
                }
                assert(r == Err::<Vec<T>, RdfPropertyError>(RdfPropertyError::Object(e->Object_0)));
                assert(listed_from_term::<T>(graph, os, r));
            }
            assert(os.map_values(|t: RdfTerm| t@) == objs);
        }
        r
    }
}

/// Once a value is written as the only object of a subject for a predicate,
/// that object is what the property holds.
pub proof fn lemma_written_object_is_the_only_one(g: Set<TripleModel>, s: SubjectModel, p: Seq<char>, o: TermModel)
    requires
        objects_of(g, s, p).is_empty(),
    ensures
        objects_of(g.insert(triple(s, p, o)), s, p) == set![o],
{
    assert(objects_of(g.insert(triple(s, p, o)), s, p) =~= set![o]) by {
        assert forall|x: TermModel| objects_of(g.insert(triple(s, p, o)), s, p).contains(x) implies x == o by {
            if x != o {
                assert(objects_of(g, s, p).contains(x));
            }
        }
    }
}

/// Reading a single-valued property whose only object is `o` gives the
/// reading of `o`.
pub proof fn lemma_single_reading_of_one<V>(
    o: TermModel,
    p: Seq<char>,
    decode: spec_fn(TermModel) -> Result<V, ObjectErrorModel>,
    r: Result<V, PropertyErrorModel>,
)
    requires
        single_reading(set![o], p, decode, r),
    ensures
        r == lift_reading(decode(o)),
{
    assert(set![o].contains(o));
}

/// Writing an integer as a property of a subject that had no object for the
/// predicate, then reading the property back, gives the integer again.
pub proof fn lemma_int_property_round_trip(
    g: Set<TripleModel>,
    s: SubjectModel,
    p: Seq<char>,
    n: int,
    datatype: Seq<char>,
    lo: int,
    hi: int,
    signed: bool,
    r: Result<int, PropertyErrorModel>,
)
    requires
        objects_of(g, s, p).is_empty(),
        lo <= n <= hi,
        lo <= 0 <= hi,
        signed || lo == 0,
        single_reading(
            objects_of(g.insert(triple(s, p, TermModel::Literal(int_literal(n, datatype)))), s, p),
            p,
            |o: TermModel| decode_int_term(o, datatype, lo, hi, signed),
            r,
        ),
    ensures
        r == Ok::<int, PropertyErrorModel>(n),
{
    let o = TermModel::Literal(int_literal(n, datatype));
    lemma_written_object_is_the_only_one(g, s, p, o);
    lemma_single_reading_of_one(o, p, |o: TermModel| decode_int_term(o, datatype, lo, hi, signed), r);
    lemma_int_term_round_trip(n, datatype, lo, hi, signed);
}

/// Writing a string as a property of a subject that had no object for the
/// predicate, then reading the property back, gives the string again.
pub proof fn lemma_string_property_round_trip(
    g: Set<TripleModel>,
    s: SubjectModel,
    p: Seq<char>,
    v: Seq<char>,
    r: Result<Seq<char>, PropertyErrorModel>,
)
    requires
        objects_of(g, s, p).is_empty(),
        single_reading(
            objects_of(g.insert(triple(s, p, TermModel::Literal(typed_literal(v, xsd_string_iri())))), s, p),
            p,
            |o: TermModel| decode_string_term(o),
            r,
        ),
    ensures
        r == Ok::<Seq<char>, PropertyErrorModel>(v),
{
    let o = TermModel::Literal(typed_literal(v, xsd_string_iri()));
    lemma_written_object_is_the_only_one(g, s, p, o);
    lemma_single_reading_of_one(o, p, |o: TermModel| decode_string_term(o), r);
    lemma_string_term_round_trip(v);
}

/// Writing a `bool` as a property of a subject that had no object for the
/// predicate, then reading the property back, gives the `bool` again.
pub proof fn lemma_bool_property_round_trip(
    g: Set<TripleModel>,
    s: SubjectModel,
    p: Seq<char>,
    b: bool,
    r: Result<bool, PropertyErrorModel>,
)
    requires
        objects_of(g, s, p).is_empty(),
        single_reading(
            objects_of(g.insert(triple(s, p, TermModel::Literal(typed_literal(bool_text(b), xsd_boolean_iri())))), s, p),
            p,
            |o: TermModel| decode_bool_term(o),
            r,
        ),
    ensures
        r == Ok::<bool, PropertyErrorModel>(b),
{
    let o = TermModel::Literal(typed_literal(bool_text(b), xsd_boolean_iri()));
    lemma_written_object_is_the_only_one(g, s, p, o);
    lemma_single_reading_of_one(o, p, |o: TermModel| decode_bool_term(o), r);
    lemma_bool_term_round_trip(b);
}

/// Writing a named node as a property of a subject that had no object for
/// the predicate, then reading the property back, gives the node again.
pub proof fn lemma_iri_property_round_trip(
    g: Set<TripleModel>,
    s: SubjectModel,
    p: Seq<char>,
    iri: Seq<char>,
    r: Result<Seq<char>, PropertyErrorModel>,
)
    requires
        objects_of(g, s, p).is_empty(),
        single_reading(
            objects_of(g.insert(triple(s, p, TermModel::Named(iri))), s, p),
            p,
            |o: TermModel| decode_iri_term(o),
            r,
        ),
    ensures
        r == Ok::<Seq<char>, PropertyErrorModel>(iri),
{
    let o = TermModel::Named(iri);
    lemma_written_object_is_the_only_one(g, s, p, o);
    lemma_single_reading_of_one(o, p, |o: TermModel| decode_iri_term(o), r);
}

/// For any value type: writing a value whose term reads back as the value,
/// as a property of a subject that had no object for the predicate, then
/// reading the property back, gives the value again.
pub proof fn lemma_property_round_trip<V>(
    g: Set<TripleModel>,
    s: SubjectModel,
    p: Seq<char>,
    o: TermModel,
    decode: spec_fn(TermModel) -> Result<V, ObjectErrorModel>,
    v: V,
    r: Result<V, PropertyErrorModel>,
)
    requires
        objects_of(g, s, p).is_empty(),
        decode(o) == Ok::<V, ObjectErrorModel>(v),
        single_reading(objects_of(g.insert(triple(s, p, o)), s, p), p, decode, r),
    ensures
        r == Ok::<V, PropertyErrorModel>(v),
{
    lemma_written_object_is_the_only_one(g, s, p, o);
    lemma_single_reading_of_one(o, p, decode, r);
}

/// The object term that a string is written as.
pub open spec fn string_term(x: Seq<char>) -> TermModel {
    TermModel::Literal(typed_literal(x, xsd_string_iri()))
}

/// Writing strings one after the other, from a graph with no object of `s`
/// for `p`, leaves exactly their terms as its objects.
pub proof fn lemma_written_strings_are_the_objects(
    vs: Seq<String>,
    gs: Seq<Set<TripleModel>>,
    s: SubjectModel,
    p: Seq<char>,
    j: int,
)
    requires
        writes_in_turn(vs, gs, s, p),
        objects_of(gs[0], s, p).is_empty(),
        0 <= j <= vs.len(),
    ensures
        forall|o: TermModel|
            objects_of(gs[j], s, p).contains(o) <==> exists|i: int|
                0 <= i < j && o == string_term(#[trigger] vs[i]@),
    decreases j,
{
    if j > 0 {
        lemma_written_strings_are_the_objects(vs, gs, s, p, j - 1);
        let last = j - 1;
        assert(vs[last].writes_property(gs[last], gs[last + 1], s, p));
        assert(gs[last + 1] == gs[j]);
        assert forall|o: TermModel|
            objects_of(gs[j], s, p).contains(o) <==> exists|i: int|
                0 <= i < j && o == string_term(#[trigger] vs[i]@) by {
            if objects_of(gs[j], s, p).contains(o) {
                if o == string_term(vs[j - 1]@) {
                    assert(0 <= j - 1 < j && o == string_term(vs[j - 1]@));
                } else {
                    assert(objects_of(gs[j - 1], s, p).contains(o));
                    let i = choose|i: int| 0 <= i < j - 1 && o == string_term(#[trigger] vs[i]@);
                    assert(0 <= i < j && o == string_term(vs[i]@));
                }
            }
            if exists|i: int| 0 <= i < j && o == string_term(#[trigger] vs[i]@) {
                let i = choose|i: int| 0 <= i < j && o == string_term(#[trigger] vs[i]@);
                if i < j - 1 {
                    assert(objects_of(gs[j - 1], s, p).contains(o));
                }
                assert(gs[j].contains(triple(s, p, o)));
            }
        }
    }
}

/// Whether one of the strings `v` is `x`.
pub open spec fn holds_string(v: Seq<String>, x: Seq<char>) -> bool {
    exists|i: int| 0 <= i < v.len() && #[trigger] v[i]@ == x
}

/// Writing a list of strings as a property of a subject that had no object
/// for the predicate, then reading the property back as a list of strings,
/// gives back the same strings, each once: a graph is a set of triples, so
/// repeats and the order of the list are not kept.
pub proof fn lemma_string_list_property_round_trip(
    before: Set<TripleModel>,
    after: Set<TripleModel>,
    s: SubjectModel,
    p: Seq<char>,
    v: Vec<String>,
    objs: Seq<TermModel>,
    r: Result<Vec<String>, RdfPropertyError>,
)
    requires
        objects_of(before, s, p).is_empty(),
        v.writes_property(before, after, s, p),
        lists_each_once(objs, objects_of(after, s, p)),
        listed_property_reading::<String>(after, objs, r),
    ensures
        r is Ok,
        r->Ok_0@.len() == objs.len(),
        forall|i: int, j: int| 0 <= i < j < r->Ok_0@.len() ==> r->Ok_0@[i]@ != r->Ok_0@[j]@,
        forall|x: Seq<char>| #[trigger] holds_string(v@, x) <==> holds_string(r->Ok_0@, x),
{
    let gs = choose|gs: Seq<Set<TripleModel>>|
        #[trigger] writes_in_turn(v@, gs, s, p) && gs[0] == before && gs.last() == after;
    lemma_written_strings_are_the_objects(v@, gs, s, p, v@.len() as int);
    assert(gs[v@.len() as int] == after);
    assert forall|k: int| 0 <= k < objs.len() implies exists|i: int|
        0 <= i < v@.len() && #[trigger] objs[k] == string_term(#[trigger] v@[i]@) by {
        assert(objs.contains(objs[k]));
    }
    if r is Err {
        let e = r->Err_0->Object_0;
        let k = choose|k: int|
            {
                &&& 0 <= k < objs.len()
                &&& String::reads_term(after, objs[k], Err(e))
                &&& forall|i: int| 0 <= i < k ==> reads_some_value::<String>(after, #[trigger] objs[i])
            };
        let i = choose|i: int| 0 <= i < v@.len() && objs[k] == string_term(#[trigger] v@[i]@);
        lemma_string_term_round_trip(v@[i]@);
        assert(false);
    }
    let w = r->Ok_0;
    assert forall|k: int| 0 <= k < objs.len() implies objs[k] == string_term(#[trigger] w@[k]@) by {
        let i = choose|i: int| 0 <= i < v@.len() && objs[k] == string_term(#[trigger] v@[i]@);
        lemma_string_term_round_trip(v@[i]@);
        assert(String::reads_term(after, objs[k], Ok(w@[k])));
    }
    assert forall|i: int, j: int| 0 <= i < j < w@.len() implies w@[i]@ != w@[j]@ by {
        assert(objs[i] == string_term(w@[i]@));
        assert(objs[j] == string_term(w@[j]@));
    }
    assert forall|x: Seq<char>| #[trigger] holds_string(v@, x) <==> holds_string(w@, x) by {
        if exists|i: int| 0 <= i < v@.len() && #[trigger] v@[i]@ == x {
            let i = choose|i: int| 0 <= i < v@.len() && #[trigger] v@[i]@ == x;
            assert(objects_of(after, s, p).contains(string_term(v@[i]@)));
            assert(objs.contains(string_term(x)));
            let k = choose|k: int| 0 <= k < objs.len() && objs[k] == string_term(x);
            assert(objs[k] == string_term(w@[k]@));
            assert(w@[k]@ == x);
        }
        if exists|i: int| 0 <= i < w@.len() && #[trigger] w@[i]@ == x {
            let k = choose|k: int| 0 <= k < w@.len() && #[trigger] w@[k]@ == x;
            let i = choose|i: int| 0 <= i < v@.len() && objs[k] == string_term(#[trigger] v@[i]@);
            assert(objs[k] == string_term(w@[k]@));
            assert(v@[i]@ == x);
        }
    }
}

/// Writing an optional string as a property of a subject that had no object
/// for the predicate, then reading the property back as an optional string,
/// gives the same: nothing for nothing, the string for a string.
pub proof fn lemma_optional_string_property_round_trip(
    before: Set<TripleModel>,
    after: Set<TripleModel>,
    s: SubjectModel,
    p: Seq<char>,
    v: Option<String>,
    r: Result<Option<String>, RdfPropertyError>,
)
    requires
        objects_of(before, s, p).is_empty(),
        v.writes_property(before, after, s, p),
        optional_property_reading::<String>(after, objects_of(after, s, p), r),
    ensures
        match v {
            None => r matches Ok(None),
            Some(x) => r matches Ok(Some(y)) && y@ == x@,
        },
{
    match v {
        None => {},
        Some(x) => {
            lemma_written_object_is_the_only_one(before, s, p, string_term(x@));
            assert(objects_of(after, s, p).contains(string_term(x@)));
            lemma_string_term_round_trip(x@);
        },
    }
}

} // verus!

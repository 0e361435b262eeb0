//! Conversion of values to and from RDF terms used as triple objects.

use vstd::prelude::*;

use crate::graph::graph_triples;
use crate::literal::{
    FromRdfLiteral, LiteralErrorModel, RdfLiteralError, ToRdfLiteral, bool_text, decode_bool_literal,
    decode_int_literal, decode_string_literal, int_literal, typed_literal, xsd_boolean_iri, xsd_byte_iri,
    xsd_integer_iri, xsd_long_iri, xsd_unsigned_byte_iri, xsd_unsigned_int_iri,
    xsd_unsigned_long_iri, lemma_int_literal_round_trip, lemma_bool_literal_round_trip,
};
use crate::resource::{DeserializeResourceError, ResourceErrorModel};
use crate::term::{BlankId, Iri, LiteralValue, RdfTerm, Subject, SubjectModel, TermModel, TripleModel, xsd_string_iri};

verus! {

/// Why a term could not be read as a value.
#[derive(Debug)]
pub enum RdfObjectError {
    /// The term is not of the kind the value type is written as.
    UnexpectedTermType(RdfTerm),
    /// The term is a literal that does not read as the value.
    Literal(RdfLiteralError),
    /// The term names a resource that does not read as the value.
    Resource(DeserializeResourceError),
}

/// Model of `RdfObjectError`.
pub enum ObjectErrorModel {
    UnexpectedTermType(TermModel),
    Literal(LiteralErrorModel),
    Resource(ResourceErrorModel),
}

impl View for RdfObjectError {
    type V = ObjectErrorModel;

    open spec fn view(&self) -> ObjectErrorModel {
        match self {
            RdfObjectError::UnexpectedTermType(t) => ObjectErrorModel::UnexpectedTermType(t@),
            RdfObjectError::Literal(e) => ObjectErrorModel::Literal(e@),
            RdfObjectError::Resource(e) => ObjectErrorModel::Resource(e@),
        }
    }
}

/// A value that can be written as the object term of a triple.
pub trait ToRdfObject {
    /// Converts the value to an RDF term. A value that is itself a resource
    /// also writes its own triples into `graph`.
    fn to_term(&self, graph: &mut oxrdf::Graph) -> RdfTerm;
}

/// Whether a refusal to read `t` fits the term: an unexpected term is `t`
/// itself, a literal refusal comes from a literal, a resource refusal from a
/// named node.
pub open spec fn object_error_fits(e: ObjectErrorModel, t: TermModel) -> bool {
    match e {
        ObjectErrorModel::UnexpectedTermType(u) => u == t,
        ObjectErrorModel::Literal(_) => t is Literal,
        ObjectErrorModel::Resource(_) => t is Named,
    }
}

/// A value that can be read back from the object term of a triple.
pub trait FromRdfObject: Sized {
    /// Whether this type's reading of a term is the one `reads_term`
    /// states (the types of this library say so; another implementation
    /// promises nothing by default).
    open spec fn obeys_from_term_spec() -> bool {
        false
    }

    /// Whether `r` is what reading `term` as this type gives, in a graph
    /// holding `triples`.
    open spec fn reads_term(triples: Set<TripleModel>, term: TermModel, r: Result<Self, RdfObjectError>) -> bool {
        true
    }

    /// Converts an RDF term to the value type, if possible. A refusal
    /// describes the term it was given.
    fn from_term(graph: &oxrdf::Graph, term: &RdfTerm) -> (r: Result<Self, RdfObjectError>)
        ensures
            r matches Err(e) ==> object_error_fits(e@, term@),
            Self::obeys_from_term_spec() ==> Self::reads_term(graph_triples(*graph), term@, r),
    ;
}

/// Whether `r` is the reading `d`, a value `v` standing for `f(v)`: the
/// value when `d` is one, the same refusal otherwise.
pub open spec fn is_reading<V, D>(r: Result<V, RdfObjectError>, d: Result<D, ObjectErrorModel>, f: spec_fn(V) -> D) -> bool {
    match r {
        Ok(v) => d == Ok::<D, ObjectErrorModel>(f(v)),
        Err(e) => d == Err::<D, ObjectErrorModel>(e@),
    }
}

/// How a term reads through a literal reading: a literal goes to the literal
/// reading, any other term is refused as unexpected.
pub open spec fn via_literal<V>(t: TermModel, read: spec_fn(crate::term::LiteralModel) -> Result<V, LiteralErrorModel>) -> Result<V, ObjectErrorModel> {
    match t {
        TermModel::Literal(l) => match read(l) {
            Ok(v) => Ok(v),
            Err(e) => Err(ObjectErrorModel::Literal(e)),
        },
        _ => Err(ObjectErrorModel::UnexpectedTermType(t)),
    }
}

/// How a term reads as an integer of range `[lo, hi]` and the given datatype.
pub open spec fn decode_int_term(t: TermModel, datatype: Seq<char>, lo: int, hi: int, signed: bool) -> Result<int, ObjectErrorModel> {
    via_literal(t, |l: crate::term::LiteralModel| decode_int_literal(l, datatype, lo, hi, signed))
}

/// How a term reads as a `bool`.
pub open spec fn decode_bool_term(t: TermModel) -> Result<bool, ObjectErrorModel> {
    via_literal(t, |l: crate::term::LiteralModel| decode_bool_literal(l))
}

/// How a term reads as a `String`.
pub open spec fn decode_string_term(t: TermModel) -> Result<Seq<char>, ObjectErrorModel> {
    via_literal(t, |l: crate::term::LiteralModel| decode_string_literal(l))
}

/// How a term reads as an IRI.
pub open spec fn decode_iri_term(t: TermModel) -> Result<Seq<char>, ObjectErrorModel> {
    match t {
        TermModel::Named(i) => Ok(i),
        _ => Err(ObjectErrorModel::UnexpectedTermType(t)),
    }
}

/// How a term reads as a blank node.
pub open spec fn decode_blank_term(t: TermModel) -> Result<Seq<char>, ObjectErrorModel> {
    match t {
        TermModel::Blank(i) => Ok(i),
        _ => Err(ObjectErrorModel::UnexpectedTermType(t)),
    }
}

/// How a term reads as a subject (named or blank node).
pub open spec fn decode_subject_term(t: TermModel) -> Result<SubjectModel, ObjectErrorModel> {
    match t {
        TermModel::Named(i) => Ok(SubjectModel::Named(i)),
        TermModel::Blank(i) => Ok(SubjectModel::Blank(i)),
        _ => Err(ObjectErrorModel::UnexpectedTermType(t)),
    }
}

/// How a term reads as a literal.
pub open spec fn decode_literal_term(t: TermModel) -> Result<crate::term::LiteralModel, ObjectErrorModel> {
    match t {
        TermModel::Literal(l) => Ok(l),
        _ => Err(ObjectErrorModel::UnexpectedTermType(t)),
    }
}

/// Reads a literal term through `from_literal`.
pub fn literal_of_term(term: &RdfTerm) -> (r: Result<&LiteralValue, RdfObjectError>)
    ensures
        r matches Ok(l) ==> term@ == TermModel::Literal(l@),
        r matches Err(e) ==> !(term@ is Literal) && e@ == ObjectErrorModel::UnexpectedTermType(term@),
        r is Ok <==> term@ is Literal,
{
    match term {
        RdfTerm::Lit(l) => Ok(l),
        _ => Err(RdfObjectError::UnexpectedTermType(term.clone())),
    }
}

impl ToRdfObject for i8 {
    fn to_term(&self, graph: &mut oxrdf::Graph) -> (t: RdfTerm)
        ensures
            t@ == TermModel::Literal(int_literal(*self as int, xsd_byte_iri())),
            graph_triples(*final(graph)) == graph_triples(*old(graph)),
    {
        RdfTerm::Lit(self.to_literal())
    }
}

impl FromRdfObject for i8 {
    open spec fn obeys_from_term_spec() -> bool {
        true
    }

    open spec fn reads_term(triples: Set<TripleModel>, term: TermModel, r: Result<i8, RdfObjectError>) -> bool {
        is_reading(r, decode_int_term(term, xsd_byte_iri(), i8::MIN as int, i8::MAX as int, true), |v: i8| v as int)
    }

    fn from_term(graph: &oxrdf::Graph, term: &RdfTerm) -> (r: Result<i8, RdfObjectError>)
        ensures
            r matches Ok(v) ==> decode_int_term(term@, xsd_byte_iri(), i8::MIN as int, i8::MAX as int, true) == Ok::<int, ObjectErrorModel>(v as int),
            r matches Err(e) ==> decode_int_term(term@, xsd_byte_iri(), i8::MIN as int, i8::MAX as int, true) == Err::<int, ObjectErrorModel>(e@),
    {
        let literal = literal_of_term(term)?;
        match i8::from_literal(literal) {
            Ok(v) => Ok(v),
            Err(e) => Err(RdfObjectError::Literal(e)),
        }
    }
}

impl ToRdfObject for i32 {
    fn to_term(&self, graph: &mut oxrdf::Graph) -> (t: RdfTerm)
        ensures
            t@ == TermModel::Literal(int_literal(*self as int, xsd_integer_iri())),
            graph_triples(*final(graph)) == graph_triples(*old(graph)),
    {
        RdfTerm::Lit(self.to_literal())
    }
}

impl FromRdfObject for i32 {
    open spec fn obeys_from_term_spec() -> bool {
        true
    }

    open spec fn reads_term(triples: Set<TripleModel>, term: TermModel, r: Result<i32, RdfObjectError>) -> bool {
        is_reading(r, decode_int_term(term, xsd_integer_iri(), i32::MIN as int, i32::MAX as int, true), |v: i32| v as int)
    }

    fn from_term(graph: &oxrdf::Graph, term: &RdfTerm) -> (r: Result<i32, RdfObjectError>)
        ensures
            r matches Ok(v) ==> decode_int_term(term@, xsd_integer_iri(), i32::MIN as int, i32::MAX as int, true) == Ok::<int, ObjectErrorModel>(v as int),
            r matches Err(e) ==> decode_int_term(term@, xsd_integer_iri(), i32::MIN as int, i32::MAX as int, true) == Err::<int, ObjectErrorModel>(e@),
    {
        let literal = literal_of_term(term)?;
        match i32::from_literal(literal) {
            Ok(v) => Ok(v),
            Err(e) => Err(RdfObjectError::Literal(e)),
        }
    }
}

impl ToRdfObject for i64 {
    fn to_term(&self, graph: &mut oxrdf::Graph) -> (t: RdfTerm)
        ensures
            t@ == TermModel::Literal(int_literal(*self as int, xsd_long_iri())),
            graph_triples(*final(graph)) == graph_triples(*old(graph)),
    {
        RdfTerm::Lit(self.to_literal())
    }
}

impl FromRdfObject for i64 {
    open spec fn obeys_from_term_spec() -> bool {
        true
    }

    open spec fn reads_term(triples: Set<TripleModel>, term: TermModel, r: Result<i64, RdfObjectError>) -> bool {
        is_reading(r, decode_int_term(term, xsd_long_iri(), i64::MIN as int, i64::MAX as int, true), |v: i64| v as int)
    }

    fn from_term(graph: &oxrdf::Graph, term: &RdfTerm) -> (r: Result<i64, RdfObjectError>)
        ensures
            r matches Ok(v) ==> decode_int_term(term@, xsd_long_iri(), i64::MIN as int, i64::MAX as int, true) == Ok::<int, ObjectErrorModel>(v as int),
            r matches Err(e) ==> decode_int_term(term@, xsd_long_iri(), i64::MIN as int, i64::MAX as int, true) == Err::<int, ObjectErrorModel>(e@),
    {
        let literal = literal_of_term(term)?;
        match i64::from_literal(literal) {
            Ok(v) => Ok(v),
            Err(e) => Err(RdfObjectError::Literal(e)),
        }
    }
}

impl ToRdfObject for u8 {
    fn to_term(&self, graph: &mut oxrdf::Graph) -> (t: RdfTerm)
        ensures
            t@ == TermModel::Literal(int_literal(*self as int, xsd_unsigned_byte_iri())),
            graph_triples(*final(graph)) == graph_triples(*old(graph)),
    {
        RdfTerm::Lit(self.to_literal())
    }
}

impl FromRdfObject for u8 {
    open spec fn obeys_from_term_spec() -> bool {
        true
    }

    open spec fn reads_term(triples: Set<TripleModel>, term: TermModel, r: Result<u8, RdfObjectError>) -> bool {
        is_reading(r, decode_int_term(term, xsd_unsigned_byte_iri(), 0, u8::MAX as int, false), |v: u8| v as int)
    }

    fn from_term(graph: &oxrdf::Graph, term: &RdfTerm) -> (r: Result<u8, RdfObjectError>)
        ensures
            r matches Ok(v) ==> decode_int_term(term@, xsd_unsigned_byte_iri(), 0, u8::MAX as int, false) == Ok::<int, ObjectErrorModel>(v as int),
            r matches Err(e) ==> decode_int_term(term@, xsd_unsigned_byte_iri(), 0, u8::MAX as int, false) == Err::<int, ObjectErrorModel>(e@),
    {
        let literal = literal_of_term(term)?;
        match u8::from_literal(literal) {
            Ok(v) => Ok(v),
            Err(e) => Err(RdfObjectError::Literal(e)),
        }
    }
}

impl ToRdfObject for u32 {
    fn to_term(&self, graph: &mut oxrdf::Graph) -> (t: RdfTerm)
        ensures
            t@ == TermModel::Literal(int_literal(*self as int, xsd_unsigned_int_iri())),
            graph_triples(*final(graph)) == graph_triples(*old(graph)),
    {
        RdfTerm::Lit(self.to_literal())
    }
}

impl FromRdfObject for u32 {
    open spec fn obeys_from_term_spec() -> bool {
        true
    }

    open spec fn reads_term(triples: Set<TripleModel>, term: TermModel, r: Result<u32, RdfObjectError>) -> bool {
        is_reading(r, decode_int_term(term, xsd_unsigned_int_iri(), 0, u32::MAX as int, false), |v: u32| v as int)
    }

    fn from_term(graph: &oxrdf::Graph, term: &RdfTerm) -> (r: Result<u32, RdfObjectError>)
        ensures
            r matches Ok(v) ==> decode_int_term(term@, xsd_unsigned_int_iri(), 0, u32::MAX as int, false) == Ok::<int, ObjectErrorModel>(v as int),
            r matches Err(e) ==> decode_int_term(term@, xsd_unsigned_int_iri(), 0, u32::MAX as int, false) == Err::<int, ObjectErrorModel>(e@),
    {
        let literal = literal_of_term(term)?;
        match u32::from_literal(literal) {
            Ok(v) => Ok(v),
            Err(e) => Err(RdfObjectError::Literal(e)),
        }
    }
}

impl ToRdfObject for u64 {
    fn to_term(&self, graph: &mut oxrdf::Graph) -> (t: RdfTerm)
        ensures
            t@ == TermModel::Literal(int_literal(*self as int, xsd_unsigned_long_iri())),
            graph_triples(*final(graph)) == graph_triples(*old(graph)),
    {
        RdfTerm::Lit(self.to_literal())
    }
}

impl FromRdfObject for u64 {
    open spec fn obeys_from_term_spec() -> bool {
        true
    }

    open spec fn reads_term(triples: Set<TripleModel>, term: TermModel, r: Result<u64, RdfObjectError>) -> bool {
        is_reading(r, decode_int_term(term, xsd_unsigned_long_iri(), 0, u64::MAX as int, false), |v: u64| v as int)
    }

    fn from_term(graph: &oxrdf::Graph, term: &RdfTerm) -> (r: Result<u64, RdfObjectError>)
        ensures
            r matches Ok(v) ==> decode_int_term(term@, xsd_unsigned_long_iri(), 0, u64::MAX as int, false) == Ok::<int, ObjectErrorModel>(v as int),
            r matches Err(e) ==> decode_int_term(term@, xsd_unsigned_long_iri(), 0, u64::MAX as int, false) == Err::<int, ObjectErrorModel>(e@),
    {
        let literal = literal_of_term(term)?;
        match u64::from_literal(literal) {
            Ok(v) => Ok(v),
            Err(e) => Err(RdfObjectError::Literal(e)),
        }
    }
}

impl ToRdfObject for bool {
    fn to_term(&self, graph: &mut oxrdf::Graph) -> (t: RdfTerm)
        ensures
            t@ == TermModel::Literal(typed_literal(bool_text(*self), xsd_boolean_iri())),
            graph_triples(*final(graph)) == graph_triples(*old(graph)),
    {
        RdfTerm::Lit(self.to_literal())
    }
}

impl FromRdfObject for bool {
    open spec fn obeys_from_term_spec() -> bool {
        true
    }

    open spec fn reads_term(triples: Set<TripleModel>, term: TermModel, r: Result<bool, RdfObjectError>) -> bool {
        is_reading(r, decode_bool_term(term), |v: bool| v)
    }

    fn from_term(graph: &oxrdf::Graph, term: &RdfTerm) -> (r: Result<bool, RdfObjectError>)
        ensures
            r matches Ok(v) ==> decode_bool_term(term@) == Ok::<bool, ObjectErrorModel>(v),
            r matches Err(e) ==> decode_bool_term(term@) == Err::<bool, ObjectErrorModel>(e@),
    {
        let literal = literal_of_term(term)?;
        match bool::from_literal(literal) {
            Ok(v) => Ok(v),
            Err(e) => Err(RdfObjectError::Literal(e)),
        }
    }
}

impl ToRdfObject for String {
    fn to_term(&self, graph: &mut oxrdf::Graph) -> (t: RdfTerm)
        ensures
            t@ == TermModel::Literal(typed_literal(self@, xsd_string_iri())),
            graph_triples(*final(graph)) == graph_triples(*old(graph)),
    {
        RdfTerm::Lit(self.to_literal())
    }
}

impl FromRdfObject for String {
    open spec fn obeys_from_term_spec() -> bool {
        true
    }

    open spec fn reads_term(triples: Set<TripleModel>, term: TermModel, r: Result<String, RdfObjectError>) -> bool {
        is_reading(r, decode_string_term(term), |v: String| v@)
    }

    fn from_term(graph: &oxrdf::Graph, term: &RdfTerm) -> (r: Result<String, RdfObjectError>)
        ensures
            r matches Ok(v) ==> decode_string_term(term@) == Ok::<Seq<char>, ObjectErrorModel>(v@),
            r matches Err(e) ==> decode_string_term(term@) == Err::<Seq<char>, ObjectErrorModel>(e@),
    {
        let literal = literal_of_term(term)?;
        match String::from_literal(literal) {
            Ok(v) => Ok(v),
            Err(e) => Err(RdfObjectError::Literal(e)),
        }
    }
}

impl ToRdfObject for Iri {
    fn to_term(&self, graph: &mut oxrdf::Graph) -> (t: RdfTerm)
        ensures
            t@ == TermModel::Named(self@),
            graph_triples(*final(graph)) == graph_triples(*old(graph)),
    {
        RdfTerm::Iri(self.clone())
    }
}

impl FromRdfObject for Iri {
    open spec fn obeys_from_term_spec() -> bool {
        true
    }

    open spec fn reads_term(triples: Set<TripleModel>, term: TermModel, r: Result<Iri, RdfObjectError>) -> bool {
        is_reading(r, decode_iri_term(term), |v: Iri| v@)
    }

    fn from_term(graph: &oxrdf::Graph, term: &RdfTerm) -> (r: Result<Iri, RdfObjectError>)
        ensures
            r matches Ok(v) ==> decode_iri_term(term@) == Ok::<Seq<char>, ObjectErrorModel>(v@),
            r matches Err(e) ==> decode_iri_term(term@) == Err::<Seq<char>, ObjectErrorModel>(e@),
    {
        match term {
            RdfTerm::Iri(n) => Ok(n.clone()),
            _ => Err(RdfObjectError::UnexpectedTermType(term.clone())),
        }
    }
}

impl ToRdfObject for BlankId {
    fn to_term(&self, graph: &mut oxrdf::Graph) -> (t: RdfTerm)
        ensures
            t@ == TermModel::Blank(self@),
            graph_triples(*final(graph)) == graph_triples(*old(graph)),
    {
        RdfTerm::Blank(self.clone())
    }
}

impl FromRdfObject for BlankId {
    open spec fn obeys_from_term_spec() -> bool {
        true
    }

    open spec fn reads_term(triples: Set<TripleModel>, term: TermModel, r: Result<BlankId, RdfObjectError>) -> bool {
        is_reading(r, decode_blank_term(term), |v: BlankId| v@)
    }

    fn from_term(graph: &oxrdf::Graph, term: &RdfTerm) -> (r: Result<BlankId, RdfObjectError>)
        ensures
            r matches Ok(v) ==> decode_blank_term(term@) == Ok::<Seq<char>, ObjectErrorModel>(v@),
            r matches Err(e) ==> decode_blank_term(term@) == Err::<Seq<char>, ObjectErrorModel>(e@),
    {
        match term {
            RdfTerm::Blank(b) => Ok(b.clone()),
            _ => Err(RdfObjectError::UnexpectedTermType(term.clone())),
        }
    }
}

impl ToRdfObject for Subject {
    fn to_term(&self, graph: &mut oxrdf::Graph) -> (t: RdfTerm)
        ensures
            t@ == crate::term::subject_term(self@),
            graph_triples(*final(graph)) == graph_triples(*old(graph)),
    {
        self.as_term()
    }
}

impl FromRdfObject for Subject {
    open spec fn obeys_from_term_spec() -> bool {
        true
    }

    open spec fn reads_term(triples: Set<TripleModel>, term: TermModel, r: Result<Subject, RdfObjectError>) -> bool {
        is_reading(r, decode_subject_term(term), |v: Subject| v@)
    }

    fn from_term(graph: &oxrdf::Graph, term: &RdfTerm) -> (r: Result<Subject, RdfObjectError>)
        ensures
            r matches Ok(v) ==> decode_subject_term(term@) == Ok::<SubjectModel, ObjectErrorModel>(v@),
            r matches Err(e) ==> decode_subject_term(term@) == Err::<SubjectModel, ObjectErrorModel>(e@),
    {
        match term {
            RdfTerm::Iri(n) => Ok(Subject::Iri(n.clone())),
            RdfTerm::Blank(b) => Ok(Subject::Blank(b.clone())),
            _ => Err(RdfObjectError::UnexpectedTermType(term.clone())),
        }
    }
}

impl ToRdfObject for LiteralValue {
    fn to_term(&self, graph: &mut oxrdf::Graph) -> (t: RdfTerm)
        ensures
            t@ == TermModel::Literal(self@),
            graph_triples(*final(graph)) == graph_triples(*old(graph)),
    {
        RdfTerm::Lit(self.clone())
    }
}

impl FromRdfObject for LiteralValue {
    open spec fn obeys_from_term_spec() -> bool {
        true
    }

    open spec fn reads_term(triples: Set<TripleModel>, term: TermModel, r: Result<LiteralValue, RdfObjectError>) -> bool {
        is_reading(r, decode_literal_term(term), |v: LiteralValue| v@)
    }

    fn from_term(graph: &oxrdf::Graph, term: &RdfTerm) -> (r: Result<LiteralValue, RdfObjectError>)
        ensures
            r matches Ok(v) ==> decode_literal_term(term@) == Ok::<crate::term::LiteralModel, ObjectErrorModel>(v@),
            r matches Err(e) ==> decode_literal_term(term@) == Err::<crate::term::LiteralModel, ObjectErrorModel>(e@),
    {
        let literal = literal_of_term(term)?;
        Ok(literal.clone())
    }
}

impl ToRdfObject for RdfTerm {
    fn to_term(&self, graph: &mut oxrdf::Graph) -> (t: RdfTerm)
        ensures
            t@ == self@,
            graph_triples(*final(graph)) == graph_triples(*old(graph)),
    {
        self.clone()
    }
}

impl FromRdfObject for RdfTerm {
    open spec fn obeys_from_term_spec() -> bool {
        true
    }

    open spec fn reads_term(triples: Set<TripleModel>, term: TermModel, r: Result<RdfTerm, RdfObjectError>) -> bool {
        r matches Ok(v) && v@ == term
    }

    fn from_term(graph: &oxrdf::Graph, term: &RdfTerm) -> (r: Result<RdfTerm, RdfObjectError>)
        ensures
            r matches Ok(v) && v@ == term@,
    {
        Ok(term.clone())
    }
}

/// Wraps the reading of the boxed value (`T::from_term`) in a box.
pub fn box_reading<T>(inner: Result<T, RdfObjectError>) -> (r: Result<Box<T>, RdfObjectError>)
    ensures
        r is Ok <==> inner is Ok,
        r matches Ok(b) ==> inner == Ok::<T, RdfObjectError>(*b),
        r matches Err(e) ==> inner == Err::<T, RdfObjectError>(e),
{
    match inner {
        Ok(v) => Ok(Box::new(v)),
        Err(e) => Err(e),
    }
}

impl<T: FromRdfObject> FromRdfObject for Box<T> {
    open spec fn obeys_from_term_spec() -> bool {
        T::obeys_from_term_spec()
    }

    /// The boxed value's reading, in a box.
    open spec fn reads_term(triples: Set<TripleModel>, term: TermModel, r: Result<Box<T>, RdfObjectError>) -> bool {
        match r {
            Ok(b) => T::reads_term(triples, term, Ok(*b)),
            Err(e) => T::reads_term(triples, term, Err(e)),
        }
    }

    /// What `T::from_term` gives, its value boxed.
    fn from_term(graph: &oxrdf::Graph, term: &RdfTerm) -> (r: Result<Box<T>, RdfObjectError>)
        ensures
            match r {
                Ok(b) => call_ensures(T::from_term, (graph, term), Ok::<T, RdfObjectError>(*b)),
                Err(e) => call_ensures(T::from_term, (graph, term), Err::<T, RdfObjectError>(e)),
            },
    {
        box_reading(T::from_term(graph, term))
    }
}

/// Reading back the term written for an integer gives the integer again.
pub proof fn lemma_int_term_round_trip(n: int, datatype: Seq<char>, lo: int, hi: int, signed: bool)
    requires
        lo <= n <= hi,
        lo <= 0 <= hi,
        signed || lo == 0,
    ensures
        decode_int_term(TermModel::Literal(int_literal(n, datatype)), datatype, lo, hi, signed) == Ok::<int, ObjectErrorModel>(n),
{
    lemma_int_literal_round_trip(n, datatype, lo, hi, signed);
}

/// Reading back the term written for a `bool` gives the `bool` again.
pub proof fn lemma_bool_term_round_trip(b: bool)
    ensures
        decode_bool_term(TermModel::Literal(typed_literal(bool_text(b), xsd_boolean_iri()))) == Ok::<bool, ObjectErrorModel>(b),
{
    lemma_bool_literal_round_trip(b);
}

/// Reading back the term written for a string gives the string again.
pub proof fn lemma_string_term_round_trip(s: Seq<char>)
    ensures
        decode_string_term(TermModel::Literal(typed_literal(s, xsd_string_iri()))) == Ok::<Seq<char>, ObjectErrorModel>(s),
{
}

} // verus!

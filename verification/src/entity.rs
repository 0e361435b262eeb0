//! Entities: values stored in a graph under an IRI, with property
//! definitions that describe their shape, and the literal conversions they
//! are built from.

use vstd::prelude::*;
use vstd::std_specs::convert::FromSpecImpl;

use crate::literal::{
    decode_int_literal, decode_string_literal, int_from_literal, int_literal, int_to_literal,
    typed_literal, xsd_integer_iri, LiteralErrorModel, RdfLiteralError,
};
use crate::term::{xsd_string, xsd_string_iri, Iri, LiteralValue};

verus! {

/// Why a literal could not be read as a value.
#[derive(Debug)]
pub enum DeserializeLiteralError {
    /// The literal does not have the datatype of the value type.
    InvalidDatatype { expected: String, actual: String },
    /// The lexical form does not parse; the message says why.
    FailedToParse(String),
}

impl View for DeserializeLiteralError {
    type V = LiteralErrorModel;

    open spec fn view(&self) -> LiteralErrorModel {
        match self {
            DeserializeLiteralError::InvalidDatatype { expected, actual } => LiteralErrorModel::InvalidDatatype {
                expected: expected@,
                actual: actual@,
            },
            DeserializeLiteralError::FailedToParse(m) => LiteralErrorModel::Parse(m@),
        }
    }
}

/// The same refusal as a literal error of this module.
fn deserialize_literal_error(e: RdfLiteralError) -> (r: DeserializeLiteralError)
    ensures
        r@ == e@,
{
    match e {
        RdfLiteralError::InvalidDatatype { expected, actual } => DeserializeLiteralError::InvalidDatatype {
            expected,
            actual,
        },
        RdfLiteralError::Parse(m) => DeserializeLiteralError::FailedToParse(m),
    }
}

/// A value that converts to and from an RDF literal.
pub trait RdfLiteral: Sized {
    /// Converts the value to an RDF literal.
    fn to_literal(&self) -> LiteralValue;

    /// Converts an RDF literal to the value type, if possible.
    fn from_literal(literal: &LiteralValue) -> Result<Self, DeserializeLiteralError>;
}

impl RdfLiteral for i32 {
    /// The decimal text, as an `xsd:integer` literal.
    fn to_literal(&self) -> (l: LiteralValue)
        ensures
            l@ == int_literal(*self as int, xsd_integer_iri()),
    {
        int_to_literal(*self as i128, "http://www.w3.org/2001/XMLSchema#integer")
    }

    /// An `xsd:integer` literal whose text parses as an `i32`.
    fn from_literal(literal: &LiteralValue) -> (r: Result<i32, DeserializeLiteralError>)
        ensures
            r matches Ok(v) ==> decode_int_literal(
                literal@,
                xsd_integer_iri(),
                i32::MIN as int,
                i32::MAX as int,
                true,
            ) == Ok::<int, LiteralErrorModel>(v as int),
            r matches Err(e) ==> decode_int_literal(
                literal@,
                xsd_integer_iri(),
                i32::MIN as int,
                i32::MAX as int,
                true,
            ) == Err::<int, LiteralErrorModel>(e@),
    {
        match int_from_literal(
            literal,
            "http://www.w3.org/2001/XMLSchema#integer",
            i32::MIN as i128,
            i32::MAX as i128,
            true,
        ) {
            Ok(v) => Ok(v as i32),
            Err(e) => Err(deserialize_literal_error(e)),
        }
    }
}

impl RdfLiteral for String {
    /// The text, as an `xsd:string` literal.
    fn to_literal(&self) -> (l: LiteralValue)
        ensures
            l@ == typed_literal(self@, xsd_string_iri()),
    {
        LiteralValue::new_typed_literal(self.clone(), xsd_string())
    }

    /// The text of an `xsd:string` literal.
    fn from_literal(literal: &LiteralValue) -> (r: Result<String, DeserializeLiteralError>)
        ensures
            r matches Ok(v) ==> decode_string_literal(literal@) == Ok::<Seq<char>, LiteralErrorModel>(v@),
            r matches Err(e) ==> decode_string_literal(literal@) == Err::<Seq<char>, LiteralErrorModel>(e@),
    {
        let expected = xsd_string();
        match crate::literal::check_datatype(literal, expected.as_str()) {
            Err(e) => Err(deserialize_literal_error(e)),
            Ok(()) => Ok(literal.value().to_owned()),
        }
    }
}

/// How a property of an entity is stored: as a literal, or as an entity
/// with its own properties.
#[derive(Debug)]
pub enum EntityPropertyDefinitionKind {
    Literal,
    Entity(Vec<EntityPropertyDefinition>),
}

/// The definition of a property of an entity.
#[derive(Debug)]
pub struct EntityPropertyDefinition {
    kind: EntityPropertyDefinitionKind,
    name: Iri,
    predicate: Iri,
    is_optional: bool,
}

/// Why an entity could not be read from a graph.
#[derive(Debug)]
pub enum DeserializeEntityError {
    /// A required property has no value.
    MissingProperty(String),
    /// A literal value could not be read.
    FailedToDeserializeLiteral(DeserializeLiteralError),
}

/// Model of `DeserializeEntityError`.
pub enum EntityErrorModel {
    MissingProperty(Seq<char>),
    FailedToDeserializeLiteral(LiteralErrorModel),
}

impl View for DeserializeEntityError {
    type V = EntityErrorModel;

    open spec fn view(&self) -> EntityErrorModel {
        match self {
            DeserializeEntityError::MissingProperty(p) => EntityErrorModel::MissingProperty(p@),
            DeserializeEntityError::FailedToDeserializeLiteral(e) => EntityErrorModel::FailedToDeserializeLiteral(e@),
        }
    }
}

impl From<DeserializeLiteralError> for DeserializeEntityError {
    fn from(e: DeserializeLiteralError) -> (r: DeserializeEntityError) {
        DeserializeEntityError::FailedToDeserializeLiteral(e)
    }
}

impl FromSpecImpl<DeserializeLiteralError> for DeserializeEntityError {
    open spec fn obeys_from_spec() -> bool {
        true
    }

    open spec fn from_spec(e: DeserializeLiteralError) -> DeserializeEntityError {
        DeserializeEntityError::FailedToDeserializeLiteral(e)
    }
}

/// An entity that is serialized to and deserialized from an RDF graph under
/// its IRI.
pub trait Entity: Sized {
    /// The `rdf:type` that identifies entities of this type in a graph.
    fn get_rdf_type() -> &'static Iri;

    /// The definitions of the entity type's properties.
    fn get_property_definitions() -> Vec<EntityPropertyDefinition>;

    /// Writes the entity into `graph`.
    fn serialize(&self, graph: &mut oxrdf::Graph);

    /// Reads the entity with IRI `iri` from `graph`.
    fn deserialize(graph: &oxrdf::Graph, iri: &Iri) -> Result<Self, DeserializeEntityError>;

    /// The IRI of the entity.
    fn get_iri(&self) -> &Iri;
}

} // verus!

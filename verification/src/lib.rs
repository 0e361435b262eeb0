//! Mapping between Rust values and RDF graphs, with the SPARQL patterns that
//! fetch them back.

pub mod text;
pub mod sparql_variable_generator;

pub use sparql_variable_generator::SparqlVariableGenerator;
pub mod sparql_construct_query_patterns;
pub use sparql_construct_query_patterns::SparqlConstructQueryPatterns;
pub mod term;
pub mod graph;
pub mod numeral;
pub mod literal;
pub mod object;
pub mod property;
pub mod resource;
pub mod construct_query;
pub mod constructible;
pub mod query;
pub mod derive_plan;
pub mod rdf_type;
pub mod object_ref;
pub mod calendar;
pub mod entity;

//! The two text parts of a SPARQL CONSTRUCT query: its template and its
//! WHERE patterns.

use vstd::prelude::*;

verus! {

/// The template patterns and the WHERE patterns of a CONSTRUCT query, as
/// SPARQL text.
#[derive(Debug)]
pub struct SparqlConstructQueryPatterns {
    pub patterns: String,
    pub where_patterns: String,
}

impl SparqlConstructQueryPatterns {
    /// Both parts empty.
    pub fn new() -> (q: Self)
        ensures
            q.patterns@ == Seq::<char>::empty(),
            q.where_patterns@ == Seq::<char>::empty(),
    {
        SparqlConstructQueryPatterns { patterns: String::new(), where_patterns: String::new() }
    }
}

impl Clone for SparqlConstructQueryPatterns {
    fn clone(&self) -> (r: Self)
        ensures
            r.patterns@ == self.patterns@,
            r.where_patterns@ == self.where_patterns@,
    {
        SparqlConstructQueryPatterns {
            patterns: self.patterns.clone(),
            where_patterns: self.where_patterns.clone(),
        }
    }
}

impl Default for SparqlConstructQueryPatterns {
    /// Both parts empty.
    fn default() -> (q: Self)
        ensures
            q.patterns@ == Seq::<char>::empty(),
            q.where_patterns@ == Seq::<char>::empty(),
    {
        SparqlConstructQueryPatterns::new()
    }
}

} // verus!

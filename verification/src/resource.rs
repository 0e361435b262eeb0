//! Resources: values with a subject and an `rdf:type`, written to and read
//! from a graph as a whole.

use vstd::prelude::*;

use crate::graph::{graph_objects, graph_subjects, graph_triples, lists_each_once, objects_of, subjects_of};
use crate::object::{decode_string_term, lemma_string_term_round_trip, FromRdfObject, ObjectErrorModel, RdfObjectError};
use crate::property::{
    insert_object, lemma_single_reading_of_one, listed_from_term, string_term, listed_property_reading, property_error_fits, triple, FromRdfProperty,
    PropertyErrorModel, RdfPropertyError,
};
use crate::term::{rdf_type, rdf_type_iri, Iri, RdfTerm, Subject, SubjectModel, TermModel, TripleModel};

verus! {

/// Why a resource could not be read from a graph.
#[derive(Debug)]
pub enum DeserializeResourceError {
    /// The subject has no `rdf:type`.
    MissingRdfType,
    /// The subject does not have the expected `rdf:type`; `found` lists the
    /// types it has.
    InvalidRdfType { expected: Iri, found: Vec<Iri> },
    /// One property of the resource could not be read.
    FailedToDeserializeProperty { subject: Subject, property: String, source: Box<RdfPropertyError> },
}

/// Model of `DeserializeResourceError`. The failing property's own error is
/// left out (a model holding it would make the views of the three error
/// types call one another); the functions that build one state it.
pub enum ResourceErrorModel {
    MissingRdfType,
    InvalidRdfType { expected: Seq<char>, found: Seq<Seq<char>> },
    FailedToDeserializeProperty { subject: SubjectModel, property: Seq<char> },
}

/// The IRIs of a sequence of named nodes.
pub open spec fn iris_of(v: Seq<Iri>) -> Seq<Seq<char>> {
    v.map_values(|n: Iri| n@)
}

impl View for DeserializeResourceError {
    type V = ResourceErrorModel;

    open spec fn view(&self) -> ResourceErrorModel {
        match self {
            DeserializeResourceError::MissingRdfType => ResourceErrorModel::MissingRdfType,
            DeserializeResourceError::InvalidRdfType { expected, found } => ResourceErrorModel::InvalidRdfType {
                expected: expected@,
                found: iris_of(found@),
            },
            DeserializeResourceError::FailedToDeserializeProperty { subject, property, .. } =>
                ResourceErrorModel::FailedToDeserializeProperty { subject: subject@, property: property@ },
        }
    }
}

/// A resource in RDF: it has an `rdf:type` and a subject.
pub trait Resource: Sized {
    /// Whether the type states its class and subjects by `rdf_type_spec`
    /// and `subject_spec`; a type that does not override this states
    /// nothing of them.
    open spec fn obeys_resource_spec() -> bool {
        false
    }

    /// The IRI of the class of the resources of this type.
    open spec fn rdf_type_spec() -> Seq<char> {
        Seq::empty()
    }

    /// The subject of the resource.
    open spec fn subject_spec(&self) -> SubjectModel {
        SubjectModel::Named(Seq::empty())
    }

    /// Returns the rdf type of the resource.
    fn get_rdf_type() -> (t: Iri)
        ensures
            Self::obeys_resource_spec() ==> t@ == Self::rdf_type_spec(),
    ;

    /// Returns the subject of the resource.
    fn get_subject(&self) -> (s: &Subject)
        ensures
            Self::obeys_resource_spec() ==> s@ == self.subject_spec(),
    ;
}

/// A value that writes itself as RDF triples into a graph.
pub trait ToRdf {
    /// Whether the type states, by `rdf_triples`, which triples `to_rdf`
    /// adds; a type that does not override this states nothing more than
    /// the clause below.
    open spec fn obeys_to_rdf_spec() -> bool {
        false
    }

    /// The triples that `to_rdf` adds for the value.
    open spec fn rdf_triples(&self) -> Set<TripleModel> {
        Set::empty()
    }

    /// Converts the value into RDF triples and adds them to `graph`, which
    /// keeps every triple it had.
    fn to_rdf(&self, graph: &mut oxrdf::Graph)
        ensures
            graph_triples(*old(graph)).subset_of(graph_triples(*final(graph))),
            Self::obeys_to_rdf_spec() ==> graph_triples(*final(graph)) == graph_triples(
                *old(graph),
            ).union(self.rdf_triples()),
    ;
}

/// A value that reads itself from an RDF graph.
pub trait FromRdf: Sized {
    /// Whether the type states, by `reads_resource`, what `from_rdf` gives;
    /// a type that does not override this states nothing of it.
    open spec fn obeys_from_rdf_spec() -> bool {
        false
    }

    /// Whether `r` is what `from_rdf` gives for `subject` in `graph`.
    open spec fn reads_resource(
        graph: oxrdf::Graph,
        subject: SubjectModel,
        r: Result<Self, DeserializeResourceError>,
    ) -> bool {
        true
    }

    /// Reads the value whose subject is `subject` from `graph`.
    fn from_rdf(graph: &oxrdf::Graph, subject: &Subject) -> (r: Result<Self, DeserializeResourceError>)
        ensures
            Self::obeys_from_rdf_spec() ==> Self::reads_resource(*graph, subject@, r),
    ;
}

/// The classes named by the `rdf:type` objects of a subject.
pub open spec fn named_types(objs: Set<TermModel>) -> Set<Seq<char>> {
    Set::new(|i: Seq<char>| objs.contains(TermModel::Named(i)))
}

/// Whether every `rdf:type` object of the subject is a named node.
pub open spec fn types_all_named(objs: Set<TermModel>) -> bool {
    forall|o: TermModel| #[trigger] objs.contains(o) ==> o is Named
}

/// Adds `(subject, rdf:type, <class>)` to the graph.
pub fn insert_rdf_type(graph: &mut oxrdf::Graph, subject: &Subject, class: &Iri)
    ensures
        graph_triples(*final(graph)) == graph_triples(*old(graph)).insert(
            triple(subject@, rdf_type_iri(), TermModel::Named(class@)),
        ),
{
    insert_object(graph, subject, &rdf_type(), RdfTerm::Iri(class.clone()));
}

/// Checks that the subject has the class `expected` among its `rdf:type`
/// objects. An object that is not a named node fails the reading of
/// `rdf:type`; without `expected` among the classes, the error lists the
/// classes found.
pub fn check_rdf_type(graph: &oxrdf::Graph, subject: &Subject, expected: &Iri) -> (r: Result<
    (),
    DeserializeResourceError,
>)
    ensures
        ({
            let objs = objects_of(graph_triples(*graph), subject@, rdf_type_iri());
            &&& r is Ok <==> (types_all_named(objs) && objs.contains(TermModel::Named(expected@)))
            &&& r matches Err(e) ==> (types_all_named(objs) <==> e@ is InvalidRdfType)
            &&& r matches Err(e) ==> match e@ {
                ResourceErrorModel::InvalidRdfType { expected: x, found } => {
                    &&& x == expected@
                    &&& found.no_duplicates()
                    &&& found.to_set() == named_types(objs)
                },
                ResourceErrorModel::FailedToDeserializeProperty { subject: s, property } => {
                    &&& s == subject@
                    &&& property == "rdf:type"@
                },
                ResourceErrorModel::MissingRdfType => false,
            }
            &&& r matches Err(DeserializeResourceError::FailedToDeserializeProperty { source, .. }) ==> (
            (*source)@ matches PropertyErrorModel::Object(ObjectErrorModel::UnexpectedTermType(t)) && objs.contains(t)
                && !(t is Named))
        }),
{
    let ghost objs = objects_of(graph_triples(*graph), subject@, rdf_type_iri());
    let predicate = rdf_type();
    let objects = graph_objects(graph, subject, &predicate);
    let mut found: Vec<Iri> = Vec::new();
    let mut has_expected = false;
    let mut i: usize = 0;
    while i < objects.len()
        invariant
            i <= objects.len(),
            predicate@ == rdf_type_iri(),
            objs == objects_of(graph_triples(*graph), subject@, rdf_type_iri()),
            crate::graph::distinct_terms(objects@),
            forall|o: TermModel|
                objs.contains(o) <==> exists|k: int| 0 <= k < objects.len() && #[trigger] objects@[k]@ == o,
            found.len() == i,
            forall|k: int| 0 <= k < i ==> #[trigger] objects@[k]@ == TermModel::Named(found@[k]@),
            has_expected <==> exists|k: int| 0 <= k < i && #[trigger] found@[k]@ == expected@,
        decreases objects.len() - i,
    {
        match &objects[i] {
            RdfTerm::Iri(n) => {
                let ghost before = has_expected;
                let ghost prev = found@;
                if n == expected {
                    has_expected = true;
                }
                found.push(n.clone());
                assert(found@[i as int]@ == n@);
                assert(forall|k: int| 0 <= k < i ==> found@[k] == prev[k]);
                assert(has_expected <==> (before || n@ == expected@));
                assert(has_expected <==> exists|k: int| 0 <= k < i + 1 && #[trigger] found@[k]@ == expected@) by {
                    if before {
                        let k = choose|k: int| 0 <= k < i && #[trigger] prev[k]@ == expected@;
                        assert(found@[k]@ == expected@);
                    }
                    if exists|k: int| 0 <= k < i + 1 && #[trigger] found@[k]@ == expected@ {
                        let k = choose|k: int| 0 <= k < i + 1 && #[trigger] found@[k]@ == expected@;
                        if k < i {
                            assert(prev[k]@ == expected@);
                        }
                    }
                }
            },
            _ => {
                let t = objects[i].clone();
                assert(objs.contains(objects@[i as int]@));
                assert(!types_all_named(objs));
                let mut property = String::new();
                crate::text::push_str(&mut property, "rdf:type");
                return Err(DeserializeResourceError::FailedToDeserializeProperty {
                    subject: subject.clone(),
                    property,
                    source: Box::new(RdfPropertyError::Object(RdfObjectError::UnexpectedTermType(t))),
                });
            },
        }
        i = i + 1;
    }
    assert(types_all_named(objs)) by {
        assert forall|o: TermModel| #[trigger] objs.contains(o) implies o is Named by {
            let k = choose|k: int| 0 <= k < objects.len() && #[trigger] objects@[k]@ == o;
            assert(objects@[k]@ == TermModel::Named(found@[k]@));
        }
    }
    let ghost iris = iris_of(found@);
    assert(iris.to_set() =~= named_types(objs)) by {
        assert forall|c: Seq<char>| iris.to_set().contains(c) <==> named_types(objs).contains(c) by {
            if iris.to_set().contains(c) {
                let k = choose|k: int| 0 <= k < iris.len() && iris[k] == c;
                assert(objects@[k]@ == TermModel::Named(c));
            }
            if named_types(objs).contains(c) {
                let k = choose|k: int| 0 <= k < objects.len() && #[trigger] objects@[k]@ == TermModel::Named(c);
                assert(iris[k] == c);
            }
        }
    }
    assert(iris.no_duplicates()) by {
        assert forall|a: int, b: int| 0 <= a < iris.len() && 0 <= b < iris.len() && a != b implies iris[a] != iris[b] by {
            assert(objects@[a]@ != objects@[b]@);
        }
    }
    if has_expected {
        assert(objs.contains(TermModel::Named(expected@))) by {
            let k = choose|k: int| 0 <= k < i && #[trigger] found@[k]@ == expected@;
            assert(objects@[k]@ == TermModel::Named(expected@));
        }
        Ok(())
    } else {
        assert(!objs.contains(TermModel::Named(expected@))) by {
            if objs.contains(TermModel::Named(expected@)) {
                let k = choose|k: int| 0 <= k < objects.len() && #[trigger] objects@[k]@ == TermModel::Named(expected@);
                assert(found@[k]@ == expected@);
            }
        }
        Err(DeserializeResourceError::InvalidRdfType { expected: expected.clone(), found })
    }
}

/// Reads a property of a resource: what the property's own reading
/// (`T::from_property`) gives, its value unchanged. A failure is that
/// reading's failure, naming the property and the subject and keeping the
/// property's own error as its source: a missing value when the subject has
/// no object for the predicate, else the refusal of one of its objects.
pub fn read_resource_property<T: FromRdfProperty>(
    graph: &oxrdf::Graph,
    subject: &Subject,
    predicate: &Iri,
    property: &str,
) -> (r: Result<T, DeserializeResourceError>)
    ensures
        r matches Err(e) ==> e@ == (ResourceErrorModel::FailedToDeserializeProperty {
            subject: subject@,
            property: property@,
        }),
        r matches Err(DeserializeResourceError::FailedToDeserializeProperty { source, .. })
            ==> property_error_fits(
            (*source)@,
            objects_of(graph_triples(*graph), subject@, predicate@),
            predicate@,
        ),
        exists|reading: Result<T, RdfPropertyError>|
            #[trigger] call_ensures(T::from_property, (graph, subject, predicate), reading) && passes_reading(
                reading,
                r,
            ),
{
    match T::from_property(graph, subject, predicate) {
        Ok(v) => Ok(v),
        Err(err) => Err(DeserializeResourceError::FailedToDeserializeProperty {
            subject: subject.clone(),
            property: property.to_owned(),
            source: Box::new(err),
        }),
    }
}

/// Whether `r` passes the property's own reading on: its value unchanged,
/// its refusal as the source of the resource's.
pub open spec fn passes_reading<T>(reading: Result<T, RdfPropertyError>, r: Result<T, DeserializeResourceError>) -> bool {
    match reading {
        Ok(v) => r == Ok::<T, DeserializeResourceError>(v),
        Err(e) => r matches Err(DeserializeResourceError::FailedToDeserializeProperty { source, .. }) && *source == e,
    }
}

/// Reads every resource of type `R` in the graph: one reading per subject
/// that has `R`'s class (what `R::get_rdf_type` gives) as `rdf:type`, each
/// subject once, each reading what `R::from_rdf` gives for its subject.
pub fn deserialize_all<R: Resource + FromRdf>(graph: &oxrdf::Graph) -> (r: Vec<
    Result<R, DeserializeResourceError>,
>)
    ensures
        exists|class: Seq<char>, subjects: Seq<Subject>|
            #![trigger crate::graph::distinct_subjects(subjects), subjects_of(graph_triples(*graph), rdf_type_iri(), TermModel::Named(class))]
            {
                &&& R::obeys_resource_spec() ==> class == R::rdf_type_spec()
                &&& crate::graph::distinct_subjects(subjects)
                &&& subjects.len() == r.len()
                &&& forall|s: SubjectModel|
                    subjects_of(graph_triples(*graph), rdf_type_iri(), TermModel::Named(class)).contains(s)
                        <==> exists|i: int| 0 <= i < subjects.len() && #[trigger] subjects[i]@ == s
                &&& exists|t: Iri| call_ensures(R::get_rdf_type, (), t) && class == t@
                &&& forall|i: int|
                    0 <= i < r.len() ==> call_ensures(R::from_rdf, (graph, &subjects[i]), #[trigger] r@[i])
                &&& R::obeys_from_rdf_spec() ==> forall|i: int|
                    0 <= i < r.len() ==> R::reads_resource(*graph, #[trigger] subjects[i]@, r@[i])
            },
{
    let resource_rdf_type = R::get_rdf_type();
    let ghost class = resource_rdf_type@;
    let ghost class_iri = resource_rdf_type;
    let predicate = rdf_type();
    let subjects = graph_subjects(graph, &predicate, &RdfTerm::Iri(resource_rdf_type));
    let mut results: Vec<Result<R, DeserializeResourceError>> = Vec::new();
    let mut i: usize = 0;
    while i < subjects.len()
        invariant
            i <= subjects.len(),
            results.len() == i,
            R::obeys_from_rdf_spec() ==> forall|k: int|
                0 <= k < i ==> R::reads_resource(*graph, #[trigger] subjects@[k]@, results@[k]),
            forall|k: int| 0 <= k < i ==> call_ensures(R::from_rdf, (graph, &subjects@[k]), #[trigger] results@[k]),
        decreases subjects.len() - i,
    {
        let reading = R::from_rdf(graph, &subjects[i]);
        results.push(reading);
        i = i + 1;
    }
    assert(crate::graph::distinct_subjects(subjects@));
    assert(call_ensures(R::get_rdf_type, (), class_iri) && class == class_iri@);
    assert(subjects_of(graph_triples(*graph), rdf_type_iri(), TermModel::Named(class)) == subjects_of(
        graph_triples(*graph),
        predicate@,
        RdfTerm::Iri(resource_rdf_type)@,
    ));
    results
}

/// Writing a class as an `rdf:type` of a subject whose types are all named
/// nodes keeps them so and adds the class: checking that class for the
/// subject then succeeds (see `check_rdf_type`).
pub proof fn lemma_written_type_checks(g: Set<TripleModel>, s: SubjectModel, c: Seq<char>)
    requires
        types_all_named(objects_of(g, s, rdf_type_iri())),
    ensures
        ({
            let objs = objects_of(g.insert(triple(s, rdf_type_iri(), TermModel::Named(c))), s, rdf_type_iri());
            types_all_named(objs) && objs.contains(TermModel::Named(c))
        }),
{
    let objs = objects_of(g.insert(triple(s, rdf_type_iri(), TermModel::Named(c))), s, rdf_type_iri());
    assert forall|o: TermModel| #[trigger] objs.contains(o) implies o is Named by {
        if o != TermModel::Named(c) {
            assert(objects_of(g, s, rdf_type_iri()).contains(o));
        }
    }
    assert(objs.contains(TermModel::Named(c)));
}

/// An optional property that the subject does not have reads as `None`,
/// whatever the item type: it does not stop the resource from being read.
/// One that the subject has reads as `Some`, or fails for one of its
/// objects, never for a missing value.
pub proof fn lemma_optional_property_of_a_resource<T: FromRdfObject>(
    graph: &oxrdf::Graph,
    subject: &Subject,
    predicate: &Iri,
    property: &str,
    r: Result<Option<T>, DeserializeResourceError>,
)
    requires
        call_ensures(read_resource_property::<Option<T>>, (graph, subject, predicate, property), r),
    ensures
        objects_of(graph_triples(*graph), subject@, predicate@).is_empty() <==> r matches Ok(None),
        r matches Err(DeserializeResourceError::FailedToDeserializeProperty { source, .. }) ==> *source is Object,
{
    let reading = choose|reading: Result<Option<T>, RdfPropertyError>|
        #[trigger] call_ensures(<Option<T> as FromRdfProperty>::from_property, (graph, subject, predicate), reading)
            && passes_reading(reading, r);
}

/// A list property that the subject does not have reads as the empty list,
/// whatever the item type; a list property never fails for a missing
/// value, only for one of its objects.
pub proof fn lemma_list_property_of_a_resource<T: FromRdfObject>(
    graph: &oxrdf::Graph,
    subject: &Subject,
    predicate: &Iri,
    property: &str,
    r: Result<Vec<T>, DeserializeResourceError>,
)
    requires
        call_ensures(read_resource_property::<Vec<T>>, (graph, subject, predicate, property), r),
    ensures
        objects_of(graph_triples(*graph), subject@, predicate@).is_empty() ==> (r matches Ok(v) && v@.len() == 0),
        r matches Err(DeserializeResourceError::FailedToDeserializeProperty { source, .. }) ==> *source is Object,
{
    let reading = choose|reading: Result<Vec<T>, RdfPropertyError>|
        #[trigger] call_ensures(<Vec<T> as FromRdfProperty>::from_property, (graph, subject, predicate), reading)
            && passes_reading(reading, r);
    let objects = objects_of(graph_triples(*graph), subject@, predicate@);
    if objects.is_empty() {
        let objs = choose|objs: Seq<TermModel>|
            {
                &&& #[trigger] lists_each_once(objs, objects)
                &&& reading matches Ok(v) ==> v@.len() == objs.len()
                &&& T::obeys_from_term_spec() ==> listed_property_reading::<T>(graph_triples(*graph), objs, reading)
                &&& exists|os: Seq<RdfTerm>|
                    os.map_values(|t: RdfTerm| t@) == objs && #[trigger] listed_from_term::<T>(graph, os, reading)
            };
        if objs.len() > 0 {
            assert(objs.contains(objs[0]));
        }
    }
}

/// A required string property of a resource reads as the string that is
/// its only object, and fails for a missing value when the subject has no
/// object for it.
pub proof fn lemma_string_property_of_a_resource(
    graph: &oxrdf::Graph,
    subject: &Subject,
    predicate: &Iri,
    property: &str,
    r: Result<String, DeserializeResourceError>,
    x: Seq<char>,
)
    requires
        call_ensures(read_resource_property::<String>, (graph, subject, predicate, property), r),
    ensures
        objects_of(graph_triples(*graph), subject@, predicate@) == set![string_term(x)] ==> (r matches Ok(v)
            && v@ == x),
        objects_of(graph_triples(*graph), subject@, predicate@).is_empty() ==> (r matches Err(
            DeserializeResourceError::FailedToDeserializeProperty { source, .. },
        ) && (*source)@ == PropertyErrorModel::MissingObjectValue(predicate@)),
{
    let reading = choose|reading: Result<String, RdfPropertyError>|
        #[trigger] call_ensures(<String as FromRdfProperty>::from_property, (graph, subject, predicate), reading)
            && passes_reading(reading, r);
    let objects = objects_of(graph_triples(*graph), subject@, predicate@);
    let lifted = match reading {
        Ok(v) => Ok::<Seq<char>, PropertyErrorModel>(v@),
        Err(e) => Err(e@),
    };
    if objects == set![string_term(x)] {
        lemma_single_reading_of_one(string_term(x), predicate@, |o: TermModel| decode_string_term(o), lifted);
        lemma_string_term_round_trip(x);
    }
}

} // verus!

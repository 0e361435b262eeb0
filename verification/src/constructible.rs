//! Types whose values can be fetched by a SPARQL CONSTRUCT query: each adds
//! to the query the triple patterns that match its triples.

use vstd::prelude::*;

use crate::construct_query::{
    GraphPatternModel,
    lemma_identical_push_keeps_templates_matched, lemma_with_optional_contains, pattern_contains,
    templates_matched, with_identical_triple_pattern, with_optional, ConstructQueryModel,
    ConstructQueryPatterns, PatternNodeModel, TriplePattern, TriplePatternModel, TriplePatternNode,
};
use crate::sparql_variable_generator::{base26, SparqlVariableGenerator};
use crate::term::Iri;

verus! {

/// The pattern `?subject <predicate> ?object` (variable names as given).
pub open spec fn property_pattern(
    subject_variable: Seq<char>,
    predicate: Seq<char>,
    object_variable: Seq<char>,
) -> TriplePatternModel {
    TriplePatternModel {
        subject: PatternNodeModel::Variable(subject_variable),
        predicate: PatternNodeModel::Named(predicate),
        object: PatternNodeModel::Variable(object_variable),
    }
}

/// The patterns `q` after adding `inner` as an optional part: the template
/// gets `inner`'s template appended, the WHERE pattern gets `inner`'s WHERE
/// pattern as an optional part.
pub open spec fn with_optional_patterns(
    q: ConstructQueryModel,
    inner: ConstructQueryModel,
) -> ConstructQueryModel {
    ConstructQueryModel {
        templates: q.templates + inner.templates,
        where_pattern: with_optional(q.where_pattern, inner.where_pattern),
    }
}

/// Adding patterns as an optional part keeps every template pattern matched
/// by the WHERE pattern, when it held of both parts.
pub proof fn lemma_optional_patterns_keep_templates_matched(
    q: ConstructQueryModel,
    inner: ConstructQueryModel,
)
    requires
        templates_matched(q),
        templates_matched(inner),
    ensures
        templates_matched(with_optional_patterns(q, inner)),
{
    let r = with_optional_patterns(q, inner);
    assert forall|i: int| 0 <= i < r.templates.len() implies #[trigger] pattern_contains(
        r.where_pattern,
        r.templates[i],
    ) by {
        lemma_with_optional_contains(q.where_pattern, inner.where_pattern, r.templates[i]);
        if i < q.templates.len() {
            assert(r.templates[i] == q.templates[i]);
        } else {
            assert(r.templates[i] == inner.templates[i - q.templates.len()]);
        }
    }
}

/// Whether the node is a constant, the variable `v`, or a variable that a
/// generator handed out while its count went from `lo` to `hi`.
pub open spec fn node_from(n: PatternNodeModel, v: Seq<char>, lo: nat, hi: nat) -> bool {
    match n {
        PatternNodeModel::Variable(x) => x == v || exists|k: nat| lo < k <= hi && x == #[trigger] base26(k),
        PatternNodeModel::Named(_) => true,
    }
}

/// Whether every node of the pattern is a constant, `v`, or a variable
/// handed out while the generator's count went from `lo` to `hi`.
pub open spec fn pattern_from(t: TriplePatternModel, v: Seq<char>, lo: nat, hi: nat) -> bool {
    node_from(t.subject, v, lo, hi) && node_from(t.predicate, v, lo, hi) && node_from(t.object, v, lo, hi)
}

/// Whether the template patterns that `after` has beyond those of `before`
/// use no variable but `v` and those handed out while the generator's
/// count went from `lo` to `hi`.
pub open spec fn new_templates_from(
    before: ConstructQueryModel,
    after: ConstructQueryModel,
    v: Seq<char>,
    lo: nat,
    hi: nat,
) -> bool {
    forall|i: int| before.templates.len() <= i < after.templates.len() ==> #[trigger] pattern_from(
        after.templates[i],
        v,
        lo,
        hi,
    )
}

/// A value that is fetched as the object of a property.
pub trait ConstructibleProperty {
    /// Whether the type states, by `patterns_after`, exactly what
    /// `insert_patterns` does. Every type of this crate does; a type that
    /// does not override this states nothing more than the clauses below.
    open spec fn obeys_patterns_spec() -> bool {
        false
    }

    /// The patterns, and the generator's count, after `insert_patterns` on
    /// the patterns `q` with a generator that has handed out `count` names.
    open spec fn patterns_after(
        q: ConstructQueryModel,
        subject_variable: Seq<char>,
        predicate: Seq<char>,
        count: nat,
    ) -> (ConstructQueryModel, nat) {
        (q, count)
    }

    /// Adds the patterns that match the property `predicate` of the subject
    /// bound to `subject_variable`. It keeps what was there, only takes new
    /// variables from the generator, and keeps every template pattern matched
    /// by the WHERE pattern.
    fn insert_patterns(
        construct_query_patterns: &mut ConstructQueryPatterns,
        variable_generator: &mut SparqlVariableGenerator,
        subject_variable: &str,
        predicate: &Iri,
    )
        requires
            old(variable_generator).count() < usize::MAX,
        ensures
            final(variable_generator).count() >= old(variable_generator).count(),
            final(construct_query_patterns)@.templates.len() >= old(
                construct_query_patterns,
            )@.templates.len(),
            final(construct_query_patterns)@.templates.take(
                old(construct_query_patterns)@.templates.len() as int,
            ) == old(construct_query_patterns)@.templates,
            templates_matched(old(construct_query_patterns)@) ==> templates_matched(
                final(construct_query_patterns)@,
            ),
            new_templates_from(
                old(construct_query_patterns)@,
                final(construct_query_patterns)@,
                subject_variable@,
                old(variable_generator).count(),
                final(variable_generator).count(),
            ),
            Self::obeys_patterns_spec() ==> (
                final(construct_query_patterns)@,
                final(variable_generator).count(),
            ) == Self::patterns_after(
                old(construct_query_patterns)@,
                subject_variable@,
                predicate@,
                old(variable_generator).count(),
            ),
    ;
}

/// A resource that is fetched with its properties.
pub trait Constructible {
    /// Whether the type states, by `patterns_after`, exactly what
    /// `insert_patterns` does; a type that does not override this states
    /// nothing more than the clauses below.
    open spec fn obeys_patterns_spec() -> bool {
        false
    }

    /// The patterns, and the generator's count, after `insert_patterns` on
    /// the patterns `q` with a generator that has handed out `count` names.
    open spec fn patterns_after(
        q: ConstructQueryModel,
        subject_variable: Seq<char>,
        count: nat,
    ) -> (ConstructQueryModel, nat) {
        (q, count)
    }

    /// Adds the patterns that match the resource bound to
    /// `subject_variable`: its `rdf:type` and its properties. It keeps what
    /// was there, only takes new variables from the generator, and keeps
    /// every template pattern matched by the WHERE pattern.
    fn insert_patterns(
        construct_query_patterns: &mut ConstructQueryPatterns,
        variable_generator: &mut SparqlVariableGenerator,
        subject_variable: &str,
    )
        requires
            old(variable_generator).count() < usize::MAX,
        ensures
            final(variable_generator).count() >= old(variable_generator).count(),
            final(construct_query_patterns)@.templates.len() >= old(
                construct_query_patterns,
            )@.templates.len(),
            final(construct_query_patterns)@.templates.take(
                old(construct_query_patterns)@.templates.len() as int,
            ) == old(construct_query_patterns)@.templates,
            templates_matched(old(construct_query_patterns)@) ==> templates_matched(
                final(construct_query_patterns)@,
            ),
            new_templates_from(
                old(construct_query_patterns)@,
                final(construct_query_patterns)@,
                subject_variable@,
                old(variable_generator).count(),
                final(variable_generator).count(),
            ),
            Self::obeys_patterns_spec() ==> (
                final(construct_query_patterns)@,
                final(variable_generator).count(),
            ) == Self::patterns_after(
                old(construct_query_patterns)@,
                subject_variable@,
                old(variable_generator).count(),
            ),
    ;
}

/// No template pattern and an empty WHERE group: what
/// `ConstructQueryPatterns::new` gives.
pub open spec fn empty_patterns() -> ConstructQueryModel {
    ConstructQueryModel { templates: Seq::empty(), where_pattern: GraphPatternModel::Triples(Seq::empty()) }
}

/// The patterns and count after adding `?subject <predicate> ?object` with
/// the next variable of a generator at `count`.
pub open spec fn property_patterns_after(
    q: ConstructQueryModel,
    subject_variable: Seq<char>,
    predicate: Seq<char>,
    count: nat,
) -> (ConstructQueryModel, nat) {
    (
        with_identical_triple_pattern(q, property_pattern(subject_variable, predicate, base26(count + 1))),
        count + 1,
    )
}

/// The patterns and count after adding `T`'s patterns, built on empty
/// patterns, as an optional part.
pub open spec fn optional_patterns_after<T: ConstructibleProperty>(
    q: ConstructQueryModel,
    subject_variable: Seq<char>,
    predicate: Seq<char>,
    count: nat,
) -> (ConstructQueryModel, nat) {
    let (inner, c) = T::patterns_after(empty_patterns(), subject_variable, predicate, count);
    (with_optional_patterns(q, inner), c)
}

/// A `Vec` property and an `Option` property get the same patterns: those
/// of their item type, as an optional part.
pub proof fn lemma_vec_and_option_patterns_agree<T: ConstructibleProperty>(
    q: ConstructQueryModel,
    subject_variable: Seq<char>,
    predicate: Seq<char>,
    count: nat,
)
    ensures
        <Vec<T> as ConstructibleProperty>::obeys_patterns_spec()
            == <Option<T> as ConstructibleProperty>::obeys_patterns_spec(),
        <Vec<T> as ConstructibleProperty>::patterns_after(q, subject_variable, predicate, count)
            == <Option<T> as ConstructibleProperty>::patterns_after(q, subject_variable, predicate, count),
{
}

/// Adds `?subject <predicate> ?object` to the template and to the WHERE
/// pattern, with a fresh variable as object.
pub fn insert_property_pattern(
    construct_query_patterns: &mut ConstructQueryPatterns,
    variable_generator: &mut SparqlVariableGenerator,
    subject_variable: &str,
    predicate: &Iri,
)
    requires
        old(variable_generator).count() < usize::MAX,
    ensures
        final(variable_generator).count() == old(variable_generator).count() + 1,
        final(construct_query_patterns)@ == with_identical_triple_pattern(
            old(construct_query_patterns)@,
            property_pattern(
                subject_variable@,
                predicate@,
                base26(final(variable_generator).count()),
            ),
        ),
        templates_matched(old(construct_query_patterns)@) ==> templates_matched(
            final(construct_query_patterns)@,
        ),
        new_templates_from(
            old(construct_query_patterns)@,
            final(construct_query_patterns)@,
            subject_variable@,
            old(variable_generator).count(),
            final(variable_generator).count(),
        ),
{
    let ghost lo = variable_generator.count();
    let object_variable = variable_generator.next_variable();
    let triple_pattern = TriplePattern::new(
        TriplePatternNode::Variable(subject_variable.to_owned()),
        TriplePatternNode::NamedNode(predicate.clone()),
        TriplePatternNode::Variable(object_variable),
    );
    let ghost before = construct_query_patterns@;
    construct_query_patterns.push_identical_triple_pattern(triple_pattern);
    proof {
        if templates_matched(before) {
            lemma_identical_push_keeps_templates_matched(before, triple_pattern@);
        }
        let hi = variable_generator.count();
        assert(lo < hi <= hi && object_variable@ == base26(hi));
        assert(pattern_from(triple_pattern@, subject_variable@, lo, hi));
    }
}

/// Adds the patterns of `T` for the property as an optional part, so that a
/// subject without the property still matches.
pub fn insert_optional_patterns<T: ConstructibleProperty>(
    construct_query_patterns: &mut ConstructQueryPatterns,
    variable_generator: &mut SparqlVariableGenerator,
    subject_variable: &str,
    predicate: &Iri,
)
    requires
        old(variable_generator).count() < usize::MAX,
    ensures
        final(variable_generator).count() >= old(variable_generator).count(),
        exists|inner: ConstructQueryModel|
            templates_matched(inner) && final(construct_query_patterns)@
                == with_optional_patterns(old(construct_query_patterns)@, inner),
        templates_matched(old(construct_query_patterns)@) ==> templates_matched(
            final(construct_query_patterns)@,
        ),
        new_templates_from(
            old(construct_query_patterns)@,
            final(construct_query_patterns)@,
            subject_variable@,
            old(variable_generator).count(),
            final(variable_generator).count(),
        ),
        T::obeys_patterns_spec() ==> (final(construct_query_patterns)@, final(variable_generator).count())
            == optional_patterns_after::<T>(
            old(construct_query_patterns)@,
            subject_variable@,
            predicate@,
            old(variable_generator).count(),
        ),
{
    let mut inner_patterns = ConstructQueryPatterns::new();
    assert(inner_patterns@ == empty_patterns());
    T::insert_patterns(&mut inner_patterns, variable_generator, subject_variable, predicate);
    let ghost inner = inner_patterns@;
    let ghost before = construct_query_patterns@;
    let ghost before_templates = construct_query_patterns.template_patterns@;
    let ghost inner_templates = inner_patterns.template_patterns@;
    construct_query_patterns.template_patterns.append(&mut inner_patterns.template_patterns);
    assert(construct_query_patterns.template_patterns@ == before_templates + inner_templates);
    construct_query_patterns.where_pattern.push_optional(inner_patterns.where_pattern);
    proof {
        assert(inner.templates.take(0) =~= Seq::<TriplePatternModel>::empty());
        assert(construct_query_patterns@.templates =~= before.templates + inner.templates);
        assert(construct_query_patterns@ == with_optional_patterns(before, inner));
        if templates_matched(before) {
            lemma_optional_patterns_keep_templates_matched(before, inner);
        }
        let n = before.templates.len();
        assert forall|i: int| n <= i < construct_query_patterns@.templates.len() implies #[trigger] pattern_from(
            construct_query_patterns@.templates[i],
            subject_variable@,
            old(variable_generator).count(),
            variable_generator.count(),
        ) by {
            assert(construct_query_patterns@.templates[i] == inner.templates[i - n]);
            assert(pattern_from(
                inner.templates[i - n],
                subject_variable@,
                old(variable_generator).count(),
                variable_generator.count(),
            ));
        }
    }
}

impl ConstructibleProperty for bool {
    open spec fn obeys_patterns_spec() -> bool {
        true
    }

    open spec fn patterns_after(
        q: ConstructQueryModel,
        subject_variable: Seq<char>,
        predicate: Seq<char>,
        count: nat,
    ) -> (ConstructQueryModel, nat) {
        property_patterns_after(q, subject_variable, predicate, count)
    }

    /// Adds `?subject <predicate> ?object` with a fresh object variable.
    fn insert_patterns(
        construct_query_patterns: &mut ConstructQueryPatterns,
        variable_generator: &mut SparqlVariableGenerator,
        subject_variable: &str,
        predicate: &Iri,
    )
        ensures
            final(variable_generator).count() == old(variable_generator).count() + 1,
            final(construct_query_patterns)@ == with_identical_triple_pattern(
                old(construct_query_patterns)@,
                property_pattern(
                    subject_variable@,
                    predicate@,
                    base26(final(variable_generator).count()),
                ),
            ),
    {
        let ghost before = construct_query_patterns@.templates;
        insert_property_pattern(construct_query_patterns, variable_generator, subject_variable, predicate);
        assert(construct_query_patterns@.templates.take(before.len() as int) =~= before);
    }
}

impl ConstructibleProperty for i8 {
    open spec fn obeys_patterns_spec() -> bool {
        true
    }

    open spec fn patterns_after(
        q: ConstructQueryModel,
        subject_variable: Seq<char>,
        predicate: Seq<char>,
        count: nat,
    ) -> (ConstructQueryModel, nat) {
        property_patterns_after(q, subject_variable, predicate, count)
    }

    /// Adds `?subject <predicate> ?object` with a fresh object variable.
    fn insert_patterns(
        construct_query_patterns: &mut ConstructQueryPatterns,
        variable_generator: &mut SparqlVariableGenerator,
        subject_variable: &str,
        predicate: &Iri,
    )
        ensures
            final(variable_generator).count() == old(variable_generator).count() + 1,
            final(construct_query_patterns)@ == with_identical_triple_pattern(
                old(construct_query_patterns)@,
                property_pattern(
                    subject_variable@,
                    predicate@,
                    base26(final(variable_generator).count()),
                ),
            ),
    {
        let ghost before = construct_query_patterns@.templates;
        insert_property_pattern(construct_query_patterns, variable_generator, subject_variable, predicate);
        assert(construct_query_patterns@.templates.take(before.len() as int) =~= before);
    }
}

impl ConstructibleProperty for i32 {
    open spec fn obeys_patterns_spec() -> bool {
        true
    }

    open spec fn patterns_after(
        q: ConstructQueryModel,
        subject_variable: Seq<char>,
        predicate: Seq<char>,
        count: nat,
    ) -> (ConstructQueryModel, nat) {
        property_patterns_after(q, subject_variable, predicate, count)
    }

    /// Adds `?subject <predicate> ?object` with a fresh object variable.
    fn insert_patterns(
        construct_query_patterns: &mut ConstructQueryPatterns,
        variable_generator: &mut SparqlVariableGenerator,
        subject_variable: &str,
        predicate: &Iri,
    )
        ensures
            final(variable_generator).count() == old(variable_generator).count() + 1,
            final(construct_query_patterns)@ == with_identical_triple_pattern(
                old(construct_query_patterns)@,
                property_pattern(
                    subject_variable@,
                    predicate@,
                    base26(final(variable_generator).count()),
                ),
            ),
    {
        let ghost before = construct_query_patterns@.templates;
        insert_property_pattern(construct_query_patterns, variable_generator, subject_variable, predicate);
        assert(construct_query_patterns@.templates.take(before.len() as int) =~= before);
    }
}

impl ConstructibleProperty for i64 {
    open spec fn obeys_patterns_spec() -> bool {
        true
    }

    open spec fn patterns_after(
        q: ConstructQueryModel,
        subject_variable: Seq<char>,
        predicate: Seq<char>,
        count: nat,
    ) -> (ConstructQueryModel, nat) {
        property_patterns_after(q, subject_variable, predicate, count)
    }

    /// Adds `?subject <predicate> ?object` with a fresh object variable.
    fn insert_patterns(
        construct_query_patterns: &mut ConstructQueryPatterns,
        variable_generator: &mut SparqlVariableGenerator,
        subject_variable: &str,
        predicate: &Iri,
    )
        ensures
            final(variable_generator).count() == old(variable_generator).count() + 1,
            final(construct_query_patterns)@ == with_identical_triple_pattern(
                old(construct_query_patterns)@,
                property_pattern(
                    subject_variable@,
                    predicate@,
                    base26(final(variable_generator).count()),
                ),
            ),
    {
        let ghost before = construct_query_patterns@.templates;
        insert_property_pattern(construct_query_patterns, variable_generator, subject_variable, predicate);
        assert(construct_query_patterns@.templates.take(before.len() as int) =~= before);
    }
}

impl ConstructibleProperty for u8 {
    open spec fn obeys_patterns_spec() -> bool {
        true
    }

    open spec fn patterns_after(
        q: ConstructQueryModel,
        subject_variable: Seq<char>,
        predicate: Seq<char>,
        count: nat,
    ) -> (ConstructQueryModel, nat) {
        property_patterns_after(q, subject_variable, predicate, count)
    }

    /// Adds `?subject <predicate> ?object` with a fresh object variable.
    fn insert_patterns(
        construct_query_patterns: &mut ConstructQueryPatterns,
        variable_generator: &mut SparqlVariableGenerator,
        subject_variable: &str,
        predicate: &Iri,
    )
        ensures
            final(variable_generator).count() == old(variable_generator).count() + 1,
            final(construct_query_patterns)@ == with_identical_triple_pattern(
                old(construct_query_patterns)@,
                property_pattern(
                    subject_variable@,
                    predicate@,
                    base26(final(variable_generator).count()),
                ),
            ),
    {
        let ghost before = construct_query_patterns@.templates;
        insert_property_pattern(construct_query_patterns, variable_generator, subject_variable, predicate);
        assert(construct_query_patterns@.templates.take(before.len() as int) =~= before);
    }
}

impl ConstructibleProperty for u32 {
    open spec fn obeys_patterns_spec() -> bool {
        true
    }

    open spec fn patterns_after(
        q: ConstructQueryModel,
        subject_variable: Seq<char>,
        predicate: Seq<char>,
        count: nat,
    ) -> (ConstructQueryModel, nat) {
        property_patterns_after(q, subject_variable, predicate, count)
    }

    /// Adds `?subject <predicate> ?object` with a fresh object variable.
    fn insert_patterns(
        construct_query_patterns: &mut ConstructQueryPatterns,
        variable_generator: &mut SparqlVariableGenerator,
        subject_variable: &str,
        predicate: &Iri,
    )
        ensures
            final(variable_generator).count() == old(variable_generator).count() + 1,
            final(construct_query_patterns)@ == with_identical_triple_pattern(
                old(construct_query_patterns)@,
                property_pattern(
                    subject_variable@,
                    predicate@,
                    base26(final(variable_generator).count()),
                ),
            ),
    {
        let ghost before = construct_query_patterns@.templates;
        insert_property_pattern(construct_query_patterns, variable_generator, subject_variable, predicate);
        assert(construct_query_patterns@.templates.take(before.len() as int) =~= before);
    }
}

impl ConstructibleProperty for u64 {
    open spec fn obeys_patterns_spec() -> bool {
        true
    }

    open spec fn patterns_after(
        q: ConstructQueryModel,
        subject_variable: Seq<char>,
        predicate: Seq<char>,
        count: nat,
    ) -> (ConstructQueryModel, nat) {
        property_patterns_after(q, subject_variable, predicate, count)
    }

    /// Adds `?subject <predicate> ?object` with a fresh object variable.
    fn insert_patterns(
        construct_query_patterns: &mut ConstructQueryPatterns,
        variable_generator: &mut SparqlVariableGenerator,
        subject_variable: &str,
        predicate: &Iri,
    )
        ensures
            final(variable_generator).count() == old(variable_generator).count() + 1,
            final(construct_query_patterns)@ == with_identical_triple_pattern(
                old(construct_query_patterns)@,
                property_pattern(
                    subject_variable@,
                    predicate@,
                    base26(final(variable_generator).count()),
                ),
            ),
    {
        let ghost before = construct_query_patterns@.templates;
        insert_property_pattern(construct_query_patterns, variable_generator, subject_variable, predicate);
        assert(construct_query_patterns@.templates.take(before.len() as int) =~= before);
    }
}

impl ConstructibleProperty for String {
    open spec fn obeys_patterns_spec() -> bool {
        true
    }

    open spec fn patterns_after(
        q: ConstructQueryModel,
        subject_variable: Seq<char>,
        predicate: Seq<char>,
        count: nat,
    ) -> (ConstructQueryModel, nat) {
        property_patterns_after(q, subject_variable, predicate, count)
    }

    /// Adds `?subject <predicate> ?object` with a fresh object variable.
    fn insert_patterns(
        construct_query_patterns: &mut ConstructQueryPatterns,
        variable_generator: &mut SparqlVariableGenerator,
        subject_variable: &str,
        predicate: &Iri,
    )
        ensures
            final(variable_generator).count() == old(variable_generator).count() + 1,
            final(construct_query_patterns)@ == with_identical_triple_pattern(
                old(construct_query_patterns)@,
                property_pattern(
                    subject_variable@,
                    predicate@,
                    base26(final(variable_generator).count()),
                ),
            ),
    {
        let ghost before = construct_query_patterns@.templates;
        insert_property_pattern(construct_query_patterns, variable_generator, subject_variable, predicate);
        assert(construct_query_patterns@.templates.take(before.len() as int) =~= before);
    }
}

impl<T: ConstructibleProperty> ConstructibleProperty for Option<T> {
    open spec fn obeys_patterns_spec() -> bool {
        T::obeys_patterns_spec()
    }

    open spec fn patterns_after(
        q: ConstructQueryModel,
        subject_variable: Seq<char>,
        predicate: Seq<char>,
        count: nat,
    ) -> (ConstructQueryModel, nat) {
        optional_patterns_after::<T>(q, subject_variable, predicate, count)
    }

    /// Adds the patterns of `T` as an optional part.
    fn insert_patterns(
        construct_query_patterns: &mut ConstructQueryPatterns,
        variable_generator: &mut SparqlVariableGenerator,
        subject_variable: &str,
        predicate: &Iri,
    )
        ensures
            exists|inner: ConstructQueryModel|
                templates_matched(inner) && final(construct_query_patterns)@
                    == with_optional_patterns(old(construct_query_patterns)@, inner),
    {
        let ghost before = construct_query_patterns@.templates;
        insert_optional_patterns::<T>(construct_query_patterns, variable_generator, subject_variable, predicate);
        assert(construct_query_patterns@.templates.take(before.len() as int) =~= before);
    }
}

impl<T: ConstructibleProperty> ConstructibleProperty for Vec<T> {
    open spec fn obeys_patterns_spec() -> bool {
        T::obeys_patterns_spec()
    }

    open spec fn patterns_after(
        q: ConstructQueryModel,
        subject_variable: Seq<char>,
        predicate: Seq<char>,
        count: nat,
    ) -> (ConstructQueryModel, nat) {
        optional_patterns_after::<T>(q, subject_variable, predicate, count)
    }

    /// Adds the patterns of `T` as an optional part.
    fn insert_patterns(
        construct_query_patterns: &mut ConstructQueryPatterns,
        variable_generator: &mut SparqlVariableGenerator,
        subject_variable: &str,
        predicate: &Iri,
    )
        ensures
            exists|inner: ConstructQueryModel|
                templates_matched(inner) && final(construct_query_patterns)@
                    == with_optional_patterns(old(construct_query_patterns)@, inner),
    {
        let ghost before = construct_query_patterns@.templates;
        insert_optional_patterns::<T>(construct_query_patterns, variable_generator, subject_variable, predicate);
        assert(construct_query_patterns@.templates.take(before.len() as int) =~= before);
    }
}

} // verus!

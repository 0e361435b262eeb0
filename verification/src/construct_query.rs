//! SPARQL graph patterns for CONSTRUCT queries: triple patterns over
//! variables and IRIs, groups of them, and `OPTIONAL` blocks.

use vstd::prelude::*;

use crate::term::{iri_text, Iri};
use crate::text::{push_char, push_str};

verus! {

/// Model of a node of a triple pattern.
pub enum PatternNodeModel {
    Variable(Seq<char>),
    Named(Seq<char>),
}

/// Model of a triple pattern.
pub struct TriplePatternModel {
    pub subject: PatternNodeModel,
    pub predicate: PatternNodeModel,
    pub object: PatternNodeModel,
}

/// Model of a graph pattern: a group of triple patterns, or an `OPTIONAL`
/// block holding graph patterns.
pub enum GraphPatternModel {
    Triples(Seq<TriplePatternModel>),
    Optional(Seq<GraphPatternModel>),
}

/// `?name` for a variable, `<iri>` for a named node.
pub open spec fn node_text(n: PatternNodeModel) -> Seq<char> {
    match n {
        PatternNodeModel::Variable(v) => seq!['?'] + v,
        PatternNodeModel::Named(i) => iri_text(i),
    }
}

/// `s p o .`
pub open spec fn triple_pattern_text(t: TriplePatternModel) -> Seq<char> {
    node_text(t.subject) + seq![' '] + node_text(t.predicate) + seq![' '] + node_text(t.object)
        + seq![' ', '.']
}

/// Each triple pattern followed by a space.
pub open spec fn triples_text(ts: Seq<TriplePatternModel>) -> Seq<char>
    decreases ts.len(),
{
    if ts.len() == 0 {
        Seq::empty()
    } else {
        triples_text(ts.drop_last()) + triple_pattern_text(ts.last()) + seq![' ']
    }
}

/// `OPTIONAL { `
pub open spec fn optional_open_text() -> Seq<char> {
    seq!['O', 'P', 'T', 'I', 'O', 'N', 'A', 'L', ' ', '{', ' ']
}

/// The SPARQL text of a graph pattern.
pub open spec fn graph_pattern_text(g: GraphPatternModel) -> Seq<char>
    decreases g,
{
    match g {
        GraphPatternModel::Triples(ts) => triples_text(ts),
        GraphPatternModel::Optional(ps) => optional_open_text() + graph_patterns_text(ps) + seq![
            '}',
            ' ',
        ],
    }
}

/// Each graph pattern's text followed by a space.
pub open spec fn graph_patterns_text(ps: Seq<GraphPatternModel>) -> Seq<char>
    decreases ps,
{
    if ps.len() == 0 {
        Seq::empty()
    } else {
        graph_patterns_text(ps.drop_last()) + graph_pattern_text(ps.last()) + seq![' ']
    }
}

/// `ps` with `t` added to its first group of triple patterns, or with a new
/// group holding only `t` appended when it has none.
pub open spec fn push_into_first_group(ps: Seq<GraphPatternModel>, t: TriplePatternModel) -> Seq<
    GraphPatternModel,
>
    decreases ps.len(),
{
    if ps.len() == 0 {
        seq![GraphPatternModel::Triples(seq![t])]
    } else {
        match ps[0] {
            GraphPatternModel::Triples(ts) => ps.update(0, GraphPatternModel::Triples(ts.push(t))),
            GraphPatternModel::Optional(_) => seq![ps[0]] + push_into_first_group(
                ps.drop_first(),
                t,
            ),
        }
    }
}

/// `g` with the triple pattern `t` added: appended to a group, or, in an
/// `OPTIONAL` block, to the block's first group.
pub open spec fn with_triple_pattern(g: GraphPatternModel, t: TriplePatternModel) -> GraphPatternModel {
    match g {
        GraphPatternModel::Triples(ts) => GraphPatternModel::Triples(ts.push(t)),
        GraphPatternModel::Optional(ps) => GraphPatternModel::Optional(push_into_first_group(ps, t)),
    }
}

/// `g` with the graph pattern `p` added: a group becomes an `OPTIONAL` block
/// holding the group and then `p`; a block gets `p` appended.
pub open spec fn with_optional(g: GraphPatternModel, p: GraphPatternModel) -> GraphPatternModel {
    match g {
        GraphPatternModel::Triples(_) => GraphPatternModel::Optional(seq![g, p]),
        GraphPatternModel::Optional(ps) => GraphPatternModel::Optional(ps.push(p)),
    }
}

/// Whether the triple pattern `t` occurs anywhere in `g`.
pub open spec fn pattern_contains(g: GraphPatternModel, t: TriplePatternModel) -> bool
    decreases g,
{
    match g {
        GraphPatternModel::Triples(ts) => ts.contains(t),
        GraphPatternModel::Optional(ps) => patterns_contain(ps, t),
    }
}

/// Whether the triple pattern `t` occurs anywhere in one of `ps`.
pub open spec fn patterns_contain(ps: Seq<GraphPatternModel>, t: TriplePatternModel) -> bool
    decreases ps,
{
    if ps.len() == 0 {
        false
    } else {
        pattern_contains(ps[0], t) || patterns_contain(ps.drop_first(), t)
    }
}

proof fn lemma_push_into_group_at(ps: Seq<GraphPatternModel>, t: TriplePatternModel, i: int)
    requires
        0 <= i < ps.len(),
        ps[i] is Triples,
        forall|j: int| 0 <= j < i ==> #[trigger] ps[j] is Optional,
    ensures
        push_into_first_group(ps, t) == ps.update(i, GraphPatternModel::Triples(ps[i]->Triples_0.push(t))),
    decreases i,
{
    if i > 0 {
        lemma_push_into_group_at(ps.drop_first(), t, i - 1);
        assert(push_into_first_group(ps, t) =~= ps.update(
            i,
            GraphPatternModel::Triples(ps[i]->Triples_0.push(t)),
        ));
    }
}

proof fn lemma_push_into_no_group(ps: Seq<GraphPatternModel>, t: TriplePatternModel)
    requires
        forall|j: int| 0 <= j < ps.len() ==> #[trigger] ps[j] is Optional,
    ensures
        push_into_first_group(ps, t) == ps.push(GraphPatternModel::Triples(seq![t])),
    decreases ps.len(),
{
    if ps.len() > 0 {
        lemma_push_into_no_group(ps.drop_first(), t);
        assert(push_into_first_group(ps, t) =~= ps.push(GraphPatternModel::Triples(seq![t])));
    }
}

proof fn lemma_groups_contain_after_push(
    ps: Seq<GraphPatternModel>,
    t: TriplePatternModel,
    u: TriplePatternModel,
)
    ensures
        patterns_contain(push_into_first_group(ps, t), u) <==> (patterns_contain(ps, u) || u == t),
    decreases ps.len(),
{
    let r = push_into_first_group(ps, t);
    if ps.len() == 0 {
        assert(r[0] == GraphPatternModel::Triples(seq![t]));
        assert(r.drop_first() =~= Seq::<GraphPatternModel>::empty());
        assert(!patterns_contain(r.drop_first(), u));
        assert(pattern_contains(r[0], u) == seq![t].contains(u));
        assert(!patterns_contain(ps, u));
        assert(seq![t].contains(u) <==> u == t) by {
            if u == t {
                assert(seq![t][0] == t);
            }
        }
    } else {
        match ps[0] {
            GraphPatternModel::Triples(ts) => {
                assert(r.drop_first() =~= ps.drop_first());
                assert(r[0] == GraphPatternModel::Triples(ts.push(t)));
                assert(pattern_contains(r[0], u) == ts.push(t).contains(u));
                assert(pattern_contains(ps[0], u) == ts.contains(u));
                assert(ts.push(t).contains(u) <==> (ts.contains(u) || u == t)) by {
                    if u == t {
                        assert(ts.push(t)[ts.len() as int] == t);
                    }
                    if ts.contains(u) {
                        let k = choose|k: int| 0 <= k < ts.len() && ts[k] == u;
                        assert(ts.push(t)[k] == u);
                    }
                }
            },
            GraphPatternModel::Optional(_) => {
                lemma_groups_contain_after_push(ps.drop_first(), t, u);
                assert(r.drop_first() =~= push_into_first_group(ps.drop_first(), t));
                assert(r[0] == ps[0]);
            },
        }
    }
}

proof fn lemma_patterns_contain_after_append(
    ps: Seq<GraphPatternModel>,
    p: GraphPatternModel,
    u: TriplePatternModel,
)
    ensures
        patterns_contain(ps.push(p), u) <==> (patterns_contain(ps, u) || pattern_contains(p, u)),
    decreases ps.len(),
{
    if ps.len() == 0 {
        assert(ps.push(p).drop_first() =~= Seq::<GraphPatternModel>::empty());
        assert(!patterns_contain(ps.push(p).drop_first(), u));
        assert(ps.push(p)[0] == p);
    } else {
        lemma_patterns_contain_after_append(ps.drop_first(), p, u);
        assert(ps.push(p).drop_first() =~= ps.drop_first().push(p));
        assert(ps.push(p)[0] == ps[0]);
    }
}

/// Adding a triple pattern to a graph pattern loses none of the triple
/// patterns it held, and the added one occurs in the result.
pub proof fn lemma_with_triple_pattern_contains(
    g: GraphPatternModel,
    t: TriplePatternModel,
    u: TriplePatternModel,
)
    ensures
        pattern_contains(with_triple_pattern(g, t), u) <==> (pattern_contains(g, u) || u == t),
{
    match g {
        GraphPatternModel::Triples(ts) => {
            assert(ts.push(t).contains(u) <==> (ts.contains(u) || u == t)) by {
                if u == t {
                    assert(ts.push(t)[ts.len() as int] == t);
                }
                if ts.contains(u) {
                    let k = choose|k: int| 0 <= k < ts.len() && ts[k] == u;
                    assert(ts.push(t)[k] == u);
                }
            }
        },
        GraphPatternModel::Optional(ps) => {
            lemma_groups_contain_after_push(ps, t, u);
        },
    }
}

/// Adding an optional pattern keeps every triple pattern of both parts, and
/// brings in no other.
pub proof fn lemma_with_optional_contains(
    g: GraphPatternModel,
    p: GraphPatternModel,
    u: TriplePatternModel,
)
    ensures
        pattern_contains(with_optional(g, p), u) <==> (pattern_contains(g, u) || pattern_contains(
            p,
            u,
        )),
{
    match g {
        GraphPatternModel::Triples(_) => {
            let ps = seq![g, p];
            assert(ps.drop_first() =~= seq![p]);
            assert(seq![p].drop_first() =~= Seq::<GraphPatternModel>::empty());
            assert(!patterns_contain(seq![p].drop_first(), u));
            assert(patterns_contain(seq![p], u) == pattern_contains(p, u));
            assert(patterns_contain(ps, u) == (pattern_contains(g, u) || pattern_contains(p, u)));
        },
        GraphPatternModel::Optional(ps) => {
            lemma_patterns_contain_after_append(ps, p, u);
        },
    }
}

/// A node of a triple pattern: a variable or a named node.
#[derive(Debug)]
pub enum TriplePatternNode {
    Variable(String),
    NamedNode(Iri),
}

impl View for TriplePatternNode {
    type V = PatternNodeModel;

    open spec fn view(&self) -> PatternNodeModel {
        match self {
            TriplePatternNode::Variable(v) => PatternNodeModel::Variable(v@),
            TriplePatternNode::NamedNode(n) => PatternNodeModel::Named(n@),
        }
    }
}

impl Clone for TriplePatternNode {
    fn clone(&self) -> (r: Self)
        ensures
            r == *self,
    {
        match self {
            TriplePatternNode::Variable(v) => TriplePatternNode::Variable(v.clone()),
            TriplePatternNode::NamedNode(n) => TriplePatternNode::NamedNode(n.clone()),
        }
    }
}

impl TriplePatternNode {
    /// `?name` for a variable, `<iri>` for a named node.
    pub fn to_string(&self) -> (s: String)
        ensures
            s@ == node_text(self@),
    {
        match self {
            TriplePatternNode::Variable(v) => {
                let mut s = String::new();
                push_char(&mut s, '?');
                push_str(&mut s, v.as_str());
                assert(s@ =~= node_text(self@));
                s
            },
            TriplePatternNode::NamedNode(n) => n.to_string(),
        }
    }
}

/// A triple pattern `subject predicate object`.
#[derive(Debug)]
pub struct TriplePattern {
    subject: TriplePatternNode,
    predicate: TriplePatternNode,
    object: TriplePatternNode,
}

impl View for TriplePattern {
    type V = TriplePatternModel;

    open spec fn view(&self) -> TriplePatternModel {
        TriplePatternModel {
            subject: self.spec_subject()@,
            predicate: self.spec_predicate()@,
            object: self.spec_object()@,
        }
    }
}

impl Clone for TriplePattern {
    fn clone(&self) -> (r: Self)
        ensures
            r == *self,
    {
        TriplePattern {
            subject: self.subject.clone(),
            predicate: self.predicate.clone(),
            object: self.object.clone(),
        }
    }
}

impl TriplePattern {
    /// The subject node.
    pub closed spec fn spec_subject(&self) -> TriplePatternNode {
        self.subject
    }

    /// The predicate node.
    pub closed spec fn spec_predicate(&self) -> TriplePatternNode {
        self.predicate
    }

    /// The object node.
    pub closed spec fn spec_object(&self) -> TriplePatternNode {
        self.object
    }

    /// The pattern `subject predicate object`.
    pub fn new(
        subject: TriplePatternNode,
        predicate: TriplePatternNode,
        object: TriplePatternNode,
    ) -> (t: Self)
        ensures
            t.spec_subject() == subject,
            t.spec_predicate() == predicate,
            t.spec_object() == object,
            t@ == (TriplePatternModel { subject: subject@, predicate: predicate@, object: object@ }),
    {
        TriplePattern { subject, predicate, object }
    }

    /// The subject node.
    pub fn subject(&self) -> (n: &TriplePatternNode)
        ensures
            *n == self.spec_subject(),
    {
        &self.subject
    }

    /// The predicate node.
    pub fn predicate(&self) -> (n: &TriplePatternNode)
        ensures
            *n == self.spec_predicate(),
    {
        &self.predicate
    }

    /// The object node.
    pub fn object(&self) -> (n: &TriplePatternNode)
        ensures
            *n == self.spec_object(),
    {
        &self.object
    }

    /// `subject predicate object .`
    pub fn to_string(&self) -> (s: String)
        ensures
            s@ == triple_pattern_text(self@),
    {
        let mut s = self.subject.to_string();
        push_char(&mut s, ' ');
        let p = self.predicate.to_string();
        push_str(&mut s, p.as_str());
        push_char(&mut s, ' ');
        let o = self.object.to_string();
        push_str(&mut s, o.as_str());
        push_char(&mut s, ' ');
        push_char(&mut s, '.');
        assert(s@ =~= triple_pattern_text(self@));
        s
    }
}

/// A graph pattern: a group of triple patterns, or an `OPTIONAL` block
/// holding graph patterns.
#[derive(Debug)]
pub enum GraphPattern {
    Triples(Vec<TriplePattern>),
    Optional(Vec<GraphPattern>),
}

/// The models of a sequence of triple patterns.
pub open spec fn triple_pattern_models(ts: Seq<TriplePattern>) -> Seq<TriplePatternModel> {
    ts.map_values(|t: TriplePattern| t@)
}

/// The model of a graph pattern.
pub open spec fn graph_pattern_model(g: GraphPattern) -> GraphPatternModel
    decreases g,
{
    match g {
        GraphPattern::Triples(ts) => GraphPatternModel::Triples(triple_pattern_models(ts@)),
        GraphPattern::Optional(ps) => GraphPatternModel::Optional(graph_pattern_models(ps@)),
    }
}

/// The models of a sequence of graph patterns.
pub open spec fn graph_pattern_models(ps: Seq<GraphPattern>) -> Seq<GraphPatternModel>
    decreases ps,
{
    if ps.len() == 0 {
        Seq::empty()
    } else {
        graph_pattern_models(ps.drop_last()).push(graph_pattern_model(ps.last()))
    }
}

/// The models of a sequence of graph patterns are taken element by element.
pub proof fn lemma_graph_pattern_models(ps: Seq<GraphPattern>)
    ensures
        graph_pattern_models(ps).len() == ps.len(),
        forall|i: int|
            0 <= i < ps.len() ==> #[trigger] graph_pattern_models(ps)[i] == graph_pattern_model(
                ps[i],
            ),
    decreases ps.len(),
{
    if ps.len() > 0 {
        lemma_graph_pattern_models(ps.drop_last());
    }
}

impl View for GraphPattern {
    type V = GraphPatternModel;

    open spec fn view(&self) -> GraphPatternModel {
        graph_pattern_model(*self)
    }
}

/// Appends the text of each triple pattern, followed by a space.
fn push_triples_text(s: &mut String, ts: &Vec<TriplePattern>)
    ensures
        final(s)@ == old(s)@ + triples_text(triple_pattern_models(ts@)),
{
    let ghost start = s@;
    let mut i: usize = 0;
    while i < ts.len()
        invariant
            i <= ts.len(),
            s@ == start + triples_text(triple_pattern_models(ts@.take(i as int))),
        decreases ts.len() - i,
    {
        let t = ts[i].to_string();
        push_str(s, t.as_str());
        push_char(s, ' ');
        proof {
            let done = triple_pattern_models(ts@.take(i + 1));
            assert(done.drop_last() =~= triple_pattern_models(ts@.take(i as int)));
            assert(done.last() == ts@[i as int]@);
        }
        i = i + 1;
    }
    assert(ts@.take(ts.len() as int) =~= ts@);
}

impl GraphPattern {
    /// The SPARQL text: each triple pattern followed by a space; an
    /// `OPTIONAL` block as `OPTIONAL { `, each inner pattern followed by a
    /// space, then `} `.
    pub fn to_string(&self) -> (s: String)
        ensures
            s@ == graph_pattern_text(self@),
        decreases self,
    {
        let mut s = String::new();
        match self {
            GraphPattern::Triples(ts) => {
                push_triples_text(&mut s, ts);
            },
            GraphPattern::Optional(ps) => {
                push_str(&mut s, "OPTIONAL { ");
                proof {
                    reveal_strlit("OPTIONAL { ");
                    lemma_graph_pattern_models(ps@);
                }
                let ghost start = s@;
                assert(start =~= optional_open_text());
                let mut i: usize = 0;
                while i < ps.len()
                    invariant
                        *self == GraphPattern::Optional(*ps),
                        i <= ps.len(),
                        graph_pattern_models(ps@).len() == ps@.len(),
                        forall|j: int|
                            0 <= j < ps.len() ==> #[trigger] graph_pattern_models(ps@)[j]
                                == graph_pattern_model(ps@[j]),
                        s@ == start + graph_patterns_text(graph_pattern_models(ps@).take(i as int)),
                    decreases ps.len() - i,
                {
                    proof {
                        assert(decreases_to!(*self => (*self)->Optional_0));
                        assert(decreases_to!(*self => *ps));
                        assert(decreases_to!(*ps => ps@));
                        assert(decreases_to!(ps@ => ps@[i as int]));
                    }
                    let inner = ps[i].to_string();
                    push_str(&mut s, inner.as_str());
                    push_char(&mut s, ' ');
                    proof {
                        let done = graph_pattern_models(ps@).take(i + 1);
                        assert(done.drop_last() =~= graph_pattern_models(ps@).take(i as int));
                        assert(done.last() == graph_pattern_models(ps@)[i as int]);
                    }
                    i = i + 1;
                }
                assert(graph_pattern_models(ps@).take(ps.len() as int) =~= graph_pattern_models(
                    ps@,
                ));
                push_char(&mut s, '}');
                push_char(&mut s, ' ');
            },
        }
        s
    }
}

/// The index of the first group of triple patterns among `ps`, if any.
fn first_group_index(ps: &Vec<GraphPattern>) -> (r: Option<usize>)
    ensures
        match r {
            Some(i) => {
                &&& i < ps.len()
                &&& ps@[i as int] is Triples
                &&& forall|j: int| 0 <= j < i ==> #[trigger] ps@[j] is Optional
            },
            None => forall|j: int| 0 <= j < ps.len() ==> #[trigger] ps@[j] is Optional,
        },
{
    let mut i: usize = 0;
    while i < ps.len()
        invariant
            i <= ps.len(),
            forall|j: int| 0 <= j < i ==> #[trigger] ps@[j] is Optional,
        decreases ps.len() - i,
    {
        match &ps[i] {
            GraphPattern::Triples(_) => {
                return Some(i);
            },
            GraphPattern::Optional(_) => {},
        }
        i = i + 1;
    }
    None
}

/// A copy of a sequence of triple patterns.
fn clone_triple_patterns(ts: &Vec<TriplePattern>) -> (r: Vec<TriplePattern>)
    ensures
        r@ == ts@,
{
    let mut r: Vec<TriplePattern> = Vec::new();
    let mut i: usize = 0;
    while i < ts.len()
        invariant
            i <= ts.len(),
            r@ == ts@.take(i as int),
        decreases ts.len() - i,
    {
        r.push(ts[i].clone());
        assert(ts@.take(i + 1) =~= ts@.take(i as int).push(ts@[i as int]));
        i = i + 1;
    }
    assert(ts@.take(ts.len() as int) =~= ts@);
    r
}

impl GraphPattern {
    /// Adds a triple pattern: to the group itself, or, for an `OPTIONAL`
    /// block, to the block's first group of triple patterns, appending a new
    /// group holding only `triple_pattern` when the block has none.
    pub fn push_triple_pattern(&mut self, triple_pattern: TriplePattern)
        ensures
            final(self)@ == with_triple_pattern(old(self)@, triple_pattern@),
    {
        let ghost t = triple_pattern@;
        let mut current = GraphPattern::Triples(Vec::new());
        std::mem::swap(self, &mut current);
        match current {
            GraphPattern::Triples(mut ts) => {
                let ghost before = ts@;
                ts.push(triple_pattern);
                assert(triple_pattern_models(ts@) =~= triple_pattern_models(before).push(t));
                *self = GraphPattern::Triples(ts);
            },
            GraphPattern::Optional(mut ps) => {
                let ghost before = ps@;
                proof {
                    lemma_graph_pattern_models(before);
                }
                match first_group_index(&ps) {
                    Some(i) => {
                        let mut group = ps.remove(i);
                        let ghost old_group = group;
                        match group {
                            GraphPattern::Triples(mut ts) => {
                                let ghost old_ts = ts@;
                                ts.push(triple_pattern);
                                assert(triple_pattern_models(ts@) =~= triple_pattern_models(
                                    old_ts,
                                ).push(t));
                                ps.insert(i, GraphPattern::Triples(ts));
                            },
                            GraphPattern::Optional(qs) => {
                                ps.insert(i, GraphPattern::Optional(qs));
                            },
                        }
                        proof {
                            let ms = graph_pattern_models(before);
                            lemma_graph_pattern_models(ps@);
                            assert(ps@ =~= before.update(i as int, ps@[i as int]));
                            assert forall|j: int| 0 <= j < i implies #[trigger] ms[j] is Optional by {
                                assert(before[j] is Optional);
                            }
                            lemma_push_into_group_at(ms, t, i as int);
                            assert(graph_pattern_models(ps@) =~= ms.update(
                                i as int,
                                GraphPatternModel::Triples(ms[i as int]->Triples_0.push(t)),
                            ));
                        }
                        *self = GraphPattern::Optional(ps);
                    },
                    None => {
                        let mut ts: Vec<TriplePattern> = Vec::new();
                        ts.push(triple_pattern);
                        ps.push(GraphPattern::Triples(ts));
                        proof {
                            let ms = graph_pattern_models(before);
                            lemma_graph_pattern_models(ps@);
                            assert forall|j: int| 0 <= j < ms.len() implies #[trigger] ms[j] is Optional by {
                                assert(before[j] is Optional);
                            }
                            lemma_push_into_no_group(ms, t);
                            assert(graph_pattern_model(ps@.last()) == GraphPatternModel::Triples(seq![t])) by {
                                assert(triple_pattern_models(ps@.last()->Triples_0@) =~= seq![t]);
                            }
                            assert(graph_pattern_models(ps@) =~= ms.push(
                                GraphPatternModel::Triples(seq![t]),
                            ));
                        }
                        *self = GraphPattern::Optional(ps);
                    },
                }
            },
        }
    }

    /// Adds `pattern` as an optional part: a group of triple patterns becomes
    /// an `OPTIONAL` block holding the group and then `pattern`; a block gets
    /// `pattern` appended.
    pub fn push_optional(&mut self, pattern: GraphPattern)
        ensures
            final(self)@ == with_optional(old(self)@, pattern@),
    {
        let mut current = GraphPattern::Triples(Vec::new());
        std::mem::swap(self, &mut current);
        match current {
            GraphPattern::Triples(ts) => {
                let ghost g = GraphPattern::Triples(ts);
                let mut ps: Vec<GraphPattern> = Vec::new();
                ps.push(GraphPattern::Triples(ts));
                ps.push(pattern);
                proof {
                    lemma_graph_pattern_models(ps@);
                    assert(graph_pattern_models(ps@) =~= seq![g@, pattern@]);
                }
                *self = GraphPattern::Optional(ps);
            },
            GraphPattern::Optional(mut ps) => {
                let ghost before = ps@;
                ps.push(pattern);
                proof {
                    lemma_graph_pattern_models(before);
                    lemma_graph_pattern_models(ps@);
                    assert(graph_pattern_models(ps@) =~= graph_pattern_models(before).push(
                        pattern@,
                    ));
                }
                *self = GraphPattern::Optional(ps);
            },
        }
    }
}

impl Default for GraphPattern {
    /// An empty group of triple patterns.
    fn default() -> (g: Self)
        ensures
            g@ == GraphPatternModel::Triples(Seq::empty()),
    {
        let g = GraphPattern::Triples(Vec::new());
        assert(triple_pattern_models(Seq::<TriplePattern>::empty()) =~= Seq::empty());
        g
    }
}

impl Clone for GraphPattern {
    fn clone(&self) -> (r: Self)
        ensures
            r@ == self@,
        decreases self,
    {
        match self {
            GraphPattern::Triples(ts) => GraphPattern::Triples(clone_triple_patterns(ts)),
            GraphPattern::Optional(ps) => {
                proof {
                    lemma_graph_pattern_models(ps@);
                }
                let mut r: Vec<GraphPattern> = Vec::new();
                let mut i: usize = 0;
                while i < ps.len()
                    invariant
                        *self == GraphPattern::Optional(*ps),
                        i <= ps.len(),
                        r.len() == i,
                        forall|j: int| 0 <= j < i ==> #[trigger] r@[j]@ == ps@[j]@,
                    decreases ps.len() - i,
                {
                    proof {
                        assert(decreases_to!(*self => (*self)->Optional_0));
                        assert(decreases_to!(*self => *ps));
                        assert(decreases_to!(*ps => ps@));
                        assert(decreases_to!(ps@ => ps@[i as int]));
                    }
                    r.push(ps[i].clone());
                    i = i + 1;
                }
                proof {
                    lemma_graph_pattern_models(r@);
                    lemma_graph_pattern_models(ps@);
                    assert forall|j: int| 0 <= j < ps.len() implies graph_pattern_models(r@)[j]
                        == graph_pattern_models(ps@)[j] by {
                        assert(r@[j]@ == ps@[j]@);
                    }
                    assert(graph_pattern_models(r@) =~= graph_pattern_models(ps@));
                }
                GraphPattern::Optional(r)
            },
        }
    }
}

/// Model of the patterns of a CONSTRUCT query: its template and its WHERE
/// pattern.
pub struct ConstructQueryModel {
    pub templates: Seq<TriplePatternModel>,
    pub where_pattern: GraphPatternModel,
}

/// Every triple pattern of the template occurs in the WHERE pattern.
pub open spec fn templates_matched(q: ConstructQueryModel) -> bool {
    forall|i: int|
        0 <= i < q.templates.len() ==> #[trigger] pattern_contains(
            q.where_pattern,
            q.templates[i],
        )
}

/// The patterns after `push_identical_triple_pattern(t)`.
pub open spec fn with_identical_triple_pattern(
    q: ConstructQueryModel,
    t: TriplePatternModel,
) -> ConstructQueryModel {
    ConstructQueryModel {
        templates: q.templates.push(t),
        where_pattern: with_triple_pattern(q.where_pattern, t),
    }
}

/// Pushing the same triple pattern to the template and to the WHERE pattern
/// keeps every template pattern matched by the WHERE pattern.
pub proof fn lemma_identical_push_keeps_templates_matched(
    q: ConstructQueryModel,
    t: TriplePatternModel,
)
    requires
        templates_matched(q),
    ensures
        templates_matched(with_identical_triple_pattern(q, t)),
{
    let r = with_identical_triple_pattern(q, t);
    assert forall|i: int| 0 <= i < r.templates.len() implies #[trigger] pattern_contains(
        r.where_pattern,
        r.templates[i],
    ) by {
        lemma_with_triple_pattern_contains(q.where_pattern, t, r.templates[i]);
        if i < q.templates.len() {
            assert(r.templates[i] == q.templates[i]);
        }
    }
}

/// The triple patterns of a CONSTRUCT query: its template, and the pattern
/// of its WHERE clause.
#[derive(Debug)]
pub struct ConstructQueryPatterns {
    pub template_patterns: Vec<TriplePattern>,
    pub where_pattern: GraphPattern,
}

impl View for ConstructQueryPatterns {
    type V = ConstructQueryModel;

    open spec fn view(&self) -> ConstructQueryModel {
        ConstructQueryModel {
            templates: triple_pattern_models(self.template_patterns@),
            where_pattern: self.where_pattern@,
        }
    }
}

impl Default for ConstructQueryPatterns {
    /// No template pattern and an empty WHERE group.
    fn default() -> (q: Self)
        ensures
            q@ == (ConstructQueryModel {
                templates: Seq::empty(),
                where_pattern: GraphPatternModel::Triples(Seq::empty()),
            }),
    {
        let q = ConstructQueryPatterns {
            template_patterns: Vec::new(),
            where_pattern: GraphPattern::default(),
        };
        assert(triple_pattern_models(Seq::<TriplePattern>::empty()) =~= Seq::empty());
        q
    }
}

impl Clone for ConstructQueryPatterns {
    fn clone(&self) -> (r: Self)
        ensures
            r@ == self@,
    {
        ConstructQueryPatterns {
            template_patterns: clone_triple_patterns(&self.template_patterns),
            where_pattern: self.where_pattern.clone(),
        }
    }
}

impl ConstructQueryPatterns {
    /// No template pattern and an empty WHERE group.
    pub fn new() -> (q: Self)
        ensures
            q@ == (ConstructQueryModel {
                templates: Seq::empty(),
                where_pattern: GraphPatternModel::Triples(Seq::empty()),
            }),
            templates_matched(q@),
    {
        ConstructQueryPatterns::default()
    }

    /// Adds `triple_pattern` to the template and to the WHERE pattern.
    pub fn push_identical_triple_pattern(&mut self, triple_pattern: TriplePattern)
        ensures
            final(self)@ == with_identical_triple_pattern(old(self)@, triple_pattern@),
    {
        let ghost before = self.template_patterns@;
        let t = triple_pattern.clone();
        self.template_patterns.push(t);
        assert(triple_pattern_models(self.template_patterns@) =~= triple_pattern_models(
            before,
        ).push(triple_pattern@));
        self.where_pattern.push_triple_pattern(triple_pattern);
    }
}

} // verus!

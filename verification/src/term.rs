//! RDF terms: IRIs (named nodes), blank nodes, literals, and triples.
//!
//! Each type has a mathematical model (its view) over character sequences;
//! the contracts of the crate are stated over these models.

use vstd::prelude::*;
use vstd::std_specs::cmp::PartialEqSpecImpl;

use crate::text::{push_char, push_str, str_eq};

verus! {

/// The IRI of `xsd:string`.
pub open spec fn xsd_string_iri() -> Seq<char> {
    seq!['h','t','t','p',':','/','/','w','w','w','.','w','3','.','o','r','g','/','2','0','0','1','/',
        'X','M','L','S','c','h','e','m','a','#','s','t','r','i','n','g']
}

/// The IRI of `rdf:langString`, the datatype of every language-tagged literal.
pub open spec fn rdf_lang_string_iri() -> Seq<char> {
    seq!['h','t','t','p',':','/','/','w','w','w','.','w','3','.','o','r','g','/','1','9','9','9',
        '/','0','2','/','2','2','-','r','d','f','-','s','y','n','t','a','x','-','n','s','#',
        'l','a','n','g','S','t','r','i','n','g']
}

/// The IRI of `rdf:type`.
pub open spec fn rdf_type_iri() -> Seq<char> {
    seq!['h','t','t','p',':','/','/','w','w','w','.','w','3','.','o','r','g','/','1','9','9','9',
        '/','0','2','/','2','2','-','r','d','f','-','s','y','n','t','a','x','-','n','s','#',
        't','y','p','e']
}

/// Model of a literal: its lexical form, its datatype IRI and, for a
/// language-tagged string, its language tag.
pub struct LiteralModel {
    pub value: Seq<char>,
    pub datatype: Seq<char>,
    pub language: Option<Seq<char>>,
}

/// Model of a triple subject.
pub enum SubjectModel {
    Named(Seq<char>),
    Blank(Seq<char>),
}

/// Model of an RDF term.
pub enum TermModel {
    Named(Seq<char>),
    Blank(Seq<char>),
    Literal(LiteralModel),
}

/// Model of an RDF triple.
pub struct TripleModel {
    pub subject: SubjectModel,
    pub predicate: Seq<char>,
    pub object: TermModel,
}

/// The term that a subject stands for.
pub open spec fn subject_term(s: SubjectModel) -> TermModel {
    match s {
        SubjectModel::Named(i) => TermModel::Named(i),
        SubjectModel::Blank(i) => TermModel::Blank(i),
    }
}

/// `<iri>`, the SPARQL / N-Triples form of an IRI.
pub open spec fn iri_text(iri: Seq<char>) -> Seq<char> {
    seq!['<'] + iri + seq!['>']
}

/// `_:id`, the SPARQL / N-Triples form of a blank node.
pub open spec fn blank_text(id: Seq<char>) -> Seq<char> {
    seq!['_', ':'] + id
}

/// The SPARQL form of a subject.
pub open spec fn subject_text(s: SubjectModel) -> Seq<char> {
    match s {
        SubjectModel::Named(i) => iri_text(i),
        SubjectModel::Blank(i) => blank_text(i),
    }
}

/// Whether `oxrdf` accepts `iri` as an IRI.
pub uninterp spec fn is_valid_iri(iri: Seq<char>) -> bool;

/// Whether `c` may start a blank node identifier (`PN_CHARS_U`, digits and
/// `:`), as `oxrdf` checks it.
pub open spec fn is_blank_id_start_char(c: char) -> bool {
    let n = c as int;
    ||| '0' <= c <= '9'
    ||| c == '_'
    ||| c == ':'
    ||| 'A' <= c <= 'Z'
    ||| 'a' <= c <= 'z'
    ||| 0xC0 <= n <= 0xD6
    ||| 0xD8 <= n <= 0xF6
    ||| 0xF8 <= n <= 0x2FF
    ||| 0x370 <= n <= 0x37D
    ||| 0x37F <= n <= 0x1FFF
    ||| 0x200C <= n <= 0x200D
    ||| 0x2070 <= n <= 0x218F
    ||| 0x2C00 <= n <= 0x2FEF
    ||| 0x3001 <= n <= 0xD7FF
    ||| 0xF900 <= n <= 0xFDCF
    ||| 0xFDF0 <= n <= 0xFFFD
    ||| 0x10000 <= n <= 0xEFFFF
}

/// Whether `c` may stand after the first character of a blank node
/// identifier: a starting character, `.`, `-`, `U+00B7` or a combining mark
/// (`U+0300` to `U+036F`, `U+203F` to `U+2040`).
pub open spec fn is_blank_id_char(c: char) -> bool {
    let n = c as int;
    ||| is_blank_id_start_char(c)
    ||| c == '.'
    ||| c == '-'
    ||| n == 0xB7
    ||| 0x300 <= n <= 0x36F
    ||| 0x203F <= n <= 0x2040
}

/// Whether `oxrdf` accepts `id` as a blank node identifier: not empty, a
/// starting character first, then identifier characters, not ending with a
/// dot.
pub open spec fn is_valid_blank_node_id(id: Seq<char>) -> bool {
    &&& id.len() > 0
    &&& is_blank_id_start_char(id[0])
    &&& forall|i: int| 1 <= i < id.len() ==> is_blank_id_char(#[trigger] id[i])
    &&& id.last() != '.'
}

/// `oxrdf::IriParseError`, the error of an invalid IRI.
#[verifier::external_type_specification]
#[verifier::external_body]
pub struct ExIriParseError(oxrdf::IriParseError);

/// `oxrdf::BlankNodeIdParseError`, the error of an invalid blank node
/// identifier.
#[verifier::external_type_specification]
#[verifier::external_body]
pub struct ExBlankNodeIdParseError(oxrdf::BlankNodeIdParseError);

/// Calls `oxrdf::NamedNode::new`, which checks `iri` with `oxiri` and, on
/// success, keeps the string unchanged (`into_string` gives it back).
/// What makes an IRI valid is left to the name `is_valid_iri`.
#[verifier::external_body]
fn oxrdf_check_iri(iri: String) -> (r: Result<String, oxrdf::IriParseError>)
    ensures
        r is Ok <==> is_valid_iri(iri@),
        r matches Ok(s) ==> s@ == iri@,
{
    oxrdf::NamedNode::new(iri).map(|n| n.into_string())
}

/// Calls `oxrdf::BlankNode::new`, which checks `id` and, on success, gives
/// back the same identifier from `into_string` (a lowercase hexadecimal id
/// without leading zero is stored as a number and printed back identically).
/// Its check (`validate_blank_node_identifier`) is the one that
/// `is_valid_blank_node_id` writes out.
#[verifier::external_body]
fn oxrdf_check_blank_node_id(id: String) -> (r: Result<String, oxrdf::BlankNodeIdParseError>)
    ensures
        r is Ok <==> is_valid_blank_node_id(id@),
        r matches Ok(s) ==> s@ == id@,
{
    oxrdf::BlankNode::new(id).map(|b| b.into_string())
}

/// Whether `id` has the shape of the identifiers that `oxrdf` draws for
/// fresh blank nodes: the lowercase hexadecimal numeral of a 128-bit number
/// (1 to 32 digits), starting with a letter `a` to `f`.
pub open spec fn is_fresh_blank_id(id: Seq<char>) -> bool {
    &&& 1 <= id.len() <= 32
    &&& 'a' <= id[0] <= 'f'
    &&& forall|i: int| 0 <= i < id.len() ==> ('0' <= #[trigger] id[i] <= '9' || 'a' <= id[i] <= 'f')
}

/// Calls `oxrdf::BlankNode::default`, which draws random 128-bit numbers
/// until one's lowercase hexadecimal numeral (`{:x}`) starts with a letter
/// `a` to `f`, and gives that numeral back from `into_string`. Which number
/// is drawn depends on chance and is not stated.
#[verifier::external_body]
fn oxrdf_fresh_blank_node_id() -> (id: String)
    ensures
        is_fresh_blank_id(id@),
{
    oxrdf::BlankNode::default().into_string()
}

/// Rejection of a string that is not a valid IRI.
#[derive(Debug)]
pub struct InvalidIriError {
    pub iri: String,
}

/// Rejection of a string that is not a valid blank node identifier.
#[derive(Debug)]
pub struct InvalidBlankNodeIdError {
    pub id: String,
}

/// An IRI (an RDF named node).
#[derive(Debug)]
pub struct Iri {
    iri: String,
}

impl View for Iri {
    type V = Seq<char>;

    open spec fn view(&self) -> Seq<char> {
        self.spec_iri()
    }
}

impl Iri {
    /// The IRI text.
    pub closed spec fn spec_iri(&self) -> Seq<char> {
        self.iri@
    }

    /// Builds a named node after checking that `iri` is a valid IRI.
    pub fn new(iri: &str) -> (r: Result<Iri, InvalidIriError>)
        ensures
            r is Ok <==> is_valid_iri(iri@),
            r matches Ok(n) ==> n@ == iri@,
            r matches Err(e) ==> e.iri@ == iri@,
    {
        match oxrdf_check_iri(iri.to_owned()) {
            Ok(s) => Ok(Iri { iri: s }),
            Err(_) => Err(InvalidIriError { iri: iri.to_owned() }),
        }
    }

    /// Builds a named node from `iri` without checking it.
    pub fn new_unchecked(iri: String) -> (n: Iri)
        ensures
            n@ == iri@,
    {
        Iri { iri }
    }

    /// The IRI text.
    pub fn as_str(&self) -> (s: &str)
        ensures
            s@ == self@,
    {
        self.iri.as_str()
    }

    /// `<iri>`, the SPARQL / N-Triples form.
    pub fn to_string(&self) -> (s: String)
        ensures
            s@ == iri_text(self@),
    {
        let mut s = String::new();
        push_char(&mut s, '<');
        push_str(&mut s, self.iri.as_str());
        push_char(&mut s, '>');
        assert(s@ =~= iri_text(self@));
        s
    }
}

impl Clone for Iri {
    fn clone(&self) -> (r: Self)
        ensures
            r == *self,
    {
        Iri { iri: self.iri.clone() }
    }
}

impl PartialEq for Iri {
    fn eq(&self, other: &Self) -> (r: bool) {
        self.iri == other.iri
    }
}

impl PartialEqSpecImpl for Iri {
    open spec fn obeys_eq_spec() -> bool {
        true
    }

    open spec fn eq_spec(&self, other: &Self) -> bool {
        self@ == other@
    }
}

/// An RDF blank node.
#[derive(Debug)]
pub struct BlankId {
    id: String,
}

impl View for BlankId {
    type V = Seq<char>;

    open spec fn view(&self) -> Seq<char> {
        self.spec_id()
    }
}

impl BlankId {
    /// The identifier.
    pub closed spec fn spec_id(&self) -> Seq<char> {
        self.id@
    }

    /// Builds a blank node after checking that `id` is a valid identifier.
    pub fn new(id: &str) -> (r: Result<BlankId, InvalidBlankNodeIdError>)
        ensures
            r is Ok <==> is_valid_blank_node_id(id@),
            r matches Ok(b) ==> b@ == id@,
            r matches Err(e) ==> e.id@ == id@,
    {
        match oxrdf_check_blank_node_id(id.to_owned()) {
            Ok(s) => Ok(BlankId { id: s }),
            Err(_) => Err(InvalidBlankNodeIdError { id: id.to_owned() }),
        }
    }

    /// Builds a blank node from `id` without checking it.
    pub fn new_unchecked(id: String) -> (b: BlankId)
        ensures
            b@ == id@,
    {
        BlankId { id }
    }

    /// A blank node with a fresh random identifier: a lowercase hexadecimal
    /// numeral starting with a letter, valid as a blank node identifier.
    pub fn fresh() -> (b: BlankId)
        ensures
            is_fresh_blank_id(b@),
            is_valid_blank_node_id(b@),
    {
        let id = oxrdf_fresh_blank_node_id();
        proof {
            lemma_fresh_ids_are_valid(id@);
        }
        BlankId { id }
    }

    /// The identifier.
    pub fn as_str(&self) -> (s: &str)
        ensures
            s@ == self@,
    {
        self.id.as_str()
    }

    /// `_:id`, the SPARQL / N-Triples form.
    pub fn to_string(&self) -> (s: String)
        ensures
            s@ == blank_text(self@),
    {
        let mut s = String::new();
        push_char(&mut s, '_');
        push_char(&mut s, ':');
        push_str(&mut s, self.id.as_str());
        assert(s@ =~= blank_text(self@));
        s
    }
}

impl Clone for BlankId {
    fn clone(&self) -> (r: Self)
        ensures
            r == *self,
    {
        BlankId { id: self.id.clone() }
    }
}

impl PartialEq for BlankId {
    fn eq(&self, other: &Self) -> (r: bool) {
        self.id == other.id
    }
}

impl PartialEqSpecImpl for BlankId {
    open spec fn obeys_eq_spec() -> bool {
        true
    }

    open spec fn eq_spec(&self, other: &Self) -> bool {
        self@ == other@
    }
}

/// An RDF literal: a lexical form with either a datatype or a language tag
/// (whose datatype is then `rdf:langString`).
#[derive(Debug)]
pub struct LiteralValue {
    value: String,
    datatype: Iri,
    language: Option<String>,
}

impl View for LiteralValue {
    type V = LiteralModel;

    open spec fn view(&self) -> LiteralModel {
        self.spec_model()
    }
}

impl LiteralValue {
    /// The model: lexical form, datatype and language tag.
    pub closed spec fn spec_model(&self) -> LiteralModel {
        LiteralModel {
            value: self.value@,
            datatype: match self.language {
                Some(_) => rdf_lang_string_iri(),
                None => self.datatype@,
            },
            language: match self.language {
                Some(l) => Some(l@),
                None => None,
            },
        }
    }

    /// A literal with the given lexical form and datatype.
    pub fn new_typed_literal(value: String, datatype: Iri) -> (l: LiteralValue)
        ensures
            l@ == (LiteralModel { value: value@, datatype: datatype@, language: None }),
    {
        LiteralValue { value, datatype, language: None }
    }

    /// A plain string literal (datatype `xsd:string`).
    pub fn new_simple_literal(value: String) -> (l: LiteralValue)
        ensures
            l@ == (LiteralModel { value: value@, datatype: xsd_string_iri(), language: None }),
    {
        LiteralValue { value, datatype: xsd_string(), language: None }
    }

    /// A language-tagged string; `language` is taken as given.
    pub fn new_language_tagged_literal_unchecked(value: String, language: String) -> (l: LiteralValue)
        ensures
            l@ == (LiteralModel {
                value: value@,
                datatype: rdf_lang_string_iri(),
                language: Some(language@),
            }),
    {
        LiteralValue { value, datatype: rdf_lang_string(), language: Some(language) }
    }

    /// The lexical form.
    pub fn value(&self) -> (s: &str)
        ensures
            s@ == self@.value,
    {
        self.value.as_str()
    }

    /// The datatype (`rdf:langString` for a language-tagged string).
    pub fn datatype(&self) -> (d: Iri)
        ensures
            d@ == self@.datatype,
    {
        match &self.language {
            Some(_) => rdf_lang_string(),
            None => self.datatype.clone(),
        }
    }

    /// The language tag, if any.
    pub fn language(&self) -> (l: Option<&str>)
        ensures
            l is Some <==> self@.language is Some,
            l matches Some(s) ==> self@.language == Some(s@),
    {
        match &self.language {
            Some(s) => Some(s.as_str()),
            None => None,
        }
    }
}

impl Clone for LiteralValue {
    fn clone(&self) -> (r: Self)
        ensures
            r == *self,
    {
        LiteralValue {
            value: self.value.clone(),
            datatype: self.datatype.clone(),
            language: match &self.language {
                Some(l) => Some(l.clone()),
                None => None,
            },
        }
    }
}

impl PartialEq for LiteralValue {
    fn eq(&self, other: &Self) -> (r: bool) {
        if !str_eq(self.value.as_str(), other.value.as_str()) {
            return false;
        }
        match (&self.language, &other.language) {
            (Some(a), Some(b)) => str_eq(a.as_str(), b.as_str()),
            (None, None) => self.datatype == other.datatype,
            _ => false,
        }
    }
}

impl PartialEqSpecImpl for LiteralValue {
    open spec fn obeys_eq_spec() -> bool {
        true
    }

    open spec fn eq_spec(&self, other: &Self) -> bool {
        self@ == other@
    }
}

/// The subject of a triple: a named node or a blank node.
#[derive(Debug)]
pub enum Subject {
    Iri(Iri),
    Blank(BlankId),
}

impl View for Subject {
    type V = SubjectModel;

    open spec fn view(&self) -> SubjectModel {
        match self {
            Subject::Iri(n) => SubjectModel::Named(n@),
            Subject::Blank(b) => SubjectModel::Blank(b@),
        }
    }
}

impl Clone for Subject {
    fn clone(&self) -> (r: Self)
        ensures
            r == *self,
    {
        match self {
            Subject::Iri(n) => Subject::Iri(n.clone()),
            Subject::Blank(b) => Subject::Blank(b.clone()),
        }
    }
}

impl PartialEq for Subject {
    fn eq(&self, other: &Self) -> (r: bool) {
        match (self, other) {
            (Subject::Iri(a), Subject::Iri(b)) => a == b,
            (Subject::Blank(a), Subject::Blank(b)) => a == b,
            _ => false,
        }
    }
}

impl PartialEqSpecImpl for Subject {
    open spec fn obeys_eq_spec() -> bool {
        true
    }

    open spec fn eq_spec(&self, other: &Self) -> bool {
        self@ == other@
    }
}

impl Subject {
    /// The term standing for this subject.
    pub fn as_term(&self) -> (t: RdfTerm)
        ensures
            t@ == subject_term(self@),
    {
        match self {
            Subject::Iri(n) => RdfTerm::Iri(n.clone()),
            Subject::Blank(b) => RdfTerm::Blank(b.clone()),
        }
    }

    /// The SPARQL / N-Triples form: `<iri>` or `_:id`.
    pub fn to_string(&self) -> (s: String)
        ensures
            s@ == subject_text(self@),
    {
        match self {
            Subject::Iri(n) => n.to_string(),
            Subject::Blank(b) => b.to_string(),
        }
    }
}

/// An RDF term: a named node, a blank node or a literal.
#[derive(Debug)]
pub enum RdfTerm {
    Iri(Iri),
    Blank(BlankId),
    Lit(LiteralValue),
}

impl View for RdfTerm {
    type V = TermModel;

    open spec fn view(&self) -> TermModel {
        match self {
            RdfTerm::Iri(n) => TermModel::Named(n@),
            RdfTerm::Blank(b) => TermModel::Blank(b@),
            RdfTerm::Lit(l) => TermModel::Literal(l@),
        }
    }
}

impl Clone for RdfTerm {
    fn clone(&self) -> (r: Self)
        ensures
            r == *self,
    {
        match self {
            RdfTerm::Iri(n) => RdfTerm::Iri(n.clone()),
            RdfTerm::Blank(b) => RdfTerm::Blank(b.clone()),
            RdfTerm::Lit(l) => RdfTerm::Lit(l.clone()),
        }
    }
}

impl PartialEq for RdfTerm {
    fn eq(&self, other: &Self) -> (r: bool) {
        match (self, other) {
            (RdfTerm::Iri(a), RdfTerm::Iri(b)) => a == b,
            (RdfTerm::Blank(a), RdfTerm::Blank(b)) => a == b,
            (RdfTerm::Lit(a), RdfTerm::Lit(b)) => a == b,
            _ => false,
        }
    }
}

impl PartialEqSpecImpl for RdfTerm {
    open spec fn obeys_eq_spec() -> bool {
        true
    }

    open spec fn eq_spec(&self, other: &Self) -> bool {
        self@ == other@
    }
}

/// An RDF triple.
#[derive(Debug)]
pub struct Statement {
    pub subject: Subject,
    pub predicate: Iri,
    pub object: RdfTerm,
}

impl View for Statement {
    type V = TripleModel;

    open spec fn view(&self) -> TripleModel {
        TripleModel { subject: self.subject@, predicate: self.predicate@, object: self.object@ }
    }
}

impl Statement {
    /// The triple `(subject, predicate, object)`.
    pub fn new(subject: Subject, predicate: Iri, object: RdfTerm) -> (t: Statement)
        ensures
            t@ == (TripleModel { subject: subject@, predicate: predicate@, object: object@ }),
    {
        Statement { subject, predicate, object }
    }
}

/// `xsd:string` as a named node.
pub fn xsd_string() -> (n: Iri)
    ensures
        n@ == xsd_string_iri(),
{
    let n = Iri::new_unchecked("http://www.w3.org/2001/XMLSchema#string".to_owned());
    proof {
        reveal_strlit("http://www.w3.org/2001/XMLSchema#string");
    }
    assert(n@ =~= xsd_string_iri());
    n
}

/// `rdf:langString` as a named node.
pub fn rdf_lang_string() -> (n: Iri)
    ensures
        n@ == rdf_lang_string_iri(),
{
    let n = Iri::new_unchecked(
        "http://www.w3.org/1999/02/22-rdf-syntax-ns#langString".to_owned(),
    );
    proof {
        reveal_strlit("http://www.w3.org/1999/02/22-rdf-syntax-ns#langString");
    }
    assert(n@ =~= rdf_lang_string_iri());
    n
}

/// `rdf:type` as a named node.
pub fn rdf_type() -> (n: Iri)
    ensures
        n@ == rdf_type_iri(),
{
    let n = Iri::new_unchecked("http://www.w3.org/1999/02/22-rdf-syntax-ns#type".to_owned());
    proof {
        reveal_strlit("http://www.w3.org/1999/02/22-rdf-syntax-ns#type");
    }
    assert(n@ =~= rdf_type_iri());
    n
}

/// The identifiers drawn for fresh blank nodes are valid ones.
pub proof fn lemma_fresh_ids_are_valid(id: Seq<char>)
    requires
        is_fresh_blank_id(id),
    ensures
        is_valid_blank_node_id(id),
{
    assert forall|i: int| 1 <= i < id.len() implies is_blank_id_char(#[trigger] id[i]) by {
        assert('0' <= id[i] <= '9' || 'a' <= id[i] <= 'f');
    }
    assert('0' <= id[id.len() - 1] <= '9' || 'a' <= id[id.len() - 1] <= 'f');
}

} // verus!

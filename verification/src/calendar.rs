//! Calendar values written as `xsd:date` and `xsd:dateTime` literals:
//! `YYYY-MM-DD` and `YYYY-MM-DDThh:mm:ss`, as `chrono` formats them with
//! `%Y-%m-%d` and `%Y-%m-%dT%H:%M:%S`. Their lexical forms are read back by
//! `chrono`'s parser.

use vstd::prelude::*;

use crate::constructible::{insert_property_pattern, property_pattern, property_patterns_after, ConstructibleProperty};
use crate::construct_query::{with_identical_triple_pattern, ConstructQueryModel, ConstructQueryPatterns};
use crate::graph::{graph_triples, objects_of};
use crate::literal::{check_datatype, typed_literal, FromRdfLiteral, LiteralErrorModel, RdfLiteralError, ToRdfLiteral};
use crate::numeral::{
    format_int, int_text, is_digit, lemma_nat_digits_first, lemma_nat_digits_len,
    lemma_scan_zeros_then_digits, nat_digits, scan_digits, ten_pow, zeros, IntErrorKind,
};
use crate::object::{is_reading, literal_of_term, via_literal, FromRdfObject, ObjectErrorModel, RdfObjectError, ToRdfObject};
use crate::property::{insert_object, single_object, single_reading, triple, FromRdfProperty, PropertyErrorModel, RdfPropertyError, ToRdfProperty};
use crate::sparql_variable_generator::{base26, SparqlVariableGenerator};
use crate::term::{Iri, LiteralModel, LiteralValue, RdfTerm, Subject, SubjectModel, TermModel, TripleModel};
use crate::text::{push_char, push_str};

verus! {

/// Whether `y` is a leap year of the proleptic Gregorian calendar.
pub open spec fn is_leap_year(y: int) -> bool {
    (y % 4 == 0 && y % 100 != 0) || y % 400 == 0
}

/// The number of days of month `m` of year `y`.
pub open spec fn days_in_month(y: int, m: int) -> int {
    if m == 2 {
        if is_leap_year(y) {
            29
        } else {
            28
        }
    } else if m == 4 || m == 6 || m == 9 || m == 11 {
        30
    } else {
        31
    }
}

/// Whether `(y, m, d)` is a date that `chrono::NaiveDate` can hold: years
/// -262143 to 262142, months 1 to 12, days 1 to the month's length.
pub open spec fn is_valid_date(y: int, m: int, d: int) -> bool {
    &&& -262143 <= y <= 262142
    &&& 1 <= m <= 12
    &&& 1 <= d <= days_in_month(y, m)
}

/// Whether `(h, mi, s, nano)` is a time of day that `chrono::NaiveTime` can
/// hold: a nanosecond count of a second or more marks a leap second, which
/// only the 59th second of a minute may carry.
pub open spec fn is_valid_time(h: int, mi: int, s: int, nano: int) -> bool {
    &&& 0 <= h < 24
    &&& 0 <= mi < 60
    &&& 0 <= s < 60
    &&& 0 <= nano < 2_000_000_000
    &&& nano >= 1_000_000_000 ==> s == 59
}

/// The decimal digits of `n`, with zeros in front up to `width` characters.
pub open spec fn zero_padded(n: nat, width: nat) -> Seq<char> {
    let ds = nat_digits(n);
    if ds.len() < width {
        Seq::new((width - ds.len()) as nat, |i: int| '0') + ds
    } else {
        ds
    }
}

/// `%Y`: a year of 0 to 9999 on four digits; any other year with its sign
/// and at least four digits.
pub open spec fn year_text(y: int) -> Seq<char> {
    if 0 <= y <= 9999 {
        zero_padded(y as nat, 4)
    } else if y < 0 {
        seq!['-'] + zero_padded((-y) as nat, 4)
    } else {
        seq!['+'] + zero_padded(y as nat, 4)
    }
}

/// `%Y-%m-%d`
pub open spec fn date_text(y: int, m: int, d: int) -> Seq<char> {
    year_text(y) + seq!['-'] + zero_padded(m as nat, 2) + seq!['-'] + zero_padded(d as nat, 2)
}

/// `%H:%M:%S`, where a leap second shows as second 60.
pub open spec fn time_text(h: int, mi: int, s: int, nano: int) -> Seq<char> {
    zero_padded(h as nat, 2) + seq![':'] + zero_padded(mi as nat, 2) + seq![':'] + zero_padded(
        (s + nano / 1_000_000_000) as nat,
        2,
    )
}

/// Appends the decimal digits of `n`, with zeros in front up to `width`
/// characters.
fn push_zero_padded(s: &mut String, n: u32, width: usize)
    requires
        width <= 8,
    ensures
        final(s)@ == old(s)@ + zero_padded(n as nat, width as nat),
{
    let digits = format_int(n as i128);
    assert(digits@ == nat_digits(n as nat));
    let len = digits.as_str().unicode_len();
    let ghost start = s@;
    if len < width {
        let mut i: usize = 0;
        while i < width - len
            invariant
                len < width,
                i <= width - len,
                s@ == start + Seq::new(i as nat, |j: int| '0'),
            decreases width - len - i,
        {
            push_char(s, '0');
            assert(Seq::new(i as nat, |j: int| '0').push('0') =~= Seq::new((i + 1) as nat, |j: int| '0'));
            i = i + 1;
        }
    }
    push_str(s, digits.as_str());
    assert(s@ =~= start + zero_padded(n as nat, width as nat));
}

/// Appends `%Y` for the year `y`.
fn push_year(s: &mut String, y: i32)
    ensures
        final(s)@ == old(s)@ + year_text(y as int),
{
    let ghost start = s@;
    if 0 <= y && y <= 9999 {
        push_zero_padded(s, y as u32, 4);
    } else if y < 0 {
        push_char(s, '-');
        let magnitude: u32 = if y == i32::MIN { 0x8000_0000u32 } else { (-y) as u32 };
        push_zero_padded(s, magnitude, 4);
    } else {
        push_char(s, '+');
        push_zero_padded(s, y as u32, 4);
    }
    assert(s@ =~= start + year_text(y as int));
}

/// Appends `%Y-%m-%d`.
fn push_date(s: &mut String, y: i32, m: u32, d: u32)
    ensures
        final(s)@ == old(s)@ + date_text(y as int, m as int, d as int),
{
    let ghost start = s@;
    push_year(s, y);
    push_char(s, '-');
    push_zero_padded(s, m, 2);
    push_char(s, '-');
    push_zero_padded(s, d, 2);
    assert(s@ =~= start + date_text(y as int, m as int, d as int));
}

/// Appends `%H:%M:%S`.
fn push_time(s: &mut String, h: u32, mi: u32, sec: u32, nano: u32)
    requires
        sec < 60,
    ensures
        final(s)@ == old(s)@ + time_text(h as int, mi as int, sec as int, nano as int),
{
    let ghost start = s@;
    push_zero_padded(s, h, 2);
    push_char(s, ':');
    push_zero_padded(s, mi, 2);
    push_char(s, ':');
    push_zero_padded(s, sec + nano / 1_000_000_000, 2);
    assert(s@ =~= start + time_text(h as int, mi as int, sec as int, nano as int));
}

/// The IRI of `xsd:date`.
pub open spec fn xsd_date_iri() -> Seq<char> {
    "http://www.w3.org/2001/XMLSchema#date"@
}

/// The IRI of `xsd:dateTime`.
pub open spec fn xsd_date_time_iri() -> Seq<char> {
    "http://www.w3.org/2001/XMLSchema#dateTime"@
}

/// The date whose `%Y-%m-%d` text is `t`, if `t` is the text of a date.
pub open spec fn canonical_date(t: Seq<char>) -> Option<(int, int, int)> {
    if exists|y: int, m: int, d: int| is_valid_date(y, m, d) && t == #[trigger] date_text(y, m, d) {
        Some(
            choose|y: int, m: int, d: int|
                is_valid_date(y, m, d) && t == #[trigger] date_text(y, m, d),
        )
    } else {
        None
    }
}

/// `%Y-%m-%dT%H:%M:%S` for a time of day with no fraction of a second.
pub open spec fn whole_second_text(y: int, m: int, d: int, h: int, mi: int, s: int) -> Seq<char> {
    date_text(y, m, d) + seq!['T'] + time_text(h, mi, s, 0)
}

/// The date and time of day, to the whole second, whose
/// `%Y-%m-%dT%H:%M:%S` text is `t`, if `t` is the text of one.
pub open spec fn canonical_date_time(t: Seq<char>) -> Option<(int, int, int, int, int, int)> {
    if exists|y: int, m: int, d: int, h: int, mi: int, s: int|
        is_valid_date(y, m, d) && is_valid_time(h, mi, s, 0) && t == #[trigger] whole_second_text(y, m, d, h, mi, s) {
        Some(
            choose|y: int, m: int, d: int, h: int, mi: int, s: int|
                is_valid_date(y, m, d) && is_valid_time(h, mi, s, 0) && t == #[trigger] whole_second_text(
                    y,
                    m,
                    d,
                    h,
                    mi,
                    s,
                ),
        )
    } else {
        None
    }
}

/// What `chrono::NaiveDate::parse_from_str(text, "%Y-%m-%d")` gives: the
/// year, month and day of the date read, or the text of the parse error.
pub uninterp spec fn chrono_date_reading(text: Seq<char>) -> Result<(int, int, int), Seq<char>>;

/// What `chrono::NaiveDateTime::parse_from_str(text, "%Y-%m-%dT%H:%M:%S")`
/// gives: year, month, day, hour, minute, second and nanosecond of the value
/// read, or the text of the parse error.
pub uninterp spec fn chrono_date_time_reading(text: Seq<char>) -> Result<
    (int, int, int, int, int, int, int),
    Seq<char>,
>;

/// Calls `chrono::NaiveDate::parse_from_str(text, "%Y-%m-%d")` and hands
/// back the date's year, month and day, or the error's `to_string()`. The
/// result is the name `chrono_date_reading` of the text. A date read is one
/// that `NaiveDate` can hold. `chrono` documents that its `Display` output is
/// `format("%Y-%m-%d")` and that parsing uses that same format: the text of
/// a date reads back as that date.
#[verifier::external_body]
fn chrono_parse_date(text: &str) -> (r: Result<(i32, u32, u32), String>)
    ensures
        chrono_date_reading(text@) == match r {
            Ok((y, m, d)) => Ok::<(int, int, int), Seq<char>>((y as int, m as int, d as int)),
            Err(e) => Err(e@),
        },
        r matches Ok((y, m, d)) ==> is_valid_date(y as int, m as int, d as int),
        r is Err ==> canonical_date(text@) is None,
        r matches Ok((y, m, d)) ==> (canonical_date(text@) is None || canonical_date(text@) == Some(
            (y as int, m as int, d as int),
        )),
{
    match chrono::NaiveDate::parse_from_str(text, "%Y-%m-%d") {
        Ok(date) => Ok((
            chrono::Datelike::year(&date),
            chrono::Datelike::month(&date),
            chrono::Datelike::day(&date),
        )),
        Err(err) => Err(err.to_string()),
    }
}

/// Calls `chrono::NaiveDateTime::parse_from_str(text, "%Y-%m-%dT%H:%M:%S")`
/// and hands back the value's date and time fields, or the error's
/// `to_string()`. The result is the name `chrono_date_time_reading` of the
/// text. A value read is one that `NaiveDateTime` can hold. `chrono`
/// documents that `parse_from_str` reads the fields that the format names,
/// as `format` writes them: the `%Y-%m-%dT%H:%M:%S` text of a date and a
/// time with no fraction of a second reads back as that value. Nothing is
/// stated of other texts (a leap second, written as second 60, among them).
#[verifier::external_body]
fn chrono_parse_date_time(text: &str) -> (r: Result<(i32, u32, u32, u32, u32, u32, u32), String>)
    ensures
        chrono_date_time_reading(text@) == match r {
            Ok((y, m, d, h, mi, sec, nano)) => Ok::<
                (int, int, int, int, int, int, int),
                Seq<char>,
            >((y as int, m as int, d as int, h as int, mi as int, sec as int, nano as int)),
            Err(e) => Err(e@),
        },
        r matches Ok((y, m, d, h, mi, sec, nano)) ==> is_valid_date(y as int, m as int, d as int)
            && is_valid_time(h as int, mi as int, sec as int, nano as int),
        r is Err ==> canonical_date_time(text@) is None,
        r matches Ok((y, m, d, h, mi, sec, nano)) ==> (canonical_date_time(text@) is None || (
        canonical_date_time(text@) == Some(
            (y as int, m as int, d as int, h as int, mi as int, sec as int),
        ) && nano == 0)),
{
    match chrono::NaiveDateTime::parse_from_str(text, "%Y-%m-%dT%H:%M:%S") {
        Ok(v) => Ok((
            chrono::Datelike::year(&v),
            chrono::Datelike::month(&v),
            chrono::Datelike::day(&v),
            chrono::Timelike::hour(&v),
            chrono::Timelike::minute(&v),
            chrono::Timelike::second(&v),
            chrono::Timelike::nanosecond(&v),
        )),
        Err(err) => Err(err.to_string()),
    }
}

/// Model of a date: year, month, day.
pub struct DateModel {
    pub year: int,
    pub month: int,
    pub day: int,
}

/// A calendar date (`xsd:date`), as `chrono::NaiveDate` holds it.
#[derive(Debug, Clone, Copy, Hash, PartialEq, Eq, PartialOrd, Ord, Structural)]
pub struct Date {
    year: i32,
    month: u32,
    day: u32,
}

impl View for Date {
    type V = DateModel;

    closed spec fn view(&self) -> DateModel {
        DateModel { year: self.year as int, month: self.month as int, day: self.day as int }
    }
}

impl Date {
    #[verifier::type_invariant]
    closed spec fn valid(self) -> bool {
        is_valid_date(self.year as int, self.month as int, self.day as int)
    }

    /// The date `year-month-day`.
    pub fn new(year: i32, month: u32, day: u32) -> (d: Date)
        requires
            is_valid_date(year as int, month as int, day as int),
        ensures
            d@ == (DateModel { year: year as int, month: month as int, day: day as int }),
    {
        Date { year, month, day }
    }

    /// The year.
    pub fn year(&self) -> (y: i32)
        ensures
            y == self@.year,
    {
        self.year
    }

    /// The month, 1 to 12.
    pub fn month(&self) -> (m: u32)
        ensures
            m == self@.month,
    {
        self.month
    }

    /// The day of the month, from 1.
    pub fn day(&self) -> (d: u32)
        ensures
            d == self@.day,
    {
        self.day
    }

    /// `YYYY-MM-DD` (`%Y-%m-%d`).
    pub fn to_string(&self) -> (s: String)
        ensures
            s@ == date_text(self@.year, self@.month, self@.day),
    {
        let mut s = String::new();
        push_date(&mut s, self.year, self.month, self.day);
        s
    }

    /// Reads a date written `%Y-%m-%d`, with `chrono`'s parser; on failure,
    /// the text of `chrono`'s error.
    pub fn parse(s: &str) -> (r: Result<Date, String>)
        ensures
            chrono_date_reading(s@) == match r {
                Ok(d) => Ok::<(int, int, int), Seq<char>>((d@.year, d@.month, d@.day)),
                Err(e) => Err(e@),
            },
            canonical_date(s@) matches Some(c) ==> (r matches Ok(v) && (v@.year, v@.month, v@.day)
                == c),
    {
        match chrono_parse_date(s) {
            Ok((y, m, d)) => Ok(Date { year: y, month: m, day: d }),
            Err(e) => Err(e),
        }
    }
}

impl std::str::FromStr for Date {
    type Err = String;

    /// Reads a date written `%Y-%m-%d`, as `Date::parse` does.
    fn from_str(s: &str) -> (r: Result<Date, String>)
        ensures
            chrono_date_reading(s@) == match r {
                Ok(d) => Ok::<(int, int, int), Seq<char>>((d@.year, d@.month, d@.day)),
                Err(e) => Err(e@),
            },
            canonical_date(s@) matches Some(c) ==> (r matches Ok(v) && (v@.year, v@.month, v@.day)
                == c),
    {
        Date::parse(s)
    }
}

/// How a literal reads as a date: the datatype must be `xsd:date`, then
/// `chrono` must read the lexical form.
pub open spec fn decode_date_literal(l: LiteralModel) -> Result<DateModel, LiteralErrorModel> {
    if l.datatype != xsd_date_iri() {
        Err(LiteralErrorModel::InvalidDatatype { expected: xsd_date_iri(), actual: l.datatype })
    } else {
        match chrono_date_reading(l.value) {
            Ok((y, m, d)) => Ok(DateModel { year: y, month: m, day: d }),
            Err(msg) => Err(LiteralErrorModel::Parse(msg)),
        }
    }
}

/// The `xsd:date` literal of a date.
pub open spec fn date_literal(d: DateModel) -> LiteralModel {
    typed_literal(date_text(d.year, d.month, d.day), xsd_date_iri())
}

/// How a term reads as a date.
pub open spec fn decode_date_term(t: TermModel) -> Result<DateModel, ObjectErrorModel> {
    via_literal(t, |l: LiteralModel| decode_date_literal(l))
}

/// Model of a date and time of day.
pub struct DateTimeModel {
    pub date: DateModel,
    pub hour: int,
    pub minute: int,
    pub second: int,
    pub nanosecond: int,
}

/// `%Y-%m-%dT%H:%M:%S`
pub open spec fn date_time_text(v: DateTimeModel) -> Seq<char> {
    date_text(v.date.year, v.date.month, v.date.day) + seq!['T'] + time_text(
        v.hour,
        v.minute,
        v.second,
        v.nanosecond,
    )
}

/// The `xsd:dateTime` literal of a date and time.
pub open spec fn date_time_literal(v: DateTimeModel) -> LiteralModel {
    typed_literal(date_time_text(v), xsd_date_time_iri())
}

/// The date and time `v` with its fraction of a second dropped.
pub open spec fn whole_second(v: DateTimeModel) -> DateTimeModel {
    DateTimeModel { nanosecond: 0, ..v }
}

/// The model of a reading of `chrono`'s date and time parser.
pub open spec fn date_time_model(t: (int, int, int, int, int, int, int)) -> DateTimeModel {
    DateTimeModel {
        date: DateModel { year: t.0, month: t.1, day: t.2 },
        hour: t.3,
        minute: t.4,
        second: t.5,
        nanosecond: t.6,
    }
}

/// How a literal reads as a date and time (`NaiveDateTime`): the datatype
/// must be `xsd:dateTime`, then `chrono` must read the lexical form.
pub open spec fn decode_naive_date_time_literal(l: LiteralModel) -> Result<DateTimeModel, LiteralErrorModel> {
    if l.datatype != xsd_date_time_iri() {
        Err(LiteralErrorModel::InvalidDatatype { expected: xsd_date_time_iri(), actual: l.datatype })
    } else {
        match chrono_date_time_reading(l.value) {
            Ok(t) => Ok(date_time_model(t)),
            Err(msg) => Err(LiteralErrorModel::Parse(msg)),
        }
    }
}

/// The message of a `DateTime` lexical form that does not read:
/// `Failed to parse '<value>' as date: <chrono's message>`.
pub open spec fn date_time_parse_message(value: Seq<char>, msg: Seq<char>) -> Seq<char> {
    "Failed to parse '"@ + value + "' as date: "@ + msg
}

/// How a literal reads as a `DateTime`: as for `NaiveDateTime`, with its
/// own parse message.
pub open spec fn decode_date_time_literal(l: LiteralModel) -> Result<DateTimeModel, LiteralErrorModel> {
    if l.datatype != xsd_date_time_iri() {
        Err(LiteralErrorModel::InvalidDatatype { expected: xsd_date_time_iri(), actual: l.datatype })
    } else {
        match chrono_date_time_reading(l.value) {
            Ok(t) => Ok(date_time_model(t)),
            Err(msg) => Err(LiteralErrorModel::Parse(date_time_parse_message(l.value, msg))),
        }
    }
}

/// How a term reads as a `NaiveDateTime`.
pub open spec fn decode_naive_date_time_term(t: TermModel) -> Result<DateTimeModel, ObjectErrorModel> {
    via_literal(t, |l: LiteralModel| decode_naive_date_time_literal(l))
}

/// How a term reads as a `DateTime`.
pub open spec fn decode_date_time_term(t: TermModel) -> Result<DateTimeModel, ObjectErrorModel> {
    via_literal(t, |l: LiteralModel| decode_date_time_literal(l))
}

impl Date {
    /// The model, as a reading of the date parser gives it.
    pub open spec fn triple_model(&self) -> (int, int, int) {
        (self@.year, self@.month, self@.day)
    }
}

impl ToRdfLiteral for Date {
    /// The `xsd:date` literal `YYYY-MM-DD`.
    fn to_literal(&self) -> (l: LiteralValue)
        ensures
            l@ == date_literal(self@),
    {
        let text = self.to_string();
        let datatype = Iri::new_unchecked("http://www.w3.org/2001/XMLSchema#date".to_owned());
        LiteralValue::new_typed_literal(text, datatype)
    }
}

impl FromRdfLiteral for Date {
    /// Checks the datatype, then reads the lexical form with `chrono`.
    fn from_literal(literal: &LiteralValue) -> (r: Result<Date, RdfLiteralError>)
        ensures
            r matches Ok(v) ==> decode_date_literal(literal@) == Ok::<DateModel, LiteralErrorModel>(v@),
            r matches Err(e) ==> decode_date_literal(literal@) == Err::<DateModel, LiteralErrorModel>(e@),
            forall|d: DateModel|
                #![trigger date_literal(d)]
                is_valid_date(d.year, d.month, d.day) && literal@ == date_literal(d) ==> (r matches Ok(
                    v,
                ) && v@ == d),
    {
        let r = match check_datatype(literal, "http://www.w3.org/2001/XMLSchema#date") {
            Err(e) => Err(e),
            Ok(()) => match Date::parse(literal.value()) {
                Ok(v) => Ok(v),
                Err(msg) => Err(RdfLiteralError::Parse(msg)),
            },
        };
        proof {
            assert forall|d: DateModel|
                #![trigger date_literal(d)]
                is_valid_date(d.year, d.month, d.day) && literal@ == date_literal(d) implies (r matches Ok(
                    v,
                ) && v@ == d) by {
                lemma_canonical_date_text(d.year, d.month, d.day);
            }
        }
        r
    }
}

impl ToRdfObject for Date {
    /// The literal as a term; nothing is added to the graph.
    fn to_term(&self, graph: &mut oxrdf::Graph) -> (t: RdfTerm)
        ensures
            t@ == TermModel::Literal(date_literal(self@)),
            graph_triples(*final(graph)) == graph_triples(*old(graph)),
    {
        RdfTerm::Lit(self.to_literal())
    }
}

impl FromRdfObject for Date {
    open spec fn obeys_from_term_spec() -> bool {
        true
    }

    open spec fn reads_term(triples: Set<TripleModel>, term: TermModel, r: Result<Date, RdfObjectError>) -> bool {
        is_reading(r, decode_date_term(term), |v: Date| v@)
    }

    /// A literal reads through `from_literal`; any other term is refused.
    fn from_term(graph: &oxrdf::Graph, term: &RdfTerm) -> (r: Result<Date, RdfObjectError>)
        ensures
            r matches Ok(v) ==> decode_date_term(term@) == Ok::<DateModel, ObjectErrorModel>(v@),
            r matches Err(e) ==> decode_date_term(term@) == Err::<DateModel, ObjectErrorModel>(e@),
    {
        let literal = literal_of_term(term)?;
        match Date::from_literal(literal) {
            Ok(v) => Ok(v),
            Err(e) => Err(RdfObjectError::Literal(e)),
        }
    }
}

impl ToRdfProperty for Date {
    open spec fn obeys_to_property_spec() -> bool {
        true
    }

    open spec fn writes_property(&self, before: Set<TripleModel>, after: Set<TripleModel>, s: SubjectModel, p: Seq<char>) -> bool {
        after == before.insert(triple(s, p, TermModel::Literal(date_literal(self@))))
    }

    /// Adds `(subject, predicate, literal)`.
    fn to_property(&self, graph: &mut oxrdf::Graph, subject: &Subject, predicate: &Iri)
        ensures
            graph_triples(*final(graph)) == graph_triples(*old(graph)).insert(
                triple(subject@, predicate@, TermModel::Literal(date_literal(self@))),
            ),
    {
        let object = self.to_term(graph);
        insert_object(graph, subject, predicate, object);
    }
}

impl FromRdfProperty for Date {
    /// Reads one object of the property.
    fn from_property(graph: &oxrdf::Graph, subject: &Subject, predicate: &Iri) -> (r: Result<
        Date,
        RdfPropertyError,
    >)
        ensures
            single_reading(
                objects_of(graph_triples(*graph), subject@, predicate@),
                predicate@,
                |o: TermModel| decode_date_term(o),
                match r {
                    Ok(v) => Ok::<DateModel, PropertyErrorModel>(v@),
                    Err(e) => Err(e@),
                },
            ),
    {
        let object = single_object(graph, subject, predicate)?;
        let ghost o = object@;
        let r = match Date::from_term(graph, &object) {
            Ok(v) => Ok(v),
            Err(e) => Err(RdfPropertyError::Object(e)),
        };
        assert(objects_of(graph_triples(*graph), subject@, predicate@).contains(o));
        r
    }
}

impl ConstructibleProperty for Date {
    open spec fn obeys_patterns_spec() -> bool {
        true
    }

    open spec fn patterns_after(
        q: ConstructQueryModel,
        subject_variable: Seq<char>,
        predicate: Seq<char>,
        count: nat,
    ) -> (ConstructQueryModel, nat) {
        property_patterns_after(q, subject_variable, predicate, count)
    }

    /// Adds `?subject <predicate> ?object` with a fresh object variable.
    fn insert_patterns(
        construct_query_patterns: &mut ConstructQueryPatterns,
        variable_generator: &mut SparqlVariableGenerator,
        subject_variable: &str,
        predicate: &Iri,
    )
        ensures
            final(variable_generator).count() == old(variable_generator).count() + 1,
            final(construct_query_patterns)@ == with_identical_triple_pattern(
                old(construct_query_patterns)@,
                property_pattern(
                    subject_variable@,
                    predicate@,
                    base26(final(variable_generator).count()),
                ),
            ),
    {
        let ghost before = construct_query_patterns@.templates;
        insert_property_pattern(construct_query_patterns, variable_generator, subject_variable, predicate);
        assert(construct_query_patterns@.templates.take(before.len() as int) =~= before);
    }
}

/// A date and time of day without time zone (`xsd:dateTime`), as
/// `chrono::NaiveDateTime` holds it.
#[derive(Debug, Clone, Copy, Hash, PartialEq, Eq, PartialOrd, Ord, Structural)]
pub struct NaiveDateTime {
    date: Date,
    hour: u32,
    minute: u32,
    second: u32,
    nanosecond: u32,
}

impl View for NaiveDateTime {
    type V = DateTimeModel;

    closed spec fn view(&self) -> DateTimeModel {
        DateTimeModel {
            date: self.date@,
            hour: self.hour as int,
            minute: self.minute as int,
            second: self.second as int,
            nanosecond: self.nanosecond as int,
        }
    }
}

impl NaiveDateTime {
    #[verifier::type_invariant]
    closed spec fn valid(self) -> bool {
        is_valid_time(self.hour as int, self.minute as int, self.second as int, self.nanosecond as int)
    }

    /// The date `date` at the given time of day.
    pub fn new(date: Date, hour: u32, minute: u32, second: u32, nanosecond: u32) -> (v: NaiveDateTime)
        requires
            is_valid_time(hour as int, minute as int, second as int, nanosecond as int),
        ensures
            v@ == (DateTimeModel {
                date: date@,
                hour: hour as int,
                minute: minute as int,
                second: second as int,
                nanosecond: nanosecond as int,
            }),
    {
        NaiveDateTime { date, hour, minute, second, nanosecond }
    }

    /// The date.
    pub fn date(&self) -> (d: Date)
        ensures
            d@ == self@.date,
    {
        self.date
    }

    /// The hour, 0 to 23.
    pub fn hour(&self) -> (h: u32)
        ensures
            h == self@.hour,
    {
        self.hour
    }

    /// The minute, 0 to 59.
    pub fn minute(&self) -> (m: u32)
        ensures
            m == self@.minute,
    {
        self.minute
    }

    /// The second, 0 to 59.
    pub fn second(&self) -> (s: u32)
        ensures
            s == self@.second,
    {
        self.second
    }

    /// The nanoseconds since the second began; a second or more marks a
    /// leap second.
    pub fn nanosecond(&self) -> (n: u32)
        ensures
            n == self@.nanosecond,
    {
        self.nanosecond
    }

    /// `YYYY-MM-DDThh:mm:ss` (`%Y-%m-%dT%H:%M:%S`); the fraction of the
    /// second is not written.
    pub fn to_string(&self) -> (s: String)
        ensures
            s@ == date_time_text(self@),
    {
        proof {
            use_type_invariant(self);
        }
        let mut s = String::new();
        push_date(&mut s, self.date.year(), self.date.month(), self.date.day());
        push_char(&mut s, 'T');
        push_time(&mut s, self.hour, self.minute, self.second, self.nanosecond);
        assert(s@ =~= date_time_text(self@));
        s
    }

    /// Reads a date and time written `%Y-%m-%dT%H:%M:%S`, with `chrono`'s
    /// parser; on failure, the text of `chrono`'s error.
    pub fn parse(s: &str) -> (r: Result<NaiveDateTime, String>)
        ensures
            chrono_date_time_reading(s@) == match r {
                Ok(v) => Ok::<(int, int, int, int, int, int, int), Seq<char>>(
                    (
                        v@.date.year,
                        v@.date.month,
                        v@.date.day,
                        v@.hour,
                        v@.minute,
                        v@.second,
                        v@.nanosecond,
                    ),
                ),
                Err(e) => Err(e@),
            },
            canonical_date_time(s@) matches Some(c) ==> (r matches Ok(v) && (
                v@.date.year,
                v@.date.month,
                v@.date.day,
                v@.hour,
                v@.minute,
                v@.second,
            ) == c && v@.nanosecond == 0),
    {
        match chrono_parse_date_time(s) {
            Ok((y, m, d, h, mi, sec, nano)) => Ok(
                NaiveDateTime { date: Date::new(y, m, d), hour: h, minute: mi, second: sec, nanosecond: nano },
            ),
            Err(e) => Err(e),
        }
    }
}

impl std::str::FromStr for NaiveDateTime {
    type Err = String;

    /// Reads a date and time written `%Y-%m-%dT%H:%M:%S`, as
    /// `NaiveDateTime::parse` does.
    fn from_str(s: &str) -> (r: Result<NaiveDateTime, String>)
        ensures
            chrono_date_time_reading(s@) == match r {
                Ok(v) => Ok::<(int, int, int, int, int, int, int), Seq<char>>(
                    (
                        v@.date.year,
                        v@.date.month,
                        v@.date.day,
                        v@.hour,
                        v@.minute,
                        v@.second,
                        v@.nanosecond,
                    ),
                ),
                Err(e) => Err(e@),
            },
            canonical_date_time(s@) matches Some(c) ==> (r matches Ok(v) && (
                v@.date.year,
                v@.date.month,
                v@.date.day,
                v@.hour,
                v@.minute,
                v@.second,
            ) == c && v@.nanosecond == 0),
    {
        NaiveDateTime::parse(s)
    }
}

impl ToRdfLiteral for NaiveDateTime {
    /// The `xsd:dateTime` literal `YYYY-MM-DDThh:mm:ss`.
    fn to_literal(&self) -> (l: LiteralValue)
        ensures
            l@ == date_time_literal(self@),
    {
        let text = self.to_string();
        let datatype = Iri::new_unchecked("http://www.w3.org/2001/XMLSchema#dateTime".to_owned());
        LiteralValue::new_typed_literal(text, datatype)
    }
}

impl FromRdfLiteral for NaiveDateTime {
    /// Checks the datatype, then reads the lexical form with `chrono`.
    fn from_literal(literal: &LiteralValue) -> (r: Result<NaiveDateTime, RdfLiteralError>)
        ensures
            r matches Ok(v) ==> decode_naive_date_time_literal(literal@) == Ok::<DateTimeModel, LiteralErrorModel>(v@),
            r matches Err(e) ==> decode_naive_date_time_literal(literal@) == Err::<DateTimeModel, LiteralErrorModel>(e@),
            forall|v: DateTimeModel|
                #![trigger date_time_literal(v)]
                is_valid_date(v.date.year, v.date.month, v.date.day) && is_valid_time(v.hour, v.minute, v.second, 0)
                    && 0 <= v.nanosecond < 1_000_000_000 && literal@ == date_time_literal(v) ==> (r matches Ok(w)
                    && w@ == whole_second(v)),
    {
        let r = match check_datatype(literal, "http://www.w3.org/2001/XMLSchema#dateTime") {
            Err(e) => Err(e),
            Ok(()) => match NaiveDateTime::parse(literal.value()) {
                Ok(v) => Ok(v),
                Err(msg) => Err(RdfLiteralError::Parse(msg)),
            },
        };
        proof {
            assert forall|v: DateTimeModel|
                #![trigger date_time_literal(v)]
                is_valid_date(v.date.year, v.date.month, v.date.day) && is_valid_time(v.hour, v.minute, v.second, 0)
                    && 0 <= v.nanosecond < 1_000_000_000 && literal@ == date_time_literal(v) implies (r matches Ok(w)
                    && w@ == whole_second(v)) by {
                lemma_date_time_text_is_whole_second_text(v);
                lemma_canonical_whole_second_text(v.date.year, v.date.month, v.date.day, v.hour, v.minute, v.second);
            }
        }
        r
    }
}

impl ToRdfObject for NaiveDateTime {
    /// The literal as a term; nothing is added to the graph.
    fn to_term(&self, graph: &mut oxrdf::Graph) -> (t: RdfTerm)
        ensures
            t@ == TermModel::Literal(date_time_literal(self@)),
            graph_triples(*final(graph)) == graph_triples(*old(graph)),
    {
        RdfTerm::Lit(self.to_literal())
    }
}

impl FromRdfObject for NaiveDateTime {
    open spec fn obeys_from_term_spec() -> bool {
        true
    }

    open spec fn reads_term(triples: Set<TripleModel>, term: TermModel, r: Result<NaiveDateTime, RdfObjectError>) -> bool {
        is_reading(r, decode_naive_date_time_term(term), |v: NaiveDateTime| v@)
    }

    /// A literal reads through `from_literal`; any other term is refused.
    fn from_term(graph: &oxrdf::Graph, term: &RdfTerm) -> (r: Result<NaiveDateTime, RdfObjectError>)
        ensures
            r matches Ok(v) ==> decode_naive_date_time_term(term@) == Ok::<DateTimeModel, ObjectErrorModel>(v@),
            r matches Err(e) ==> decode_naive_date_time_term(term@) == Err::<DateTimeModel, ObjectErrorModel>(e@),
    {
        let literal = literal_of_term(term)?;
        match NaiveDateTime::from_literal(literal) {
            Ok(v) => Ok(v),
            Err(e) => Err(RdfObjectError::Literal(e)),
        }
    }
}

impl ToRdfProperty for NaiveDateTime {
    open spec fn obeys_to_property_spec() -> bool {
        true
    }

    open spec fn writes_property(&self, before: Set<TripleModel>, after: Set<TripleModel>, s: SubjectModel, p: Seq<char>) -> bool {
        after == before.insert(triple(s, p, TermModel::Literal(date_time_literal(self@))))
    }

    /// Adds `(subject, predicate, literal)`.
    fn to_property(&self, graph: &mut oxrdf::Graph, subject: &Subject, predicate: &Iri)
        ensures
            graph_triples(*final(graph)) == graph_triples(*old(graph)).insert(
                triple(subject@, predicate@, TermModel::Literal(date_time_literal(self@))),
            ),
    {
        let object = self.to_term(graph);
        insert_object(graph, subject, predicate, object);
    }
}

impl FromRdfProperty for NaiveDateTime {
    /// Reads one object of the property.
    fn from_property(graph: &oxrdf::Graph, subject: &Subject, predicate: &Iri) -> (r: Result<
        NaiveDateTime,
        RdfPropertyError,
    >)
        ensures
            single_reading(
                objects_of(graph_triples(*graph), subject@, predicate@),
                predicate@,
                |o: TermModel| decode_naive_date_time_term(o),
                match r {
                    Ok(v) => Ok::<DateTimeModel, PropertyErrorModel>(v@),
                    Err(e) => Err(e@),
                },
            ),
    {
        let object = single_object(graph, subject, predicate)?;
        let ghost o = object@;
        let r = match NaiveDateTime::from_term(graph, &object) {
            Ok(v) => Ok(v),
            Err(e) => Err(RdfPropertyError::Object(e)),
        };
        assert(objects_of(graph_triples(*graph), subject@, predicate@).contains(o));
        r
    }
}

impl ConstructibleProperty for NaiveDateTime {
    open spec fn obeys_patterns_spec() -> bool {
        true
    }

    open spec fn patterns_after(
        q: ConstructQueryModel,
        subject_variable: Seq<char>,
        predicate: Seq<char>,
        count: nat,
    ) -> (ConstructQueryModel, nat) {
        property_patterns_after(q, subject_variable, predicate, count)
    }

    /// Adds `?subject <predicate> ?object` with a fresh object variable.
    fn insert_patterns(
        construct_query_patterns: &mut ConstructQueryPatterns,
        variable_generator: &mut SparqlVariableGenerator,
        subject_variable: &str,
        predicate: &Iri,
    )
        ensures
            final(variable_generator).count() == old(variable_generator).count() + 1,
            final(construct_query_patterns)@ == with_identical_triple_pattern(
                old(construct_query_patterns)@,
                property_pattern(
                    subject_variable@,
                    predicate@,
                    base26(final(variable_generator).count()),
                ),
            ),
    {
        let ghost before = construct_query_patterns@.templates;
        insert_property_pattern(construct_query_patterns, variable_generator, subject_variable, predicate);
        assert(construct_query_patterns@.templates.take(before.len() as int) =~= before);
    }
}

/// A date and time of day (`xsd:dateTime`) with its own reading of literals,
/// whose parse errors quote the lexical form.
#[derive(Debug)]
pub struct DateTime {
    value: NaiveDateTime,
}

impl View for DateTime {
    type V = DateTimeModel;

    open spec fn view(&self) -> DateTimeModel {
        self.spec_value()@
    }
}

impl DateTime {
    /// The wrapped value.
    pub closed spec fn spec_value(&self) -> NaiveDateTime {
        self.value
    }

    /// Wraps `value`.
    pub fn new(value: NaiveDateTime) -> (v: DateTime)
        ensures
            v.spec_value() == value,
    {
        DateTime { value }
    }

    /// The wrapped value.
    pub fn inner(&self) -> (v: NaiveDateTime)
        ensures
            v == self.spec_value(),
    {
        self.value
    }
}

impl ToRdfLiteral for DateTime {
    /// The `xsd:dateTime` literal `YYYY-MM-DDThh:mm:ss`.
    fn to_literal(&self) -> (l: LiteralValue)
        ensures
            l@ == date_time_literal(self@),
    {
        self.value.to_literal()
    }
}

impl FromRdfLiteral for DateTime {
    /// Checks the datatype, then reads the lexical form with `chrono`; a
    /// form that does not read is reported with the form quoted.
    fn from_literal(literal: &LiteralValue) -> (r: Result<DateTime, RdfLiteralError>)
        ensures
            r matches Ok(v) ==> decode_date_time_literal(literal@) == Ok::<DateTimeModel, LiteralErrorModel>(v@),
            r matches Err(e) ==> decode_date_time_literal(literal@) == Err::<DateTimeModel, LiteralErrorModel>(e@),
            forall|v: DateTimeModel|
                #![trigger date_time_literal(v)]
                is_valid_date(v.date.year, v.date.month, v.date.day) && is_valid_time(v.hour, v.minute, v.second, 0)
                    && 0 <= v.nanosecond < 1_000_000_000 && literal@ == date_time_literal(v) ==> (r matches Ok(w)
                    && w@ == whole_second(v)),
    {
        let r = match check_datatype(literal, "http://www.w3.org/2001/XMLSchema#dateTime") {
            Err(e) => Err(e),
            Ok(()) => match NaiveDateTime::parse(literal.value()) {
                Ok(v) => Ok(DateTime::new(v)),
                Err(msg) => {
                    let mut message = String::new();
                    push_str(&mut message, "Failed to parse '");
                    push_str(&mut message, literal.value());
                    push_str(&mut message, "' as date: ");
                    push_str(&mut message, msg.as_str());
                    assert(message@ =~= date_time_parse_message(literal@.value, msg@));
                    Err(RdfLiteralError::Parse(message))
                },
            },
        };
        proof {
            assert forall|v: DateTimeModel|
                #![trigger date_time_literal(v)]
                is_valid_date(v.date.year, v.date.month, v.date.day) && is_valid_time(v.hour, v.minute, v.second, 0)
                    && 0 <= v.nanosecond < 1_000_000_000 && literal@ == date_time_literal(v) implies (r matches Ok(w)
                    && w@ == whole_second(v)) by {
                lemma_date_time_text_is_whole_second_text(v);
                lemma_canonical_whole_second_text(v.date.year, v.date.month, v.date.day, v.hour, v.minute, v.second);
            }
        }
        r
    }
}

impl ToRdfObject for DateTime {
    /// The literal as a term; nothing is added to the graph.
    fn to_term(&self, graph: &mut oxrdf::Graph) -> (t: RdfTerm)
        ensures
            t@ == TermModel::Literal(date_time_literal(self@)),
            graph_triples(*final(graph)) == graph_triples(*old(graph)),
    {
        RdfTerm::Lit(self.to_literal())
    }
}

impl FromRdfObject for DateTime {
    open spec fn obeys_from_term_spec() -> bool {
        true
    }

    open spec fn reads_term(triples: Set<TripleModel>, term: TermModel, r: Result<DateTime, RdfObjectError>) -> bool {
        is_reading(r, decode_date_time_term(term), |v: DateTime| v@)
    }

    /// A literal reads through `from_literal`; any other term is refused.
    fn from_term(graph: &oxrdf::Graph, term: &RdfTerm) -> (r: Result<DateTime, RdfObjectError>)
        ensures
            r matches Ok(v) ==> decode_date_time_term(term@) == Ok::<DateTimeModel, ObjectErrorModel>(v@),
            r matches Err(e) ==> decode_date_time_term(term@) == Err::<DateTimeModel, ObjectErrorModel>(e@),
    {
        let literal = literal_of_term(term)?;
        match DateTime::from_literal(literal) {
            Ok(v) => Ok(v),
            Err(e) => Err(RdfObjectError::Literal(e)),
        }
    }
}

impl ToRdfProperty for DateTime {
    open spec fn obeys_to_property_spec() -> bool {
        true
    }

    open spec fn writes_property(&self, before: Set<TripleModel>, after: Set<TripleModel>, s: SubjectModel, p: Seq<char>) -> bool {
        after == before.insert(triple(s, p, TermModel::Literal(date_time_literal(self@))))
    }

    /// Adds `(subject, predicate, literal)`.
    fn to_property(&self, graph: &mut oxrdf::Graph, subject: &Subject, predicate: &Iri)
        ensures
            graph_triples(*final(graph)) == graph_triples(*old(graph)).insert(
                triple(subject@, predicate@, TermModel::Literal(date_time_literal(self@))),
            ),
    {
        let object = self.to_term(graph);
        insert_object(graph, subject, predicate, object);
    }
}

impl FromRdfProperty for DateTime {
    /// Reads one object of the property.
    fn from_property(graph: &oxrdf::Graph, subject: &Subject, predicate: &Iri) -> (r: Result<
        DateTime,
        RdfPropertyError,
    >)
        ensures
            single_reading(
                objects_of(graph_triples(*graph), subject@, predicate@),
                predicate@,
                |o: TermModel| decode_date_time_term(o),
                match r {
                    Ok(v) => Ok::<DateTimeModel, PropertyErrorModel>(v@),
                    Err(e) => Err(e@),
                },
            ),
    {
        let object = single_object(graph, subject, predicate)?;
        let ghost o = object@;
        let r = match DateTime::from_term(graph, &object) {
            Ok(v) => Ok(v),
            Err(e) => Err(RdfPropertyError::Object(e)),
        };
        assert(objects_of(graph_triples(*graph), subject@, predicate@).contains(o));
        r
    }
}

proof fn lemma_zero_padded_reads(n: nat, w: nat, hi: int)
    requires
        n <= hi,
    ensures
        scan_digits(zero_padded(n, w), false, 0, hi) == Ok::<int, IntErrorKind>(n as int),
{
    let ds = nat_digits(n);
    if ds.len() < w {
        assert(Seq::new((w - ds.len()) as nat, |i: int| '0') =~= zeros((w - ds.len()) as nat));
        lemma_scan_zeros_then_digits((w - ds.len()) as nat, n, hi);
    } else {
        assert(ds =~= zeros(0) + ds);
        lemma_scan_zeros_then_digits(0, n, hi);
    }
}

proof fn lemma_zero_padded_injective(a: nat, b: nat, w: nat)
    requires
        zero_padded(a, w) == zero_padded(b, w),
    ensures
        a == b,
{
    lemma_zero_padded_reads(a, w, (a + b) as int);
    lemma_zero_padded_reads(b, w, (a + b) as int);
}

proof fn lemma_two_digits_len(n: nat)
    requires
        n < 100,
    ensures
        zero_padded(n, 2).len() == 2,
{
    assert(ten_pow(2) == 100) by {
        reveal_with_fuel(ten_pow, 3);
    }
    lemma_nat_digits_len(n, 2);
    lemma_nat_digits_first(n);
}

proof fn lemma_zero_padded_first(n: nat, w: nat)
    ensures
        zero_padded(n, w).len() > 0,
        is_digit(zero_padded(n, w)[0]),
{
    lemma_nat_digits_first(n);
    let ds = nat_digits(n);
    if ds.len() < w {
        assert(zero_padded(n, w)[0] == '0');
    }
}

proof fn lemma_year_text_injective(a: int, b: int)
    requires
        year_text(a) == year_text(b),
    ensures
        a == b,
{
    let t = year_text(a);
    if 0 <= a <= 9999 {
        lemma_zero_padded_first(a as nat, 4);
    } else if a < 0 {
        lemma_zero_padded_first((-a) as nat, 4);
    } else {
        lemma_zero_padded_first(a as nat, 4);
    }
    if 0 <= b <= 9999 {
        lemma_zero_padded_first(b as nat, 4);
    } else if b < 0 {
        lemma_zero_padded_first((-b) as nat, 4);
    } else {
        lemma_zero_padded_first(b as nat, 4);
    }
    if 0 <= a <= 9999 {
        if 0 <= b <= 9999 {
            lemma_zero_padded_injective(a as nat, b as nat, 4);
        } else {
            assert(is_digit(t[0]));
        }
    } else if a < 0 {
        assert(t[0] == '-');
        if b < 0 {
            assert(t.drop_first() =~= zero_padded((-a) as nat, 4));
            assert(year_text(b).drop_first() =~= zero_padded((-b) as nat, 4));
            lemma_zero_padded_injective((-a) as nat, (-b) as nat, 4);
        }
    } else {
        assert(t[0] == '+');
        if b > 9999 {
            assert(t.drop_first() =~= zero_padded(a as nat, 4));
            assert(year_text(b).drop_first() =~= zero_padded(b as nat, 4));
            lemma_zero_padded_injective(a as nat, b as nat, 4);
        }
    }
}

/// Distinct dates have distinct texts: a date is told by its `%Y-%m-%d`
/// text.
pub proof fn lemma_date_text_injective(y1: int, m1: int, d1: int, y2: int, m2: int, d2: int)
    requires
        is_valid_date(y1, m1, d1),
        is_valid_date(y2, m2, d2),
        date_text(y1, m1, d1) == date_text(y2, m2, d2),
    ensures
        y1 == y2 && m1 == m2 && d1 == d2,
{
    let t = date_text(y1, m1, d1);
    let ya = year_text(y1);
    let yb = year_text(y2);
    lemma_two_digits_len(m1 as nat);
    lemma_two_digits_len(d1 as nat);
    lemma_two_digits_len(m2 as nat);
    lemma_two_digits_len(d2 as nat);
    assert(t.len() == ya.len() + 6);
    assert(date_text(y2, m2, d2).len() == yb.len() + 6);
    assert(ya.len() == yb.len());
    let n = ya.len() as int;
    assert(t.subrange(0, n) =~= ya);
    assert(date_text(y2, m2, d2).subrange(0, n) =~= yb);
    assert(t.subrange(n + 1, n + 3) =~= zero_padded(m1 as nat, 2));
    assert(date_text(y2, m2, d2).subrange(n + 1, n + 3) =~= zero_padded(m2 as nat, 2));
    assert(t.subrange(n + 4, n + 6) =~= zero_padded(d1 as nat, 2));
    assert(date_text(y2, m2, d2).subrange(n + 4, n + 6) =~= zero_padded(d2 as nat, 2));
    lemma_year_text_injective(y1, y2);
    lemma_zero_padded_injective(m1 as nat, m2 as nat, 2);
    lemma_zero_padded_injective(d1 as nat, d2 as nat, 2);
}

/// The text of a date is the text of that date and no other.
pub proof fn lemma_canonical_date_text(y: int, m: int, d: int)
    requires
        is_valid_date(y, m, d),
    ensures
        canonical_date(date_text(y, m, d)) == Some((y, m, d)),
{
    let t = date_text(y, m, d);
    assert(is_valid_date(y, m, d) && t == date_text(y, m, d));
    let c = choose|a: int, b: int, e: int| is_valid_date(a, b, e) && t == #[trigger] date_text(a, b, e);
    lemma_date_text_injective(c.0, c.1, c.2, y, m, d);
}

/// Distinct dates and whole-second times have distinct texts.
pub proof fn lemma_whole_second_text_injective(
    y1: int,
    m1: int,
    d1: int,
    h1: int,
    mi1: int,
    s1: int,
    y2: int,
    m2: int,
    d2: int,
    h2: int,
    mi2: int,
    s2: int,
)
    requires
        is_valid_date(y1, m1, d1),
        is_valid_date(y2, m2, d2),
        is_valid_time(h1, mi1, s1, 0),
        is_valid_time(h2, mi2, s2, 0),
        whole_second_text(y1, m1, d1, h1, mi1, s1) == whole_second_text(y2, m2, d2, h2, mi2, s2),
    ensures
        y1 == y2 && m1 == m2 && d1 == d2 && h1 == h2 && mi1 == mi2 && s1 == s2,
{
    let t = whole_second_text(y1, m1, d1, h1, mi1, s1);
    let u = whole_second_text(y2, m2, d2, h2, mi2, s2);
    lemma_two_digits_len(h1 as nat);
    lemma_two_digits_len(mi1 as nat);
    lemma_two_digits_len(s1 as nat);
    lemma_two_digits_len(h2 as nat);
    lemma_two_digits_len(mi2 as nat);
    lemma_two_digits_len(s2 as nat);
    assert(time_text(h1, mi1, s1, 0) == zero_padded(h1 as nat, 2) + seq![':'] + zero_padded(mi1 as nat, 2)
        + seq![':'] + zero_padded(s1 as nat, 2));
    assert(time_text(h2, mi2, s2, 0) == zero_padded(h2 as nat, 2) + seq![':'] + zero_padded(mi2 as nat, 2)
        + seq![':'] + zero_padded(s2 as nat, 2));
    let da = date_text(y1, m1, d1);
    let db = date_text(y2, m2, d2);
    assert(t.len() == da.len() + 9);
    assert(u.len() == db.len() + 9);
    let n = da.len() as int;
    assert(t.subrange(0, n) =~= da);
    assert(u.subrange(0, n) =~= db);
    lemma_date_text_injective(y1, m1, d1, y2, m2, d2);
    assert(t.subrange(n + 1, n + 3) =~= zero_padded(h1 as nat, 2));
    assert(u.subrange(n + 1, n + 3) =~= zero_padded(h2 as nat, 2));
    assert(t.subrange(n + 4, n + 6) =~= zero_padded(mi1 as nat, 2));
    assert(u.subrange(n + 4, n + 6) =~= zero_padded(mi2 as nat, 2));
    assert(t.subrange(n + 7, n + 9) =~= zero_padded(s1 as nat, 2));
    assert(u.subrange(n + 7, n + 9) =~= zero_padded(s2 as nat, 2));
    lemma_zero_padded_injective(h1 as nat, h2 as nat, 2);
    lemma_zero_padded_injective(mi1 as nat, mi2 as nat, 2);
    lemma_zero_padded_injective(s1 as nat, s2 as nat, 2);
}

/// The text of a date and whole-second time is the text of that value and
/// no other.
pub proof fn lemma_canonical_whole_second_text(y: int, m: int, d: int, h: int, mi: int, s: int)
    requires
        is_valid_date(y, m, d),
        is_valid_time(h, mi, s, 0),
    ensures
        canonical_date_time(whole_second_text(y, m, d, h, mi, s)) == Some((y, m, d, h, mi, s)),
{
    let t = whole_second_text(y, m, d, h, mi, s);
    assert(is_valid_date(y, m, d) && is_valid_time(h, mi, s, 0) && t == whole_second_text(y, m, d, h, mi, s));
    let c = choose|a: int, b: int, e: int, f: int, g: int, k: int|
        is_valid_date(a, b, e) && is_valid_time(f, g, k, 0) && t == #[trigger] whole_second_text(a, b, e, f, g, k);
    lemma_whole_second_text_injective(c.0, c.1, c.2, c.3, c.4, c.5, y, m, d, h, mi, s);
}

/// The text of a date and time that is not a leap second is that of its
/// whole second: the fraction is not written.
pub proof fn lemma_date_time_text_is_whole_second_text(v: DateTimeModel)
    requires
        0 <= v.nanosecond < 1_000_000_000,
    ensures
        date_time_text(v) == whole_second_text(v.date.year, v.date.month, v.date.day, v.hour, v.minute, v.second),
        date_time_text(v) == date_time_text(whole_second(v)),
{
    assert(v.nanosecond / 1_000_000_000 == 0);
}

} // verus!

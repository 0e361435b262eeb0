//! Conversion of Rust values to and from typed RDF literals.

use vstd::prelude::*;

use crate::numeral::{format_int, int_error_message, int_error_text, int_text, parse_int, parse_int_text, lemma_parse_int_text};
use crate::term::{Iri, LiteralModel, LiteralValue, xsd_string, xsd_string_iri};
use crate::text::str_eq;

verus! {

/// The IRI of `xsd:boolean`.
pub open spec fn xsd_boolean_iri() -> Seq<char> {
    "http://www.w3.org/2001/XMLSchema#boolean"@
}

/// The IRI of `xsd:byte`.
pub open spec fn xsd_byte_iri() -> Seq<char> {
    "http://www.w3.org/2001/XMLSchema#byte"@
}

/// The IRI of `xsd:integer`.
pub open spec fn xsd_integer_iri() -> Seq<char> {
    "http://www.w3.org/2001/XMLSchema#integer"@
}

/// The IRI of `xsd:long`.
pub open spec fn xsd_long_iri() -> Seq<char> {
    "http://www.w3.org/2001/XMLSchema#long"@
}

/// The IRI of `xsd:unsignedByte`.
pub open spec fn xsd_unsigned_byte_iri() -> Seq<char> {
    "http://www.w3.org/2001/XMLSchema#unsignedByte"@
}

/// The IRI of `xsd:unsignedInt`.
pub open spec fn xsd_unsigned_int_iri() -> Seq<char> {
    "http://www.w3.org/2001/XMLSchema#unsignedInt"@
}

/// The IRI of `xsd:unsignedLong`.
pub open spec fn xsd_unsigned_long_iri() -> Seq<char> {
    "http://www.w3.org/2001/XMLSchema#unsignedLong"@
}

/// Why a literal could not be read as a value.
#[derive(Debug)]
pub enum RdfLiteralError {
    /// The literal does not have the datatype of the value type.
    InvalidDatatype { expected: String, actual: String },
    /// The lexical form does not parse; the message says why.
    Parse(String),
}

/// Model of `RdfLiteralError`.
pub enum LiteralErrorModel {
    InvalidDatatype { expected: Seq<char>, actual: Seq<char> },
    Parse(Seq<char>),
}

impl View for RdfLiteralError {
    type V = LiteralErrorModel;

    open spec fn view(&self) -> LiteralErrorModel {
        match self {
            RdfLiteralError::InvalidDatatype { expected, actual } => LiteralErrorModel::InvalidDatatype {
                expected: expected@,
                actual: actual@,
            },
            RdfLiteralError::Parse(m) => LiteralErrorModel::Parse(m@),
        }
    }
}

/// A typed literal with lexical form `value` and datatype `datatype`.
pub open spec fn typed_literal(value: Seq<char>, datatype: Seq<char>) -> LiteralModel {
    LiteralModel { value, datatype, language: None }
}

/// The literal for integer `n` with the given datatype.
pub open spec fn int_literal(n: int, datatype: Seq<char>) -> LiteralModel {
    typed_literal(int_text(n), datatype)
}

/// How a literal reads as an integer of range `[lo, hi]` with the given
/// datatype: the datatype must match, then the lexical form must parse.
pub open spec fn decode_int_literal(
    l: LiteralModel,
    datatype: Seq<char>,
    lo: int,
    hi: int,
    signed: bool,
) -> Result<int, LiteralErrorModel> {
    if l.datatype != datatype {
        Err(LiteralErrorModel::InvalidDatatype { expected: datatype, actual: l.datatype })
    } else {
        match parse_int(l.value, lo, hi, signed) {
            Ok(v) => Ok(v),
            Err(k) => Err(LiteralErrorModel::Parse(int_error_message(k))),
        }
    }
}

/// `"true"` or `"false"`.
pub open spec fn bool_text(b: bool) -> Seq<char> {
    if b {
        "true"@
    } else {
        "false"@
    }
}

/// The message of `std::str::ParseBoolError`.
pub open spec fn bool_error_message() -> Seq<char> {
    "provided string was not `true` or `false`"@
}

/// How a literal reads as a `bool`.
pub open spec fn decode_bool_literal(l: LiteralModel) -> Result<bool, LiteralErrorModel> {
    if l.datatype != xsd_boolean_iri() {
        Err(LiteralErrorModel::InvalidDatatype { expected: xsd_boolean_iri(), actual: l.datatype })
    } else if l.value == "true"@ {
        Ok(true)
    } else if l.value == "false"@ {
        Ok(false)
    } else {
        Err(LiteralErrorModel::Parse(bool_error_message()))
    }
}

/// How a literal reads as a `String`.
pub open spec fn decode_string_literal(l: LiteralModel) -> Result<Seq<char>, LiteralErrorModel> {
    if l.datatype != xsd_string_iri() {
        Err(LiteralErrorModel::InvalidDatatype { expected: xsd_string_iri(), actual: l.datatype })
    } else {
        Ok(l.value)
    }
}

/// A value that can be written as an RDF literal.
pub trait ToRdfLiteral {
    /// Converts the value to an RDF literal.
    fn to_literal(&self) -> LiteralValue;
}

/// A value that can be read back from an RDF literal.
pub trait FromRdfLiteral: Sized {
    /// Converts an RDF literal to the value type, if possible.
    fn from_literal(literal: &LiteralValue) -> Result<Self, RdfLiteralError>;
}

/// Checks that `literal` has the datatype `expected`.
pub fn check_datatype(literal: &LiteralValue, expected: &str) -> (r: Result<(), RdfLiteralError>)
    ensures
        r is Ok <==> literal@.datatype == expected@,
        r matches Err(e) ==> e@ == (LiteralErrorModel::InvalidDatatype {
            expected: expected@,
            actual: literal@.datatype,
        }),
{
    let datatype = literal.datatype();
    if str_eq(datatype.as_str(), expected) {
        Ok(())
    } else {
        Err(RdfLiteralError::InvalidDatatype {
            expected: expected.to_owned(),
            actual: datatype.as_str().to_owned(),
        })
    }
}

/// Writes an integer as a literal with the given datatype.
pub fn int_to_literal(n: i128, datatype: &str) -> (l: LiteralValue)
    requires
        -0x8000_0000_0000_0000 <= n <= 0xffff_ffff_ffff_ffff,
    ensures
        l@ == int_literal(n as int, datatype@),
{
    LiteralValue::new_typed_literal(format_int(n), Iri::new_unchecked(datatype.to_owned()))
}

/// Reads an integer of range `[lo, hi]` from a literal with the given datatype.
pub fn int_from_literal(literal: &LiteralValue, datatype: &str, lo: i128, hi: i128, signed: bool) -> (r:
    Result<i128, RdfLiteralError>)
    requires
        -0x8000_0000_0000_0000 <= lo <= 0 <= hi <= 0xffff_ffff_ffff_ffff,
    ensures
        r matches Ok(v) ==> decode_int_literal(literal@, datatype@, lo as int, hi as int, signed)
            == Ok::<int, LiteralErrorModel>(v as int) && lo <= v <= hi,
        r matches Err(e) ==> decode_int_literal(literal@, datatype@, lo as int, hi as int, signed)
            == Err::<int, LiteralErrorModel>(e@),
{
    match check_datatype(literal, datatype) {
        Err(e) => Err(e),
        Ok(()) => match parse_int_text(literal.value(), lo, hi, signed) {
            Ok(v) => Ok(v),
            Err(k) => Err(RdfLiteralError::Parse(int_error_text(k))),
        },
    }
}

impl ToRdfLiteral for i8 {
    fn to_literal(&self) -> (l: LiteralValue)
        ensures
            l@ == int_literal(*self as int, xsd_byte_iri()),
    {
        int_to_literal(*self as i128, "http://www.w3.org/2001/XMLSchema#byte")
    }
}

impl FromRdfLiteral for i8 {
    fn from_literal(literal: &LiteralValue) -> (r: Result<i8, RdfLiteralError>)
        ensures
            r matches Ok(v) ==> decode_int_literal(literal@, xsd_byte_iri(), i8::MIN as int, i8::MAX as int, true)
                == Ok::<int, LiteralErrorModel>(v as int),
            r matches Err(e) ==> decode_int_literal(literal@, xsd_byte_iri(), i8::MIN as int, i8::MAX as int, true)
                == Err::<int, LiteralErrorModel>(e@),
    {
        match int_from_literal(literal, "http://www.w3.org/2001/XMLSchema#byte", i8::MIN as i128, i8::MAX as i128, true) {
            Ok(v) => Ok(v as i8),
            Err(e) => Err(e),
        }
    }
}

impl ToRdfLiteral for i32 {
    fn to_literal(&self) -> (l: LiteralValue)
        ensures
            l@ == int_literal(*self as int, xsd_integer_iri()),
    {
        int_to_literal(*self as i128, "http://www.w3.org/2001/XMLSchema#integer")
    }
}

impl FromRdfLiteral for i32 {
    fn from_literal(literal: &LiteralValue) -> (r: Result<i32, RdfLiteralError>)
        ensures
            r matches Ok(v) ==> decode_int_literal(literal@, xsd_integer_iri(), i32::MIN as int, i32::MAX as int, true)
                == Ok::<int, LiteralErrorModel>(v as int),
            r matches Err(e) ==> decode_int_literal(literal@, xsd_integer_iri(), i32::MIN as int, i32::MAX as int, true)
                == Err::<int, LiteralErrorModel>(e@),
    {
        match int_from_literal(literal, "http://www.w3.org/2001/XMLSchema#integer", i32::MIN as i128, i32::MAX as i128, true) {
            Ok(v) => Ok(v as i32),
            Err(e) => Err(e),
        }
    }
}

impl ToRdfLiteral for i64 {
    fn to_literal(&self) -> (l: LiteralValue)
        ensures
            l@ == int_literal(*self as int, xsd_long_iri()),
    {
        int_to_literal(*self as i128, "http://www.w3.org/2001/XMLSchema#long")
    }
}

impl FromRdfLiteral for i64 {
    fn from_literal(literal: &LiteralValue) -> (r: Result<i64, RdfLiteralError>)
        ensures
            r matches Ok(v) ==> decode_int_literal(literal@, xsd_long_iri(), i64::MIN as int, i64::MAX as int, true)
                == Ok::<int, LiteralErrorModel>(v as int),
            r matches Err(e) ==> decode_int_literal(literal@, xsd_long_iri(), i64::MIN as int, i64::MAX as int, true)
                == Err::<int, LiteralErrorModel>(e@),
    {
        match int_from_literal(literal, "http://www.w3.org/2001/XMLSchema#long", i64::MIN as i128, i64::MAX as i128, true) {
            Ok(v) => Ok(v as i64),
            Err(e) => Err(e),
        }
    }
}

impl ToRdfLiteral for u8 {
    fn to_literal(&self) -> (l: LiteralValue)
        ensures
            l@ == int_literal(*self as int, xsd_unsigned_byte_iri()),
    {
        int_to_literal(*self as i128, "http://www.w3.org/2001/XMLSchema#unsignedByte")
    }
}

impl FromRdfLiteral for u8 {
    fn from_literal(literal: &LiteralValue) -> (r: Result<u8, RdfLiteralError>)
        ensures
            r matches Ok(v) ==> decode_int_literal(literal@, xsd_unsigned_byte_iri(), 0, u8::MAX as int, false)
                == Ok::<int, LiteralErrorModel>(v as int),
            r matches Err(e) ==> decode_int_literal(literal@, xsd_unsigned_byte_iri(), 0, u8::MAX as int, false)
                == Err::<int, LiteralErrorModel>(e@),
    {
        match int_from_literal(literal, "http://www.w3.org/2001/XMLSchema#unsignedByte", 0, u8::MAX as i128, false) {
            Ok(v) => Ok(v as u8),
            Err(e) => Err(e),
        }
    }
}

impl ToRdfLiteral for u32 {
    fn to_literal(&self) -> (l: LiteralValue)
        ensures
            l@ == int_literal(*self as int, xsd_unsigned_int_iri()),
    {
        int_to_literal(*self as i128, "http://www.w3.org/2001/XMLSchema#unsignedInt")
    }
}

impl FromRdfLiteral for u32 {
    fn from_literal(literal: &LiteralValue) -> (r: Result<u32, RdfLiteralError>)
        ensures
            r matches Ok(v) ==> decode_int_literal(literal@, xsd_unsigned_int_iri(), 0, u32::MAX as int, false)
                == Ok::<int, LiteralErrorModel>(v as int),
            r matches Err(e) ==> decode_int_literal(literal@, xsd_unsigned_int_iri(), 0, u32::MAX as int, false)
                == Err::<int, LiteralErrorModel>(e@),
    {
        match int_from_literal(literal, "http://www.w3.org/2001/XMLSchema#unsignedInt", 0, u32::MAX as i128, false) {
            Ok(v) => Ok(v as u32),
            Err(e) => Err(e),
        }
    }
}

impl ToRdfLiteral for u64 {
    fn to_literal(&self) -> (l: LiteralValue)
        ensures
            l@ == int_literal(*self as int, xsd_unsigned_long_iri()),
    {
        int_to_literal(*self as i128, "http://www.w3.org/2001/XMLSchema#unsignedLong")
    }
}

impl FromRdfLiteral for u64 {
    fn from_literal(literal: &LiteralValue) -> (r: Result<u64, RdfLiteralError>)
        ensures
            r matches Ok(v) ==> decode_int_literal(literal@, xsd_unsigned_long_iri(), 0, u64::MAX as int, false)
                == Ok::<int, LiteralErrorModel>(v as int),
            r matches Err(e) ==> decode_int_literal(literal@, xsd_unsigned_long_iri(), 0, u64::MAX as int, false)
                == Err::<int, LiteralErrorModel>(e@),
    {
        match int_from_literal(literal, "http://www.w3.org/2001/XMLSchema#unsignedLong", 0, u64::MAX as i128, false) {
            Ok(v) => Ok(v as u64),
            Err(e) => Err(e),
        }
    }
}

impl ToRdfLiteral for bool {
    fn to_literal(&self) -> (l: LiteralValue)
        ensures
            l@ == typed_literal(bool_text(*self), xsd_boolean_iri()),
    {
        let text = if *self { "true".to_owned() } else { "false".to_owned() };
        LiteralValue::new_typed_literal(text, Iri::new_unchecked("http://www.w3.org/2001/XMLSchema#boolean".to_owned()))
    }
}

impl FromRdfLiteral for bool {
    fn from_literal(literal: &LiteralValue) -> (r: Result<bool, RdfLiteralError>)
        ensures
            r matches Ok(v) ==> decode_bool_literal(literal@) == Ok::<bool, LiteralErrorModel>(v),
            r matches Err(e) ==> decode_bool_literal(literal@) == Err::<bool, LiteralErrorModel>(e@),
    {
        match check_datatype(literal, "http://www.w3.org/2001/XMLSchema#boolean") {
            Err(e) => Err(e),
            Ok(()) => {
                if str_eq(literal.value(), "true") {
                    Ok(true)
                } else if str_eq(literal.value(), "false") {
                    Ok(false)
                } else {
                    Err(RdfLiteralError::Parse("provided string was not `true` or `false`".to_owned()))
                }
            },
        }
    }
}

impl ToRdfLiteral for String {
    fn to_literal(&self) -> (l: LiteralValue)
        ensures
            l@ == typed_literal(self@, xsd_string_iri()),
    {
        LiteralValue::new_typed_literal(self.clone(), xsd_string())
    }
}

impl FromRdfLiteral for String {
    fn from_literal(literal: &LiteralValue) -> (r: Result<String, RdfLiteralError>)
        ensures
            r matches Ok(v) ==> decode_string_literal(literal@) == Ok::<Seq<char>, LiteralErrorModel>(v@),
            r matches Err(e) ==> decode_string_literal(literal@) == Err::<Seq<char>, LiteralErrorModel>(e@),
    {
        let expected = xsd_string();
        match check_datatype(literal, expected.as_str()) {
            Err(e) => Err(e),
            Ok(()) => Ok(literal.value().to_owned()),
        }
    }
}

/// Reading back the literal written for an integer gives the integer again,
/// for every integer type (range `[lo, hi]`) and datatype.
pub proof fn lemma_int_literal_round_trip(n: int, datatype: Seq<char>, lo: int, hi: int, signed: bool)
    requires
        lo <= n <= hi,
        lo <= 0 <= hi,
        signed || lo == 0,
    ensures
        decode_int_literal(int_literal(n, datatype), datatype, lo, hi, signed) == Ok::<
            int,
            LiteralErrorModel,
        >(n),
{
    lemma_parse_int_text(n, lo, hi, signed);
}

/// Reading back the literal written for a `bool` gives the `bool` again.
pub proof fn lemma_bool_literal_round_trip(b: bool)
    ensures
        decode_bool_literal(typed_literal(bool_text(b), xsd_boolean_iri())) == Ok::<
            bool,
            LiteralErrorModel,
        >(b),
{
    reveal_strlit("true");
    reveal_strlit("false");
    assert("true"@.len() != "false"@.len());
}

/// Reading back the literal written for a string gives the string again.
pub proof fn lemma_string_literal_round_trip(s: Seq<char>)
    ensures
        decode_string_literal(typed_literal(s, xsd_string_iri())) == Ok::<
            Seq<char>,
            LiteralErrorModel,
        >(s),
{
}

} // verus!

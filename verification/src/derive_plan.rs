//! The decisions behind the derives of the crate's traits: which `#[rdf(...)]`
//! attributes a struct and its fields must carry, which error is reported
//! when they are wrong, and, when they are right, what the generated code is
//! made of (the struct's `rdf:type`, its subject field, and the predicate of
//! each other field).
//!
//! Reading a Rust item and its attributes, and writing the generated code,
//! is the work of the procedural macros around this module; they hand it
//! what they read as plain values.

use vstd::prelude::*;

verus! {

/// The attributes of a resource struct: `#[rdf(type = "...")]`.
#[derive(Debug)]
pub struct ResourceStructRdfAttributes {
    pub rdf_type: String,
}

/// The attributes of a field of a resource struct: `#[rdf(subject)]` and/or
/// `#[rdf(predicate = "...")]`.
#[derive(Debug)]
pub struct ResourceStructFieldRdfAttributes {
    pub is_subject: bool,
    pub predicate: Option<String>,
}

/// The attributes of a literal struct: `#[rdf(datatype = "...")]`.
#[derive(Debug)]
pub struct LiteralStructRdfAttributes {
    pub datatype: String,
}

/// Model of the attributes of a field.
pub struct FieldAttributesModel {
    pub is_subject: bool,
    pub predicate: Option<Seq<char>>,
}

impl View for ResourceStructFieldRdfAttributes {
    type V = FieldAttributesModel;

    open spec fn view(&self) -> FieldAttributesModel {
        FieldAttributesModel {
            is_subject: self.is_subject,
            predicate: match self.predicate {
                Some(p) => Some(p@),
                None => None,
            },
        }
    }
}

impl View for ResourceStructRdfAttributes {
    type V = Seq<char>;

    open spec fn view(&self) -> Seq<char> {
        self.rdf_type@
    }
}

impl View for LiteralStructRdfAttributes {
    type V = Seq<char>;

    open spec fn view(&self) -> Seq<char> {
        self.datatype@
    }
}

/// How an `#[rdf(...)]` attribute read: absent, present but not of the
/// expected form (with the parser's message), or read.
#[derive(Debug)]
pub enum AttributeReading<T> {
    Missing,
    Malformed(String),
    Read(T),
}

/// Model of an attribute reading.
pub enum AttributeReadingModel<M> {
    Missing,
    Malformed(Seq<char>),
    Read(M),
}

impl<T: View> View for AttributeReading<T> {
    type V = AttributeReadingModel<T::V>;

    open spec fn view(&self) -> AttributeReadingModel<T::V> {
        match self {
            AttributeReading::Missing => AttributeReadingModel::Missing,
            AttributeReading::Malformed(m) => AttributeReadingModel::Malformed(m@),
            AttributeReading::Read(a) => AttributeReadingModel::Read(a@),
        }
    }
}

/// What an error of a derive points at: the item, its `#[rdf(...)]`
/// attribute, a field (by position), or a field's `#[rdf(...)]` attribute.
#[derive(Debug, Clone, Copy, PartialEq, Eq, Structural)]
pub enum ErrorSpan {
    Input,
    RdfAttribute,
    Field(usize),
    FieldRdfAttribute(usize),
}

/// An error of a derive: its message and what it points at.
#[derive(Debug)]
pub struct DeriveError {
    pub message: String,
    pub span: ErrorSpan,
}

/// Model of a derive error.
pub struct DeriveErrorModel {
    pub message: Seq<char>,
    pub span: ErrorSpan,
}

impl View for DeriveError {
    type V = DeriveErrorModel;

    open spec fn view(&self) -> DeriveErrorModel {
        DeriveErrorModel { message: self.message@, span: self.span }
    }
}

/// `<trait> can only be derived for structs`
pub open spec fn structs_only_message(trait_name: Seq<char>) -> Seq<char> {
    trait_name + " can only be derived for structs"@
}

/// The message for a resource struct without `#[rdf(type = "...")]`.
pub open spec fn missing_type_message() -> Seq<char> {
    "Missing required attribute: #[rdf(type = \"...\")]"@
}

/// The message for a field without `#[rdf(...)]`.
pub open spec fn missing_predicate_message() -> Seq<char> {
    "Missing required attribute: #[rdf(predicate = \"...\")]"@
}

/// The message for a literal struct without `#[rdf(datatype = "...")]`.
pub open spec fn missing_datatype_message() -> Seq<char> {
    "Missing required attribute: #[rdf(datatype = \"...\")]"@
}

/// The message for a field marked both as subject and with a predicate.
pub open spec fn subject_and_predicate_message() -> Seq<char> {
    "A field cannot have both #[rdf(subject)] and #[rdf(predicate = \"...\")] attributes"@
}

/// The message for a second field marked as subject.
pub open spec fn second_subject_message() -> Seq<char> {
    "Only one field can have the #[rdf(subject)] attribute"@
}

/// The message for a struct none of whose fields is marked as subject.
pub open spec fn missing_subject_message() -> Seq<char> {
    "Missing required attribute: #[rdf(subject)] on a field"@
}

/// The error `message` pointing at `span`.
pub open spec fn derive_error(message: Seq<char>, span: ErrorSpan) -> DeriveErrorModel {
    DeriveErrorModel { message, span }
}

/// Whether the field's attributes mark it both as subject and with a
/// predicate.
pub open spec fn marks_both(a: FieldAttributesModel) -> bool {
    a.is_subject && a.predicate is Some
}

/// Whether a field before position `k` is marked as subject.
pub open spec fn subject_before(fs: Seq<FieldAttributesModel>, k: int) -> bool {
    exists|j: int| 0 <= j < k && #[trigger] fs[j].is_subject
}

/// Whether the field at position `k` breaks the rules: it is marked both as
/// subject and with a predicate, or it is a second subject.
pub open spec fn field_fault(fs: Seq<FieldAttributesModel>, k: int) -> bool {
    marks_both(fs[k]) || (fs[k].is_subject && subject_before(fs, k))
}

/// Whether `k` is the first position of a field that breaks the rules.
pub open spec fn first_field_fault(fs: Seq<FieldAttributesModel>, k: int) -> bool {
    &&& 0 <= k < fs.len()
    &&& field_fault(fs, k)
    &&& forall|j: int| 0 <= j < k ==> !#[trigger] field_fault(fs, j)
}

/// The error reported for the field at position `k`, when it is the first
/// that breaks the rules.
pub open spec fn field_fault_error(fs: Seq<FieldAttributesModel>, k: int) -> DeriveErrorModel {
    if marks_both(fs[k]) {
        derive_error(subject_and_predicate_message(), ErrorSpan::Field(k as usize))
    } else {
        derive_error(second_subject_message(), ErrorSpan::Field(k as usize))
    }
}

/// Whether the fields' attributes follow the rules: no field breaks them,
/// and one field is the subject.
pub open spec fn fields_valid(fs: Seq<FieldAttributesModel>) -> bool {
    &&& forall|k: int| 0 <= k < fs.len() ==> !#[trigger] field_fault(fs, k)
    &&& subject_before(fs, fs.len() as int)
}

/// Whether `r` is what the validation of `fs` answers: the error of the
/// first field that breaks the rules; else, without a subject field, the
/// missing-subject error; else success.
pub open spec fn validation_answer(fs: Seq<FieldAttributesModel>, r: Result<(), DeriveErrorModel>) -> bool {
    if exists|k: int| #[trigger] first_field_fault(fs, k) {
        exists|k: int| #[trigger] first_field_fault(fs, k) && r == Err::<(), DeriveErrorModel>(field_fault_error(fs, k))
    } else if !subject_before(fs, fs.len() as int) {
        r == Err::<(), DeriveErrorModel>(derive_error(missing_subject_message(), ErrorSpan::Input))
    } else {
        r == Ok::<(), DeriveErrorModel>(())
    }
}

/// The models of a sequence of field attributes.
pub open spec fn field_attribute_models(v: Seq<ResourceStructFieldRdfAttributes>) -> Seq<FieldAttributesModel> {
    v.map_values(|a: ResourceStructFieldRdfAttributes| a@)
}

/// The model of a derive result.
pub open spec fn error_model<T>(r: Result<T, DeriveError>) -> Result<(), DeriveErrorModel> {
    match r {
        Ok(_) => Ok(()),
        Err(e) => Err(e@),
    }
}

/// Whether the faulty positions found so far are none.
proof fn lemma_first_fault_unique(fs: Seq<FieldAttributesModel>, a: int, b: int)
    requires
        first_field_fault(fs, a),
        first_field_fault(fs, b),
    ensures
        a == b,
{
    if a < b {
        assert(!field_fault(fs, a));
    } else if b < a {
        assert(!field_fault(fs, b));
    }
}

/// Checks one field's attributes: a field cannot be both the subject and
/// have a predicate.
pub fn validate_resource_struct_field_rdf_attributes(
    field: usize,
    attributes: &ResourceStructFieldRdfAttributes,
) -> (r: Result<(), DeriveError>)
    ensures
        r is Err <==> marks_both(attributes@),
        r matches Err(e) ==> e@ == derive_error(subject_and_predicate_message(), ErrorSpan::Field(field)),
{
    if attributes.is_subject && attributes.predicate.is_some() {
        return Err(DeriveError {
            message: "A field cannot have both #[rdf(subject)] and #[rdf(predicate = \"...\")] attributes".to_owned(),
            span: ErrorSpan::Field(field),
        });
    }
    Ok(())
}

/// The position of the subject field, after checking every field's
/// attributes in order.
fn subject_field_position(field_attributes: &[ResourceStructFieldRdfAttributes]) -> (r: Result<usize, DeriveError>)
    ensures
        validation_answer(field_attribute_models(field_attributes@), error_model(r)),
        r matches Ok(i) ==> {
            &&& i < field_attributes.len()
            &&& field_attributes@[i as int].is_subject
        },
{
    let ghost fs = field_attribute_models(field_attributes@);
    let mut encountered_subject_field: Option<usize> = None;
    let mut k: usize = 0;
    while k < field_attributes.len()
        invariant
            fs == field_attribute_models(field_attributes@),
            k <= field_attributes.len(),
            forall|j: int| 0 <= j < k ==> !#[trigger] field_fault(fs, j),
            match encountered_subject_field {
                Some(i) => i < k && fs[i as int].is_subject,
                None => !subject_before(fs, k as int),
            },
        decreases field_attributes.len() - k,
    {
        let attributes = &field_attributes[k];
        assert(fs[k as int] == attributes@);
        match validate_resource_struct_field_rdf_attributes(k, attributes) {
            Err(e) => {
                assert(first_field_fault(fs, k as int));
                proof {
                    assert forall|a: int| #[trigger] first_field_fault(fs, a) implies a == k by {
                        lemma_first_fault_unique(fs, a, k as int);
                    }
                }
                return Err(e);
            },
            Ok(()) => {},
        }
        if attributes.is_subject {
            match encountered_subject_field {
                Some(i) => {
                    assert(subject_before(fs, k as int)) by {
                        assert(fs[i as int].is_subject);
                    }
                    assert(first_field_fault(fs, k as int));
                    proof {
                        assert forall|a: int| #[trigger] first_field_fault(fs, a) implies a == k by {
                            lemma_first_fault_unique(fs, a, k as int);
                        }
                    }
                    return Err(DeriveError {
                        message: "Only one field can have the #[rdf(subject)] attribute".to_owned(),
                        span: ErrorSpan::Field(k),
                    });
                },
                None => {
                    encountered_subject_field = Some(k);
                },
            }
        }
        assert(!field_fault(fs, k as int));
        proof {
            match encountered_subject_field {
                Some(i) => {},
                None => {
                    assert forall|j: int| 0 <= j < k + 1 implies !#[trigger] fs[j].is_subject by {
                        if j < k {
                            assert(!subject_before(fs, k as int));
                            if fs[j].is_subject {
                                assert(subject_before(fs, k as int));
                            }
                        }
                    }
                },
            }
        }
        k = k + 1;
    }
    assert(forall|a: int| !#[trigger] first_field_fault(fs, a));
    match encountered_subject_field {
        Some(i) => {
            assert(subject_before(fs, fs.len() as int)) by {
                assert(fs[i as int].is_subject);
            }
            Ok(i)
        },
        None => Err(DeriveError {
            message: "Missing required attribute: #[rdf(subject)] on a field".to_owned(),
            span: ErrorSpan::Input,
        }),
    }
}

/// Checks the attributes of all the fields of a resource struct, in order:
/// the first field marked both as subject and with a predicate, or marked as
/// a second subject, is reported; then a struct without a subject field.
pub fn validate_all_resource_struct_field_rdf_attributes(
    field_attributes: &[ResourceStructFieldRdfAttributes],
) -> (r: Result<(), DeriveError>)
    ensures
        validation_answer(field_attribute_models(field_attributes@), error_model(r)),
        r is Ok <==> fields_valid(field_attribute_models(field_attributes@)),
{
    let ghost fs = field_attribute_models(field_attributes@);
    match subject_field_position(field_attributes) {
        Ok(_) => {
            assert(fields_valid(fs)) by {
                if exists|k: int| 0 <= k < fs.len() && #[trigger] field_fault(fs, k) {
                    let k = choose|k: int| 0 <= k < fs.len() && #[trigger] field_fault(fs, k);
                    lemma_least_fault_exists(fs, k);
                }
            }
            Ok(())
        },
        Err(e) => {
            assert(!fields_valid(fs)) by {
                if fields_valid(fs) {
                    assert(forall|a: int| !#[trigger] first_field_fault(fs, a));
                }
            }
            Err(e)
        },
    }
}

/// Below any faulty position lies a first one.
proof fn lemma_least_fault_exists(fs: Seq<FieldAttributesModel>, k: int)
    requires
        0 <= k < fs.len(),
        field_fault(fs, k),
    ensures
        exists|a: int| #[trigger] first_field_fault(fs, a),
    decreases k,
{
    if exists|j: int| 0 <= j < k && #[trigger] field_fault(fs, j) {
        let j = choose|j: int| 0 <= j < k && #[trigger] field_fault(fs, j);
        lemma_least_fault_exists(fs, j);
    } else {
        assert(first_field_fault(fs, k));
    }
}

/// What a derive for a resource struct reads of the item: whether it is a
/// struct, its `#[rdf(...)]` attribute, and each field's.
#[derive(Debug)]
pub struct ResourceStructInput {
    pub is_struct: bool,
    pub rdf_attribute: AttributeReading<ResourceStructRdfAttributes>,
    pub field_attributes: Vec<AttributeReading<ResourceStructFieldRdfAttributes>>,
}

/// A field that becomes a property: its position and its predicate.
#[derive(Debug)]
pub struct PropertyField {
    pub field: usize,
    pub predicate: String,
}

/// Model of a property field.
pub struct PropertyFieldModel {
    pub field: int,
    pub predicate: Seq<char>,
}

impl View for PropertyField {
    type V = PropertyFieldModel;

    open spec fn view(&self) -> PropertyFieldModel {
        PropertyFieldModel { field: self.field as int, predicate: self.predicate@ }
    }
}

/// What the code generated for a resource struct is made of: its
/// `rdf:type`, the position of its subject field, and its other fields with
/// their predicates, in order.
#[derive(Debug)]
pub struct ResourceStructPlan {
    pub rdf_type: String,
    pub subject_field: usize,
    pub property_fields: Vec<PropertyField>,
}

/// Model of a resource struct plan.
pub struct ResourceStructPlanModel {
    pub rdf_type: Seq<char>,
    pub subject_field: int,
    pub property_fields: Seq<PropertyFieldModel>,
}

impl View for ResourceStructPlan {
    type V = ResourceStructPlanModel;

    open spec fn view(&self) -> ResourceStructPlanModel {
        ResourceStructPlanModel {
            rdf_type: self.rdf_type@,
            subject_field: self.subject_field as int,
            property_fields: self.property_fields@.map_values(|f: PropertyField| f@),
        }
    }
}

/// The fields other than the subject, in order, each with its predicate.
pub open spec fn property_fields_of(fs: Seq<FieldAttributesModel>) -> Seq<PropertyFieldModel>
    decreases fs.len(),
{
    if fs.len() == 0 {
        Seq::empty()
    } else {
        let rest = property_fields_of(fs.drop_last());
        if fs.last().is_subject {
            rest
        } else {
            rest.push(PropertyFieldModel { field: fs.len() - 1, predicate: fs.last().predicate.unwrap() })
        }
    }
}

/// The model of the item as read.
pub open spec fn field_readings(
    v: Seq<AttributeReading<ResourceStructFieldRdfAttributes>>,
) -> Seq<AttributeReadingModel<FieldAttributesModel>> {
    v.map_values(|r: AttributeReading<ResourceStructFieldRdfAttributes>| r@)
}

/// Whether every field's attribute was read.
pub open spec fn all_read(rs: Seq<AttributeReadingModel<FieldAttributesModel>>) -> bool {
    forall|k: int| 0 <= k < rs.len() ==> #[trigger] rs[k] is Read
}

/// Whether `k` is the first field whose attribute was not read.
pub open spec fn first_unread(rs: Seq<AttributeReadingModel<FieldAttributesModel>>, k: int) -> bool {
    &&& 0 <= k < rs.len()
    &&& !(rs[k] is Read)
    &&& forall|j: int| 0 <= j < k ==> #[trigger] rs[j] is Read
}

/// The error for the field at position `k` whose attribute was not read.
pub open spec fn unread_field_error(rs: Seq<AttributeReadingModel<FieldAttributesModel>>, k: int) -> DeriveErrorModel {
    match rs[k] {
        AttributeReadingModel::Malformed(m) => derive_error(m, ErrorSpan::FieldRdfAttribute(k as usize)),
        _ => derive_error(missing_predicate_message(), ErrorSpan::Field(k as usize)),
    }
}

/// The field attributes, once all were read.
pub open spec fn read_attributes(rs: Seq<AttributeReadingModel<FieldAttributesModel>>) -> Seq<FieldAttributesModel> {
    rs.map_values(|r: AttributeReadingModel<FieldAttributesModel>| r->Read_0)
}

/// Whether the derive reaches the making of the plan: the item is a struct,
/// its attribute and all its fields' attributes were read, and they follow
/// the rules.
pub open spec fn reaches_plan(input: ResourceStructInput) -> bool {
    &&& input.is_struct
    &&& input.rdf_attribute@ is Read
    &&& all_read(field_readings(input.field_attributes@))
    &&& fields_valid(read_attributes(field_readings(input.field_attributes@)))
}

/// Whether `r` is what a derive for `trait_name` answers on `input`: the
/// first error met, in this order: not a struct; the struct's attribute
/// missing or malformed; the first field whose attribute is missing or
/// malformed; the validation of the fields' attributes. Else the plan.
pub open spec fn resource_plan_answer(
    trait_name: Seq<char>,
    input: ResourceStructInput,
    r: Result<ResourceStructPlanModel, DeriveErrorModel>,
) -> bool {
    let rs = field_readings(input.field_attributes@);
    if !input.is_struct {
        r == Err::<ResourceStructPlanModel, DeriveErrorModel>(derive_error(structs_only_message(trait_name), ErrorSpan::Input))
    } else if input.rdf_attribute@ is Missing {
        r == Err::<ResourceStructPlanModel, DeriveErrorModel>(derive_error(missing_type_message(), ErrorSpan::Input))
    } else if input.rdf_attribute@ is Malformed {
        r == Err::<ResourceStructPlanModel, DeriveErrorModel>(derive_error(input.rdf_attribute@->Malformed_0, ErrorSpan::RdfAttribute))
    } else if !all_read(rs) {
        exists|k: int| #[trigger] first_unread(rs, k) && r == Err::<ResourceStructPlanModel, DeriveErrorModel>(unread_field_error(rs, k))
    } else {
        let fs = read_attributes(rs);
        if !fields_valid(fs) {
            exists|e: DeriveErrorModel| validation_answer(fs, Err(e)) && r == Err::<ResourceStructPlanModel, DeriveErrorModel>(e)
        } else {
            &&& r is Ok
            &&& r->Ok_0.rdf_type == input.rdf_attribute@->Read_0
            &&& 0 <= r->Ok_0.subject_field < fs.len()
            &&& fs[r->Ok_0.subject_field].is_subject
            &&& r->Ok_0.property_fields == property_fields_of(fs)
        }
    }
}

/// The model of a plan result.
pub open spec fn plan_model(r: Result<ResourceStructPlan, DeriveError>) -> Result<ResourceStructPlanModel, DeriveErrorModel> {
    match r {
        Ok(p) => Ok(p@),
        Err(e) => Err(e@),
    }
}

/// The struct's attribute, or the error for a missing or malformed one.
pub fn read_resource_struct_rdf_attributes(
    reading: AttributeReading<ResourceStructRdfAttributes>,
) -> (r: Result<ResourceStructRdfAttributes, DeriveError>)
    ensures
        match reading@ {
            AttributeReadingModel::Missing => r matches Err(e) && e@ == derive_error(missing_type_message(), ErrorSpan::Input),
            AttributeReadingModel::Malformed(m) => r matches Err(e) && e@ == derive_error(m, ErrorSpan::RdfAttribute),
            AttributeReadingModel::Read(a) => r matches Ok(b) && b@ == a,
        },
{
    match reading {
        AttributeReading::Missing => Err(DeriveError {
            message: "Missing required attribute: #[rdf(type = \"...\")]".to_owned(),
            span: ErrorSpan::Input,
        }),
        AttributeReading::Malformed(m) => Err(DeriveError { message: m, span: ErrorSpan::RdfAttribute }),
        AttributeReading::Read(a) => Ok(a),
    }
}

/// A field's attribute, or the error for a missing or malformed one.
pub fn read_resource_struct_field_rdf_attributes(
    field: usize,
    reading: AttributeReading<ResourceStructFieldRdfAttributes>,
) -> (r: Result<ResourceStructFieldRdfAttributes, DeriveError>)
    ensures
        match reading@ {
            AttributeReadingModel::Missing => r matches Err(e) && e@ == derive_error(missing_predicate_message(), ErrorSpan::Field(field)),
            AttributeReadingModel::Malformed(m) => r matches Err(e) && e@ == derive_error(m, ErrorSpan::FieldRdfAttribute(field)),
            AttributeReadingModel::Read(a) => r matches Ok(b) && b@ == a,
        },
{
    match reading {
        AttributeReading::Missing => Err(DeriveError {
            message: "Missing required attribute: #[rdf(predicate = \"...\")]".to_owned(),
            span: ErrorSpan::Field(field),
        }),
        AttributeReading::Malformed(m) => Err(DeriveError { message: m, span: ErrorSpan::FieldRdfAttribute(field) }),
        AttributeReading::Read(a) => Ok(a),
    }
}

/// A literal struct's attribute, or the error for a missing or malformed
/// one.
pub fn read_literal_struct_rdf_attributes(
    reading: AttributeReading<LiteralStructRdfAttributes>,
) -> (r: Result<LiteralStructRdfAttributes, DeriveError>)
    ensures
        match reading@ {
            AttributeReadingModel::Missing => r matches Err(e) && e@ == derive_error(missing_datatype_message(), ErrorSpan::Input),
            AttributeReadingModel::Malformed(m) => r matches Err(e) && e@ == derive_error(m, ErrorSpan::RdfAttribute),
            AttributeReadingModel::Read(a) => r matches Ok(b) && b@ == a,
        },
{
    match reading {
        AttributeReading::Missing => Err(DeriveError {
            message: "Missing required attribute: #[rdf(datatype = \"...\")]".to_owned(),
            span: ErrorSpan::Input,
        }),
        AttributeReading::Malformed(m) => Err(DeriveError { message: m, span: ErrorSpan::RdfAttribute }),
        AttributeReading::Read(a) => Ok(a),
    }
}

/// `<trait_name> can only be derived for structs`, pointing at the item.
pub fn structs_only_error(trait_name: &str) -> (e: DeriveError)
    ensures
        e@ == derive_error(structs_only_message(trait_name@), ErrorSpan::Input),
{
    let mut message = trait_name.to_owned();
    message.append(" can only be derived for structs");
    DeriveError { message, span: ErrorSpan::Input }
}

/// The fields other than the subject, with their predicates.
fn collect_property_fields(field_attributes: &Vec<ResourceStructFieldRdfAttributes>) -> (r: Vec<PropertyField>)
    requires
        forall|k: int| 0 <= k < field_attributes.len() && !(#[trigger] field_attributes@[k]).is_subject
            ==> field_attributes@[k].predicate is Some,
    ensures
        r@.map_values(|f: PropertyField| f@) == property_fields_of(field_attribute_models(field_attributes@)),
{
    let ghost fs = field_attribute_models(field_attributes@);
    let mut r: Vec<PropertyField> = Vec::new();
    let mut k: usize = 0;
    while k < field_attributes.len()
        invariant
            fs == field_attribute_models(field_attributes@),
            k <= field_attributes.len(),
            forall|j: int| 0 <= j < field_attributes.len() && !(#[trigger] field_attributes@[j]).is_subject
                ==> field_attributes@[j].predicate is Some,
            r@.map_values(|f: PropertyField| f@) == property_fields_of(fs.take(k as int)),
        decreases field_attributes.len() - k,
    {
        let attributes = &field_attributes[k];
        let ghost before = r@;
        proof {
            assert(fs.take(k + 1).drop_last() =~= fs.take(k as int));
            assert(fs.take(k + 1).last() == attributes@);
        }
        if !attributes.is_subject {
            match &attributes.predicate {
                Some(p) => {
                    r.push(PropertyField { field: k, predicate: p.clone() });
                    assert(r@.map_values(|f: PropertyField| f@) =~= before.map_values(|f: PropertyField| f@).push(
                        PropertyFieldModel { field: k as int, predicate: p@ },
                    ));
                },
                None => {},
            }
        }
        k = k + 1;
    }
    assert(fs.take(field_attributes.len() as int) =~= fs);
    r
}

/// Decides the derive of a resource trait named `trait_name` on a struct:
/// the first error met, or the plan of the generated code.
pub fn plan_resource_struct(trait_name: &str, input: &ResourceStructInput) -> (r: Result<ResourceStructPlan, DeriveError>)
    requires
        reaches_plan(*input) ==> forall|k: int|
            0 <= k < input.field_attributes.len() && !(#[trigger] read_attributes(field_readings(input.field_attributes@))[k]).is_subject
                ==> read_attributes(field_readings(input.field_attributes@))[k].predicate is Some,
    ensures
        resource_plan_answer(trait_name@, *input, plan_model(r)),
{
    let ghost rs = field_readings(input.field_attributes@);
    if !input.is_struct {
        return Err(structs_only_error(trait_name));
    }
    let struct_attributes = match &input.rdf_attribute {
        AttributeReading::Missing => {
            return Err(DeriveError {
                message: "Missing required attribute: #[rdf(type = \"...\")]".to_owned(),
                span: ErrorSpan::Input,
            });
        },
        AttributeReading::Malformed(m) => {
            return Err(DeriveError { message: m.clone(), span: ErrorSpan::RdfAttribute });
        },
        AttributeReading::Read(a) => a,
    };
    // read every field's attribute, stopping at the first that was not read
    let mut field_attributes: Vec<ResourceStructFieldRdfAttributes> = Vec::new();
    let mut k: usize = 0;
    while k < input.field_attributes.len()
        invariant
            rs == field_readings(input.field_attributes@),
            input.is_struct,
            input.rdf_attribute@ is Read,
            k <= input.field_attributes.len(),
            forall|j: int| 0 <= j < k ==> #[trigger] rs[j] is Read,
            field_attributes.len() == k,
            forall|j: int| 0 <= j < k ==> #[trigger] field_attributes@[j]@ == rs[j]->Read_0,
        decreases input.field_attributes.len() - k,
    {
        match &input.field_attributes[k] {
            AttributeReading::Missing => {
                assert(first_unread(rs, k as int));
                proof { lemma_first_unread_unique(rs, k as int); }
                return Err(DeriveError {
                    message: "Missing required attribute: #[rdf(predicate = \"...\")]".to_owned(),
                    span: ErrorSpan::Field(k),
                });
            },
            AttributeReading::Malformed(m) => {
                assert(first_unread(rs, k as int));
                proof { lemma_first_unread_unique(rs, k as int); }
                return Err(DeriveError { message: m.clone(), span: ErrorSpan::FieldRdfAttribute(k) });
            },
            AttributeReading::Read(a) => {
                field_attributes.push(a.clone());
            },
        }
        k = k + 1;
    }
    let ghost fs = read_attributes(rs);
    assert(field_attribute_models(field_attributes@) =~= fs);
    let subject_field = match subject_field_position(field_attributes.as_slice()) {
        Ok(i) => i,
        Err(e) => {
            assert(!fields_valid(fs)) by {
                if fields_valid(fs) {
                    assert(forall|a: int| !#[trigger] first_field_fault(fs, a));
                }
            }
            return Err(e);
        },
    };
    assert(fields_valid(fs)) by {
        if exists|j: int| 0 <= j < fs.len() && #[trigger] field_fault(fs, j) {
            let j = choose|j: int| 0 <= j < fs.len() && #[trigger] field_fault(fs, j);
            lemma_least_fault_exists(fs, j);
        }
    }
    assert(reaches_plan(*input));
    assert forall|j: int| 0 <= j < field_attributes.len() && !(#[trigger] field_attributes@[j]).is_subject
        implies field_attributes@[j].predicate is Some by {
        assert(fs[j] == field_attributes@[j]@);
    }
    let property_fields = collect_property_fields(&field_attributes);
    Ok(ResourceStructPlan {
        rdf_type: struct_attributes.rdf_type.clone(),
        subject_field,
        property_fields,
    })
}

proof fn lemma_first_unread_unique(rs: Seq<AttributeReadingModel<FieldAttributesModel>>, k: int)
    requires
        first_unread(rs, k),
    ensures
        forall|a: int| #[trigger] first_unread(rs, a) ==> a == k,
{
    assert forall|a: int| #[trigger] first_unread(rs, a) implies a == k by {
        if a < k {
            assert(rs[a] is Read);
        } else if k < a {
            assert(rs[k] is Read);
        }
    }
}

impl Clone for ResourceStructFieldRdfAttributes {
    fn clone(&self) -> (r: Self)
        ensures
            r@ == self@,
    {
        ResourceStructFieldRdfAttributes {
            is_subject: self.is_subject,
            predicate: match &self.predicate {
                Some(p) => Some(p.clone()),
                None => None,
            },
        }
    }
}

/// What the derive of `RdfLiteral` reads of the item: whether it is a
/// struct, and its `#[rdf(...)]` attribute.
#[derive(Debug)]
pub struct LiteralStructInput {
    pub is_struct: bool,
    pub rdf_attribute: AttributeReading<LiteralStructRdfAttributes>,
}

/// Whether `r` is what the derive of `RdfLiteral` answers on `input`: not a
/// struct; else the attribute missing or malformed; else its datatype.
pub open spec fn literal_plan_answer(input: LiteralStructInput, r: Result<Seq<char>, DeriveErrorModel>) -> bool {
    if !input.is_struct {
        r == Err::<Seq<char>, DeriveErrorModel>(derive_error(structs_only_message("RdfLiteral"@), ErrorSpan::Input))
    } else {
        match input.rdf_attribute@ {
            AttributeReadingModel::Missing => r == Err::<Seq<char>, DeriveErrorModel>(derive_error(missing_datatype_message(), ErrorSpan::Input)),
            AttributeReadingModel::Malformed(m) => r == Err::<Seq<char>, DeriveErrorModel>(derive_error(m, ErrorSpan::RdfAttribute)),
            AttributeReadingModel::Read(d) => r == Ok::<Seq<char>, DeriveErrorModel>(d),
        }
    }
}

/// Decides the derive of `RdfLiteral` on an item: the first error met, or
/// the datatype IRI of the literal.
pub fn plan_literal_struct(input: &LiteralStructInput) -> (r: Result<String, DeriveError>)
    ensures
        literal_plan_answer(
            *input,
            match r {
                Ok(d) => Ok(d@),
                Err(e) => Err(e@),
            },
        ),
{
    if !input.is_struct {
        return Err(structs_only_error("RdfLiteral"));
    }
    match &input.rdf_attribute {
        AttributeReading::Missing => Err(DeriveError {
            message: "Missing required attribute: #[rdf(datatype = \"...\")]".to_owned(),
            span: ErrorSpan::Input,
        }),
        AttributeReading::Malformed(m) => Err(DeriveError { message: m.clone(), span: ErrorSpan::RdfAttribute }),
        AttributeReading::Read(a) => Ok(a.datatype.clone()),
    }
}

proof fn lemma_property_fields_of(fs: Seq<FieldAttributesModel>)
    ensures
        forall|j: int|
            0 <= j < property_fields_of(fs).len() ==> {
                let f = #[trigger] property_fields_of(fs)[j].field;
                &&& 0 <= f < fs.len()
                &&& !fs[f].is_subject
                &&& property_fields_of(fs)[j].predicate == fs[f].predicate.unwrap()
            },
        forall|i: int|
            0 <= i < fs.len() && !(#[trigger] fs[i]).is_subject ==> exists|j: int|
                0 <= j < property_fields_of(fs).len() && #[trigger] property_fields_of(fs)[j].field == i,
    decreases fs.len(),
{
    if fs.len() > 0 {
        let init = fs.drop_last();
        lemma_property_fields_of(init);
        let rest = property_fields_of(init);
        assert forall|i: int| 0 <= i < fs.len() && !(#[trigger] fs[i]).is_subject implies exists|j: int|
            0 <= j < property_fields_of(fs).len() && #[trigger] property_fields_of(fs)[j].field == i by {
            if i < fs.len() - 1 {
                assert(init[i] == fs[i]);
                let j = choose|j: int| 0 <= j < rest.len() && #[trigger] rest[j].field == i;
                assert(property_fields_of(fs)[j] == rest[j]);
            } else {
                assert(property_fields_of(fs)[rest.len() as int].field == i);
            }
        }
        assert forall|j: int| 0 <= j < property_fields_of(fs).len() implies {
            let f = #[trigger] property_fields_of(fs)[j].field;
            &&& 0 <= f < fs.len()
            &&& !fs[f].is_subject
            &&& property_fields_of(fs)[j].predicate == fs[f].predicate.unwrap()
        } by {
            if j < rest.len() {
                assert(property_fields_of(fs)[j] == rest[j]);
                assert(init[rest[j].field] == fs[rest[j].field]);
            }
        }
    }
}

/// In a plan, the fields that become properties are exactly the fields
/// other than the subject, each with its own predicate.
pub proof fn lemma_plan_fields(fs: Seq<FieldAttributesModel>, subject: int)
    requires
        fields_valid(fs),
        0 <= subject < fs.len(),
        fs[subject].is_subject,
    ensures
        forall|j: int|
            0 <= j < property_fields_of(fs).len() ==> {
                let f = #[trigger] property_fields_of(fs)[j].field;
                &&& 0 <= f < fs.len()
                &&& f != subject
                &&& property_fields_of(fs)[j].predicate == fs[f].predicate.unwrap()
            },
        forall|i: int|
            #![trigger fs[i]]
            0 <= i < fs.len() && i != subject ==> !fs[i].is_subject && exists|j: int|
                0 <= j < property_fields_of(fs).len() && #[trigger] property_fields_of(fs)[j].field == i,
{
    lemma_property_fields_of(fs);
    assert forall|i: int| #![trigger fs[i]] 0 <= i < fs.len() && i != subject implies !fs[i].is_subject
        && (exists|j: int| 0 <= j < property_fields_of(fs).len() && #[trigger] property_fields_of(fs)[j].field == i) by {
        if fs[i].is_subject {
            if i < subject {
                assert(subject_before(fs, subject));
                assert(field_fault(fs, subject));
            } else {
                assert(subject_before(fs, i));
                assert(field_fault(fs, i));
            }
        }
        assert(!fs[i].is_subject);
    }
}

} // verus!

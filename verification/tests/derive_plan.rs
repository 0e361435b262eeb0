use rdfreak::derive_plan::{
    plan_literal_struct, plan_resource_struct, validate_all_resource_struct_field_rdf_attributes,
    validate_resource_struct_field_rdf_attributes, AttributeReading, ErrorSpan, LiteralStructInput,
    LiteralStructRdfAttributes, ResourceStructFieldRdfAttributes, ResourceStructInput,
    ResourceStructRdfAttributes,
};

fn subject() -> ResourceStructFieldRdfAttributes {
    ResourceStructFieldRdfAttributes { is_subject: true, predicate: None }
}

fn predicate(p: &str) -> ResourceStructFieldRdfAttributes {
    ResourceStructFieldRdfAttributes { is_subject: false, predicate: Some(p.to_string()) }
}

fn person(type_attribute: AttributeReading<ResourceStructRdfAttributes>) -> ResourceStructInput {
    ResourceStructInput {
        is_struct: true,
        rdf_attribute: type_attribute,
        field_attributes: vec![
            AttributeReading::Read(subject()),
            AttributeReading::Read(predicate("http://example.org/name")),
            AttributeReading::Read(predicate("http://example.org/age")),
        ],
    }
}

fn person_type() -> AttributeReading<ResourceStructRdfAttributes> {
    AttributeReading::Read(ResourceStructRdfAttributes { rdf_type: "http://example.org/Person".to_string() })
}

#[test]
fn test_validate_all_resource_struct_field_rdf_attributes_fails_with_no_subject() {
    // struct Person { #[rdf(predicate = "http://example.com/predicate")] pub id: String }
    let field_rdf_attributes = vec![predicate("http://example.com/predicate")];

    let syn_result = validate_all_resource_struct_field_rdf_attributes(&field_rdf_attributes);

    let syn_err = syn_result.err().unwrap();

    assert_eq!(syn_err.message, "Missing required attribute: #[rdf(subject)] on a field")
}

#[test]
fn test_validate_all_resource_struct_field_rdf_attributes_fails_with_multiple_subjects() {
    let field_rdf_attributes = vec![subject(), subject(), predicate("http://example.com/predicate")];

    let syn_result = validate_all_resource_struct_field_rdf_attributes(&field_rdf_attributes);

    let syn_err = syn_result.err().unwrap();

    assert_eq!(syn_err.message, "Only one field can have the #[rdf(subject)] attribute");
}

#[test]
fn test_validate_all_resource_struct_field_rdf_attributes_fails_with_invalid_field_attributes() {
    // #[rdf(subject, predicate = "http://example.com/predicate")] pub id: String
    let field_rdf_attributes = vec![ResourceStructFieldRdfAttributes {
        is_subject: true,
        predicate: Some("http://example.com/predicate".to_string()),
    }];

    let syn_result = validate_all_resource_struct_field_rdf_attributes(&field_rdf_attributes);

    let syn_err = syn_result.err().unwrap();

    assert_eq!(
        syn_err.message,
        "A field cannot have both #[rdf(subject)] and #[rdf(predicate = \"...\")] attributes"
    );
}

#[test]
fn test_fails_on_non_struct() {
    // enum StopLight { Green, Yellow, Red }
    let input = ResourceStructInput {
        is_struct: false,
        rdf_attribute: AttributeReading::Missing,
        field_attributes: vec![],
    };

    let derive_error = plan_resource_struct("Entity", &input).err().unwrap();

    assert!(derive_error.message.contains("Entity can only be derived for structs"));
}

#[test]
fn test_fails_missing_rdf_attributes() {
    let derive_error = plan_resource_struct("Entity", &person(AttributeReading::Missing)).err().unwrap();

    assert_eq!(derive_error.message, "Missing required attribute: #[rdf(type = \"...\")]");
}

#[test]
fn validation_errors_point_at_the_field() {
    let e = validate_all_resource_struct_field_rdf_attributes(&[subject(), predicate("p"), subject()])
        .err()
        .unwrap();
    assert_eq!(e.span, ErrorSpan::Field(2));
    let e = validate_resource_struct_field_rdf_attributes(4, &ResourceStructFieldRdfAttributes {
        is_subject: true,
        predicate: Some("p".to_string()),
    })
    .err()
    .unwrap();
    assert_eq!(e.span, ErrorSpan::Field(4));
    assert!(validate_resource_struct_field_rdf_attributes(0, &subject()).is_ok());
    assert!(validate_all_resource_struct_field_rdf_attributes(&[predicate("p"), subject()]).is_ok());
}

#[test]
fn plan_of_a_resource_struct() {
    let plan = plan_resource_struct("FromRdf", &person(person_type())).unwrap();
    assert_eq!(plan.rdf_type, "http://example.org/Person");
    assert_eq!(plan.subject_field, 0);
    assert_eq!(plan.property_fields.len(), 2);
    assert_eq!(plan.property_fields[0].field, 1);
    assert_eq!(plan.property_fields[0].predicate, "http://example.org/name");
    assert_eq!(plan.property_fields[1].field, 2);
    assert_eq!(plan.property_fields[1].predicate, "http://example.org/age");
}

#[test]
fn plan_reports_a_malformed_struct_attribute() {
    let e = plan_resource_struct("ToRdf", &person(AttributeReading::Malformed("Unknown field: `kind`".to_string())))
        .err()
        .unwrap();
    assert_eq!(e.message, "Unknown field: `kind`");
    assert_eq!(e.span, ErrorSpan::RdfAttribute);
}

#[test]
fn plan_reports_the_first_field_without_attribute() {
    let mut input = person(person_type());
    input.field_attributes[1] = AttributeReading::Missing;
    input.field_attributes[2] = AttributeReading::Malformed("bad".to_string());
    let e = plan_resource_struct("Constructible", &input).err().unwrap();
    assert_eq!(e.message, "Missing required attribute: #[rdf(predicate = \"...\")]");
    assert_eq!(e.span, ErrorSpan::Field(1));

    let mut input = person(person_type());
    input.field_attributes[2] = AttributeReading::Malformed("bad".to_string());
    let e = plan_resource_struct("Constructible", &input).err().unwrap();
    assert_eq!(e.message, "bad");
    assert_eq!(e.span, ErrorSpan::FieldRdfAttribute(2));
}

#[test]
fn plan_reports_field_validation_last() {
    let mut input = person(person_type());
    input.field_attributes.push(AttributeReading::Read(subject()));
    let e = plan_resource_struct("Entity", &input).err().unwrap();
    assert_eq!(e.message, "Only one field can have the #[rdf(subject)] attribute");
    assert_eq!(e.span, ErrorSpan::Field(3));
}

#[test]
fn plan_of_a_literal_struct() {
    let input = LiteralStructInput {
        is_struct: true,
        rdf_attribute: AttributeReading::Read(LiteralStructRdfAttributes {
            datatype: "http://www.w3.org/2001/XMLSchema#date".to_string(),
        }),
    };
    assert_eq!(plan_literal_struct(&input).unwrap(), "http://www.w3.org/2001/XMLSchema#date");

    let input = LiteralStructInput { is_struct: true, rdf_attribute: AttributeReading::Missing };
    let e = plan_literal_struct(&input).err().unwrap();
    assert_eq!(e.message, "Missing required attribute: #[rdf(datatype = \"...\")]");

    let input = LiteralStructInput { is_struct: false, rdf_attribute: AttributeReading::Missing };
    let e = plan_literal_struct(&input).err().unwrap();
    assert_eq!(e.message, "RdfLiteral can only be derived for structs");
    assert_eq!(e.span, ErrorSpan::Input);
}

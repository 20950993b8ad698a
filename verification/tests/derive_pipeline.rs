use spaceship::{
    Attr, AttrField, EnumDecl, ExtractError, FieldValue, GenericParam, Generics, VariantDecl,
    err_response_derive_macro2, extract_variants_data, generate_impl, render_impl,
};

fn no_generics() -> Generics {
    Generics { params: Vec::new(), where_predicates: Vec::new() }
}

fn plain_variant(name: &str) -> VariantDecl {
    VariantDecl { identifier: String::from(name), attrs: Vec::new() }
}

fn err_attr(fields: Vec<AttrField>) -> Attr {
    Attr { path: String::from("err"), fields }
}

fn annotated_variant(name: &str, fields: Vec<AttrField>) -> VariantDecl {
    VariantDecl { identifier: String::from(name), attrs: vec![err_attr(fields)] }
}

fn status_field(status: i64) -> AttrField {
    AttrField { name: String::from("status"), value: FieldValue::Int(status) }
}

fn message_field(message: &str) -> AttrField {
    AttrField { name: String::from("message"), value: FieldValue::Text(String::from(message)) }
}

fn decl_of(variants: Vec<VariantDecl>) -> EnumDecl {
    EnumDecl { name: String::from("RegisterError"), generics: no_generics(), variants }
}

#[test]
fn unannotated_variant_resolves_to_defaults() {
    let decl = decl_of(vec![plain_variant("Unknown")]);
    let (norms, _) = extract_variants_data(decl).unwrap();
    assert_eq!(norms.len(), 1);
    assert_eq!(norms[0].identifier, "Unknown");
    assert_eq!(norms[0].status, 500);
    assert_eq!(norms[0].message, "Internal server error");
}

#[test]
fn explicit_annotation_resolves_exactly() {
    let decl = decl_of(vec![annotated_variant("Bad", vec![status_field(400), message_field("X")])]);
    let (norms, _) = extract_variants_data(decl).unwrap();
    assert_eq!(norms.len(), 1);
    assert_eq!(norms[0].identifier, "Bad");
    assert_eq!(norms[0].status, 400);
    assert_eq!(norms[0].message, "X");
}

#[test]
fn status_only_defaults_message() {
    let decl = decl_of(vec![annotated_variant("Bad", vec![status_field(404)])]);
    let (norms, _) = extract_variants_data(decl).unwrap();
    assert_eq!(norms[0].status, 404);
    assert_eq!(norms[0].message, "Internal server error");
}

#[test]
fn message_only_defaults_status() {
    let decl = decl_of(vec![annotated_variant("Bad", vec![message_field("nope")])]);
    let (norms, _) = extract_variants_data(decl).unwrap();
    assert_eq!(norms[0].status, 500);
    assert_eq!(norms[0].message, "nope");
}

#[test]
fn unrecognized_field_is_rejected() {
    let foo = AttrField { name: String::from("foo"), value: FieldValue::Int(1) };
    let decl = decl_of(vec![annotated_variant("Oops", vec![foo])]);
    match extract_variants_data(decl) {
        Err(ExtractError::UnrecognizedField { variant, field }) => {
            assert_eq!(variant, "Oops");
            assert_eq!(field, "foo");
        },
        _ => panic!("an unrecognized annotation field must fail extraction"),
    }
}

#[test]
fn duplicate_field_is_rejected() {
    let decl = decl_of(vec![annotated_variant("Twice", vec![status_field(400), status_field(401)])]);
    match extract_variants_data(decl) {
        Err(ExtractError::DuplicateField { variant, field }) => {
            assert_eq!(variant, "Twice");
            assert_eq!(field, "status");
        },
        _ => panic!("a duplicated annotation field must fail extraction"),
    }
}

#[test]
fn negative_status_is_rejected() {
    let decl = decl_of(vec![annotated_variant("Neg", vec![status_field(-1)])]);
    match extract_variants_data(decl) {
        Err(ExtractError::InvalidStatus { variant }) => assert_eq!(variant, "Neg"),
        _ => panic!("a negative status must fail extraction"),
    }
}

#[test]
fn textual_status_is_rejected() {
    let bad = AttrField { name: String::from("status"), value: FieldValue::Text(String::from("ok")) };
    let decl = decl_of(vec![annotated_variant("Texty", vec![bad])]);
    match extract_variants_data(decl) {
        Err(ExtractError::InvalidStatus { variant }) => assert_eq!(variant, "Texty"),
        _ => panic!("a non-numeric status must fail extraction"),
    }
}

#[test]
fn numeric_message_is_rejected() {
    let bad = AttrField { name: String::from("message"), value: FieldValue::Int(7) };
    let decl = decl_of(vec![annotated_variant("Numy", vec![bad])]);
    match extract_variants_data(decl) {
        Err(ExtractError::InvalidMessage { variant }) => assert_eq!(variant, "Numy"),
        _ => panic!("a non-text message must fail extraction"),
    }
}

#[test]
fn extraction_preserves_order_and_count() {
    let decl = decl_of(vec![
        plain_variant("A"),
        annotated_variant("B", vec![status_field(404)]),
        plain_variant("C"),
    ]);
    let (norms, _) = extract_variants_data(decl).unwrap();
    assert_eq!(norms.len(), 3);
    assert_eq!(norms[0].identifier, "A");
    assert_eq!(norms[1].identifier, "B");
    assert_eq!(norms[2].identifier, "C");
}

#[test]
fn extraction_strips_err_attributes_and_keeps_others() {
    let other = Attr { path: String::from("doc"), fields: Vec::new() };
    let variant = VariantDecl {
        identifier: String::from("A"),
        attrs: vec![err_attr(vec![status_field(400)]), other],
    };
    let decl = decl_of(vec![variant]);
    let (_, stripped) = extract_variants_data(decl).unwrap();
    assert_eq!(stripped.variants.len(), 1);
    assert_eq!(stripped.variants[0].attrs.len(), 1);
    assert_eq!(stripped.variants[0].attrs[0].path, "doc");
}

#[test]
fn generated_text_for_simple_enum_is_exact() {
    let decl = EnumDecl {
        name: String::from("Foo"),
        generics: no_generics(),
        variants: vec![plain_variant("A")],
    };
    let text = err_response_derive_macro2(decl).unwrap();
    let expected = "impl spaceship::axum::response::IntoResponse for Foo { fn into_response(self) -> spaceship::axum::response::Response { let (status, error_message) = match self { A => (spaceship::axum::http::StatusCode::from_u16(500).unwrap(), \"Internal server error\") }; let body = spaceship::axum::Json(spaceship::errors::ErrorResponseBody { error: error_message.to_string() }); (status, body).into_response() } }";
    assert_eq!(text, expected);
}

#[test]
fn generation_is_deterministic() {
    let make = || {
        decl_of(vec![
            annotated_variant("NameTaken", vec![status_field(400), message_field("taken")]),
            plain_variant("Other"),
        ])
    };
    let first = err_response_derive_macro2(make()).unwrap();
    let second = err_response_derive_macro2(make()).unwrap();
    assert_eq!(first, second);
}

#[test]
fn generic_signature_is_mirrored_exactly() {
    let generics = Generics {
        params: vec![GenericParam::Type { name: String::from("T"), bounds: Vec::new() }],
        where_predicates: vec![String::from("T: Clone")],
    };
    let decl = EnumDecl {
        name: String::from("Wrapper"),
        generics,
        variants: vec![plain_variant("A")],
    };
    let text = err_response_derive_macro2(decl).unwrap();
    assert!(text.starts_with("impl<T> spaceship::axum::response::IntoResponse for Wrapper<T> where T: Clone {"));
    let expected = "impl<T> spaceship::axum::response::IntoResponse for Wrapper<T> where T: Clone { fn into_response(self) -> spaceship::axum::response::Response { let (status, error_message) = match self { A => (spaceship::axum::http::StatusCode::from_u16(500).unwrap(), \"Internal server error\") }; let body = spaceship::axum::Json(spaceship::errors::ErrorResponseBody { error: error_message.to_string() }); (status, body).into_response() } }";
    assert_eq!(text, expected);
}

#[test]
fn lifetime_bound_and_const_params_render() {
    let generics = Generics {
        params: vec![
            GenericParam::Lifetime { name: String::from("a") },
            GenericParam::Type {
                name: String::from("T"),
                bounds: vec![String::from("Clone"), String::from("Send")],
            },
            GenericParam::Const { name: String::from("N"), ty: String::from("usize") },
        ],
        where_predicates: Vec::new(),
    };
    let decl = EnumDecl {
        name: String::from("Many"),
        generics,
        variants: vec![plain_variant("A")],
    };
    let text = err_response_derive_macro2(decl).unwrap();
    assert!(text.starts_with(
        "impl<'a, T: Clone + Send, const N: usize> spaceship::axum::response::IntoResponse for Many<'a, T, N> {"
    ));
}

#[test]
fn generated_match_has_one_arm_per_variant() {
    let decl = decl_of(vec![plain_variant("A"), plain_variant("B"), plain_variant("C")]);
    let (norms, stripped) = extract_variants_data(decl).unwrap();
    let generated = generate_impl(stripped.name, stripped.generics, norms);
    assert_eq!(generated.arms.len(), 3);
    assert_eq!(generated.arms[0].identifier, "A");
    assert_eq!(generated.arms[1].identifier, "B");
    assert_eq!(generated.arms[2].identifier, "C");
    let text = render_impl(&generated);
    assert_eq!(text.matches(" => ").count(), 3);
}

#[test]
fn empty_enum_generates_empty_match() {
    let decl = decl_of(Vec::new());
    let (norms, stripped) = extract_variants_data(decl).unwrap();
    assert_eq!(norms.len(), 0);
    let generated = generate_impl(stripped.name, stripped.generics, norms);
    let text = render_impl(&generated);
    assert!(text.contains("match self {  }"));
}

#[test]
fn message_with_quotes_is_escaped_in_generated_literal() {
    let decl = decl_of(vec![annotated_variant(
        "Quoty",
        vec![message_field("a \"b\" \\ c")],
    )]);
    let text = err_response_derive_macro2(decl).unwrap();
    assert!(text.contains("\"a \\\"b\\\" \\\\ c\""));
}

use spaceship::{
    Attr, AttrField, EnumDecl, ErrorResponseBody, Failure, FieldValue, Generics, HandlerResult,
    LazyChangeStatus, Pessoa, StoreErr, Storeable, VariantDecl, encode_record,
    extract_variants_data, find_record, generate_impl, get_user, handler, new_record, row_parts,
};

fn annotated(name: &str, status: i64, message: &str) -> VariantDecl {
    VariantDecl {
        identifier: String::from(name),
        attrs: vec![Attr {
            path: String::from("err"),
            fields: vec![
                AttrField { name: String::from("status"), value: FieldValue::Int(status) },
                AttrField {
                    name: String::from("message"),
                    value: FieldValue::Text(String::from(message)),
                },
            ],
        }],
    }
}

fn decl_of(variants: Vec<VariantDecl>) -> EnumDecl {
    EnumDecl {
        name: String::from("RegisterError"),
        generics: Generics { params: Vec::new(), where_predicates: Vec::new() },
        variants,
    }
}

#[test]
fn registration_errors_convert_to_their_pairs() {
    let decl = decl_of(vec![
        annotated("NameTaken", 400, "This name is already taken"),
        annotated(
            "UsernameTooShort",
            400,
            "This username is too short. Use at least 8 characters.",
        ),
    ]);
    let (norms, stripped) = extract_variants_data(decl).unwrap();
    let generated = generate_impl(stripped.name, stripped.generics, norms);

    let (status, body) = generated.respond("NameTaken").unwrap();
    assert_eq!(status, 400);
    assert_eq!(body.error, "This name is already taken");
    assert_eq!(body.to_json(), "{\"error\":\"This name is already taken\"}");

    let (status, body) = generated.respond("UsernameTooShort").unwrap();
    assert_eq!(status, 400);
    assert_eq!(body.error, "This username is too short. Use at least 8 characters.");
    assert_eq!(
        body.to_json(),
        "{\"error\":\"This username is too short. Use at least 8 characters.\"}"
    );
}

#[test]
fn unannotated_variant_converts_to_500_body() {
    let decl = decl_of(vec![VariantDecl { identifier: String::from("Boom"), attrs: Vec::new() }]);
    let (norms, stripped) = extract_variants_data(decl).unwrap();
    let generated = generate_impl(stripped.name, stripped.generics, norms);
    let (status, body) = generated.respond("Boom").unwrap();
    assert_eq!(status, 500);
    assert_eq!(body.to_json(), "{\"error\":\"Internal server error\"}");
}

#[test]
fn respond_on_unknown_identifier_is_none() {
    let decl = decl_of(vec![annotated("Known", 400, "known")]);
    let (norms, stripped) = extract_variants_data(decl).unwrap();
    let generated = generate_impl(stripped.name, stripped.generics, norms);
    assert!(generated.respond("Unknown").is_none());
}

#[test]
fn body_json_escapes_quotes_and_backslashes() {
    let body = ErrorResponseBody::new(String::from("a \"b\" \\ c"));
    assert_eq!(body.to_json(), "{\"error\":\"a \\\"b\\\" \\\\ c\"}");
}

#[test]
fn failure_defaults_to_status_500() {
    let failure = Failure::new(String::from("db down"));
    let (status, body) = failure.into_response_parts();
    assert_eq!(status, 500);
    assert_eq!(body.error, "Something went wrong: db down");
}

#[test]
fn failure_status_can_be_overridden() {
    let result: HandlerResult<()> = Err(Failure::new(String::from("not yours")));
    let overridden = result.status(403);
    match overridden {
        Err(failure) => {
            let (status, body) = failure.into_response_parts();
            assert_eq!(status, 403);
            assert_eq!(body.error, "Something went wrong: not yours");
        },
        Ok(_) => panic!("overriding a failure's status must keep the failure"),
    }
}

#[test]
fn handler_succeeds_when_user_is_present() {
    assert!(get_user().is_ok());
    assert!(handler().is_ok());
}

#[test]
fn pessoa_stores_nothing_yet() {
    let pessoa = Pessoa::new(String::from("Baltazar"));
    assert_eq!(pessoa.nome, "Baltazar");
    assert!(matches!(pessoa.store(), Err(StoreErr::UnknownError)));
}

#[test]
fn record_line_is_id_delimiter_data() {
    assert_eq!(encode_record("j02Knb5", "Baltazar"), "j02Knb5%%%Baltazar");
}

#[test]
fn new_record_draws_seven_alphanumeric_characters() {
    let (id, line) = new_record("Baltazar");
    assert_eq!(id.len(), 7);
    assert!(id.chars().all(|c| c.is_ascii_alphanumeric()));
    let mut expected = id.clone();
    expected.push_str("%%%Baltazar");
    assert_eq!(line, expected);
}

#[test]
fn row_parts_splits_on_first_delimiter() {
    let (key, val) = row_parts("abc%%%def");
    assert_eq!(key, "abc");
    assert_eq!(val.unwrap(), "def");
}

#[test]
fn row_parts_keeps_middle_segment_only() {
    let (key, val) = row_parts("k%%%v%%%w");
    assert_eq!(key, "k");
    assert_eq!(val.unwrap(), "v");
}

#[test]
fn row_without_delimiter_has_no_value() {
    let (key, val) = row_parts("loose line");
    assert_eq!(key, "loose line");
    assert!(val.is_none());
}

#[test]
fn find_record_returns_first_matching_row() {
    let rows = vec![
        String::from("aaa%%%first"),
        String::from("j02Knb5%%%Baltazar"),
        String::from("j02Knb5%%%shadowed"),
    ];
    assert_eq!(find_record(&rows, "j02Knb5").unwrap(), "Baltazar");
    assert_eq!(find_record(&rows, "aaa").unwrap(), "first");
}

#[test]
fn find_record_misses_absent_id() {
    let rows = vec![String::from("aaa%%%first")];
    assert!(find_record(&rows, "zzz").is_none());
}

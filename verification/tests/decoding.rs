use mtgapi_client::api::envelope::{
    entity_envelope, list_envelope, names_envelope, settle, DecodeFailure, ResponseEnvelope,
};
use mtgapi_client::api::error::MtgApiErrorKind;
use mtgapi_client::api::json::{find_field, parse_body, JsonField, JsonValue};
use mtgapi_client::api::util::{
    retrieve_card_from_body, retrieve_cards_from_body, retrieve_formats_from_body,
    retrieve_set_from_body, retrieve_sets_from_body, retrieve_subtypes_from_body,
    retrieve_supertypes_from_body, retrieve_types_from_body,
};

fn text(s: &str) -> JsonValue {
    JsonValue::Text(s.to_string())
}

fn field(name: &str, value: JsonValue) -> JsonField {
    JsonField { name: name.to_string(), value }
}

fn object(fields: Vec<JsonField>) -> JsonValue {
    JsonValue::Object(fields)
}

fn read(body: &str) -> JsonValue {
    parse_body(body).expect("the body is JSON")
}

#[test]
fn parse_body_reads_every_kind_of_value() {
    assert_eq!(parse_body("null"), Some(JsonValue::Null));
    assert_eq!(parse_body("true"), Some(JsonValue::Bool(true)));
    assert_eq!(parse_body("false"), Some(JsonValue::Bool(false)));
    assert_eq!(parse_body("42"), Some(JsonValue::Number("42".to_string())));
    assert_eq!(parse_body("-7"), Some(JsonValue::Number("-7".to_string())));
    assert_eq!(parse_body("2.5"), Some(JsonValue::Number("2.5".to_string())));
    assert_eq!(parse_body("\"a b\""), Some(text("a b")));
    assert_eq!(
        parse_body("[1, \"x\", null]"),
        Some(JsonValue::List(vec![JsonValue::Number("1".to_string()), text("x"), JsonValue::Null]))
    );
    assert_eq!(
        parse_body("{\"a\": {\"b\": []}}"),
        Some(object(vec![field("a", object(vec![field("b", JsonValue::List(vec![]))]))]))
    );
}

#[test]
fn parse_body_refuses_what_is_not_json() {
    assert_eq!(parse_body(""), None);
    assert_eq!(parse_body("{"), None);
    assert_eq!(parse_body("{\"cards\": [}"), None);
    assert_eq!(parse_body("<html></html>"), None);
    assert_eq!(parse_body("{} trailing"), None);
}

#[test]
fn parse_body_keeps_every_field_of_an_object() {
    let doc = read("{\"status\": \"503\", \"error\": \"boom\"}");
    match doc {
        JsonValue::Object(fields) => {
            assert_eq!(fields.len(), 2);
            let error = find_field(&fields, "error").expect("the field is there");
            let status = find_field(&fields, "status").expect("the field is there");
            assert_eq!(fields[error].value, text("boom"));
            assert_eq!(fields[status].value, text("503"));
            assert_eq!(find_field(&fields, "cards"), None);
        }
        other => panic!("not an object: {:?}", other),
    }
}

#[test]
fn find_field_takes_the_first_of_two() {
    let fields = vec![field("a", text("1")), field("b", text("2")), field("a", text("3"))];
    assert_eq!(find_field(&fields, "a"), Some(0));
    assert_eq!(find_field(&fields, "b"), Some(1));
    assert_eq!(find_field(&fields, "c"), None);
    assert_eq!(find_field(&vec![], "a"), None);
}

#[test]
fn error_with_status_is_a_service_error() {
    let doc = read("{\"error\":\"boom\",\"status\":\"503\"}");
    assert_eq!(
        list_envelope(doc, "cards"),
        Ok(ResponseEnvelope::ServiceError {
            message: "boom".to_string(),
            status: Some("503".to_string())
        })
    );
}

#[test]
fn error_without_status_is_a_service_error() {
    let doc = read("{\"error\":\"boom\"}");
    assert_eq!(
        list_envelope(doc, "cards"),
        Ok(ResponseEnvelope::ServiceError { message: "boom".to_string(), status: None })
    );
}

#[test]
fn error_with_a_numeric_or_null_status() {
    assert_eq!(
        entity_envelope(read("{\"error\":\"boom\",\"status\":404}"), "card"),
        Ok(ResponseEnvelope::ServiceError {
            message: "boom".to_string(),
            status: Some("404".to_string())
        })
    );
    assert_eq!(
        entity_envelope(read("{\"error\":\"boom\",\"status\":null}"), "card"),
        Ok(ResponseEnvelope::ServiceError { message: "boom".to_string(), status: None })
    );
    assert_eq!(
        entity_envelope(read("{\"error\":\"boom\",\"status\":[503]}"), "card"),
        Err(DecodeFailure::Malformed)
    );
}

#[test]
fn the_error_field_decides_whatever_else_is_there() {
    let doc = read("{\"cards\":[],\"error\":\"boom\"}");
    assert_eq!(
        list_envelope(doc, "cards"),
        Ok(ResponseEnvelope::ServiceError { message: "boom".to_string(), status: None })
    );
    let doc = object(vec![field("cards", JsonValue::List(vec![])), field("error", text("late"))]);
    assert_eq!(
        list_envelope(doc, "cards"),
        Ok(ResponseEnvelope::ServiceError { message: "late".to_string(), status: None })
    );
}

#[test]
fn an_error_that_is_no_string_is_malformed() {
    assert_eq!(list_envelope(read("{\"error\":null}"), "cards"), Err(DecodeFailure::Malformed));
    assert_eq!(list_envelope(read("{\"error\":5}"), "cards"), Err(DecodeFailure::Malformed));
    assert_eq!(
        entity_envelope(read("{\"error\":{\"message\":\"x\"}}"), "set"),
        Err(DecodeFailure::Malformed)
    );
}

#[test]
fn an_empty_list_is_content() {
    assert_eq!(
        list_envelope(read("{\"cards\":[]}"), "cards"),
        Ok(ResponseEnvelope::Success(vec![]))
    );
    assert_eq!(retrieve_cards_from_body("{\"cards\":[]}"), Ok(vec![]));
    assert_eq!(retrieve_sets_from_body("{\"sets\":[]}"), Ok(vec![]));
    assert_eq!(retrieve_types_from_body("{\"types\":[]}"), Ok(vec![]));
}

#[test]
fn a_list_keeps_its_items_in_order() {
    let res = retrieve_cards_from_body("{\"cards\":[{\"name\":\"Shock\"},{\"name\":\"Opt\"}]}");
    assert_eq!(
        res,
        Ok(vec![
            object(vec![field("name", text("Shock"))]),
            object(vec![field("name", text("Opt"))]),
        ])
    );
}

#[test]
fn other_fields_are_passed_over() {
    assert_eq!(
        list_envelope(read("{\"extra\":1,\"cards\":[true]}"), "cards"),
        Ok(ResponseEnvelope::Success(vec![JsonValue::Bool(true)]))
    );
}

#[test]
fn a_collection_without_its_list_is_malformed() {
    assert_eq!(list_envelope(read("{}"), "cards"), Err(DecodeFailure::Malformed));
    assert_eq!(list_envelope(read("{\"cards\":null}"), "cards"), Err(DecodeFailure::Malformed));
    assert_eq!(list_envelope(read("{\"cards\":{}}"), "cards"), Err(DecodeFailure::Malformed));
    assert_eq!(list_envelope(read("{\"sets\":[]}"), "cards"), Err(DecodeFailure::Malformed));
    assert_eq!(list_envelope(read("[]"), "cards"), Err(DecodeFailure::Malformed));
    assert_eq!(list_envelope(read("\"cards\""), "cards"), Err(DecodeFailure::Malformed));
}

#[test]
fn a_null_entity_is_not_found() {
    assert_eq!(entity_envelope(read("{\"set\":null}"), "set"), Err(DecodeFailure::NotFound));
    assert_eq!(retrieve_set_from_body("{\"set\":null}"), Err(MtgApiErrorKind::SetNotFound));
    assert_eq!(retrieve_card_from_body("{\"card\":null}"), Err(MtgApiErrorKind::CardNotFound));
}

#[test]
fn a_missing_entity_is_not_found() {
    assert_eq!(entity_envelope(read("{}"), "set"), Err(DecodeFailure::NotFound));
    assert_eq!(retrieve_set_from_body("{}"), Err(MtgApiErrorKind::SetNotFound));
    assert_eq!(retrieve_card_from_body("{\"cards\":[]}"), Err(MtgApiErrorKind::CardNotFound));
}

#[test]
fn not_found_differs_from_a_parse_error() {
    assert_eq!(retrieve_set_from_body("{\"set\":null}"), Err(MtgApiErrorKind::SetNotFound));
    assert_eq!(retrieve_set_from_body("{\"set\":"), Err(MtgApiErrorKind::SetBodyParseError));
    assert_eq!(retrieve_set_from_body("{\"set\":3}"), Err(MtgApiErrorKind::SetBodyParseError));
    assert_eq!(retrieve_set_from_body("[]"), Err(MtgApiErrorKind::SetBodyParseError));
    assert_ne!(MtgApiErrorKind::SetNotFound, MtgApiErrorKind::SetBodyParseError);
}

#[test]
fn an_entity_is_handed_on_as_it_is() {
    assert_eq!(
        retrieve_card_from_body("{\"card\":{\"name\":\"Shock\",\"cmc\":1}}"),
        Ok(object(vec![
            field("cmc", JsonValue::Number("1".to_string())),
            field("name", text("Shock")),
        ]))
    );
    assert_eq!(
        retrieve_set_from_body("{\"set\":{\"code\":\"KTK\"}}"),
        Ok(object(vec![field("code", text("KTK"))]))
    );
}

#[test]
fn names_are_read_as_strings() {
    assert_eq!(
        retrieve_types_from_body("{\"types\":[\"Artifact\",\"Creature\"]}"),
        Ok(vec!["Artifact".to_string(), "Creature".to_string()])
    );
    assert_eq!(
        retrieve_subtypes_from_body("{\"subtypes\":[\"Human\"]}"),
        Ok(vec!["Human".to_string()])
    );
    assert_eq!(
        retrieve_supertypes_from_body("{\"supertypes\":[\"Basic\",\"Snow\"]}"),
        Ok(vec!["Basic".to_string(), "Snow".to_string()])
    );
    assert_eq!(
        retrieve_formats_from_body("{\"formats\":[\"Standard\"]}"),
        Ok(vec!["Standard".to_string()])
    );
}

#[test]
fn a_name_that_is_no_string_is_malformed() {
    assert_eq!(
        names_envelope(read("{\"types\":[\"Artifact\", 3]}"), "types"),
        Err(DecodeFailure::Malformed)
    );
    assert_eq!(
        retrieve_types_from_body("{\"types\":[null]}"),
        Err(MtgApiErrorKind::TypeBodyParseError)
    );
    assert_eq!(
        retrieve_formats_from_body("{\"formats\":[[\"Standard\"]]}"),
        Err(MtgApiErrorKind::FormatBodyParseError)
    );
}

#[test]
fn every_endpoint_has_its_parse_error() {
    assert_eq!(retrieve_cards_from_body("no json"), Err(MtgApiErrorKind::CardBodyParseError));
    assert_eq!(retrieve_card_from_body("no json"), Err(MtgApiErrorKind::CardBodyParseError));
    assert_eq!(retrieve_sets_from_body("no json"), Err(MtgApiErrorKind::SetBodyParseError));
    assert_eq!(retrieve_set_from_body("no json"), Err(MtgApiErrorKind::SetBodyParseError));
    assert_eq!(retrieve_formats_from_body("no json"), Err(MtgApiErrorKind::FormatBodyParseError));
    assert_eq!(retrieve_types_from_body("no json"), Err(MtgApiErrorKind::TypeBodyParseError));
    assert_eq!(retrieve_subtypes_from_body("no json"), Err(MtgApiErrorKind::TypeBodyParseError));
    assert_eq!(retrieve_supertypes_from_body("no json"), Err(MtgApiErrorKind::TypeBodyParseError));
    assert_eq!(retrieve_cards_from_body("{\"sets\":[]}"), Err(MtgApiErrorKind::CardBodyParseError));
    assert_eq!(retrieve_sets_from_body("{\"cards\":[]}"), Err(MtgApiErrorKind::SetBodyParseError));
}

#[test]
fn a_service_error_is_described_in_one_line() {
    assert_eq!(
        retrieve_cards_from_body("{\"error\":\"boom\",\"status\":\"503\"}"),
        Err(MtgApiErrorKind::ApiError { cause: "503: boom".to_string() })
    );
    assert_eq!(
        retrieve_cards_from_body("{\"error\":\"boom\"}"),
        Err(MtgApiErrorKind::ApiError { cause: "boom".to_string() })
    );
    assert_eq!(
        retrieve_set_from_body("{\"status\":\"404\",\"error\":\"not here\"}"),
        Err(MtgApiErrorKind::ApiError { cause: "404: not here".to_string() })
    );
    assert_eq!(
        retrieve_types_from_body("{\"error\":\"\"}"),
        Err(MtgApiErrorKind::ApiError { cause: String::new() })
    );
}

#[test]
fn settle_maps_each_case() {
    let content: Result<ResponseEnvelope<u8>, DecodeFailure> = Ok(ResponseEnvelope::Success(7));
    assert_eq!(
        settle(content, MtgApiErrorKind::CardBodyParseError, MtgApiErrorKind::CardNotFound),
        Ok(7)
    );
    let malformed: Result<ResponseEnvelope<u8>, DecodeFailure> = Err(DecodeFailure::Malformed);
    assert_eq!(
        settle(malformed, MtgApiErrorKind::CardBodyParseError, MtgApiErrorKind::CardNotFound),
        Err(MtgApiErrorKind::CardBodyParseError)
    );
    let missing: Result<ResponseEnvelope<u8>, DecodeFailure> = Err(DecodeFailure::NotFound);
    assert_eq!(
        settle(missing, MtgApiErrorKind::CardBodyParseError, MtgApiErrorKind::CardNotFound),
        Err(MtgApiErrorKind::CardNotFound)
    );
    let refused: Result<ResponseEnvelope<u8>, DecodeFailure> = Ok(ResponseEnvelope::ServiceError {
        message: "slow down".to_string(),
        status: Some("429".to_string()),
    });
    assert_eq!(
        settle(refused, MtgApiErrorKind::CardBodyParseError, MtgApiErrorKind::CardNotFound),
        Err(MtgApiErrorKind::ApiError { cause: "429: slow down".to_string() })
    );
}

#[test]
fn errors_describe_themselves() {
    assert_eq!(
        MtgApiErrorKind::ClientDropped.description(),
        "The Client has been dropped and is no longer available"
    );
    assert_eq!(MtgApiErrorKind::HttpError.description(), "Error calling the API Endpoint");
    assert_eq!(MtgApiErrorKind::BodyReadError.description(), "Failed to read the response body");
    assert_eq!(
        MtgApiErrorKind::CardBodyParseError.description(),
        "Could not parse the response of the card struct"
    );
    assert_eq!(MtgApiErrorKind::CardNotFound.description(), "Requested card not found");
    assert_eq!(
        MtgApiErrorKind::SetBodyParseError.description(),
        "Could not parse the response of the set struct"
    );
    assert_eq!(MtgApiErrorKind::SetNotFound.description(), "Requested set not found");
    assert_eq!(
        MtgApiErrorKind::TypeBodyParseError.description(),
        "Could not parse the response of the types struct"
    );
    assert_eq!(
        MtgApiErrorKind::SubtypeBodyParseError.description(),
        "Could not parse the response of the subtypes struct"
    );
    assert_eq!(
        MtgApiErrorKind::SupertypeBodyParseError.description(),
        "Could not parse the response of the supertypes struct"
    );
    assert_eq!(
        MtgApiErrorKind::FormatBodyParseError.description(),
        "Could not parse the response of the formats struct"
    );
    assert_eq!(
        MtgApiErrorKind::ApiError { cause: "503: boom".to_string() }.description(),
        "Error: 503: boom"
    );
    assert_eq!(
        MtgApiErrorKind::MetadataParseError { header: "Count".to_string() }.description(),
        "Could not parse the response header Count"
    );
}

use adaptive_card_rs::actions::Action;
use adaptive_card_rs::card::{AdaptiveCard, CardElement, Container, TextBlock, MAX_DEPTH};
use adaptive_card_rs::error::{DecodeError, ErrorKind, PathStep};
use serde_json::Value;

fn json(text: &str) -> Value {
    serde_json::from_str(text).unwrap()
}

fn error<T>(kind: ErrorKind, path: Vec<PathStep>, raw: Option<&str>) -> Result<T, DecodeError> {
    Err(DecodeError { kind, path, raw: raw.map(json) })
}

const CARD: &str = r#"{"type":"AdaptiveCard","$schema":"http://adaptivecards.io/schemas/adaptive-card.json","version":"1.3","body":[]}"#;

fn card_with(key: &str, value: &str) -> Value {
    let mut card = json(CARD);
    card.as_object_mut().unwrap().insert(key.to_string(), json(value));
    card
}

fn card_without(key: &str) -> Value {
    let mut card = json(CARD);
    card.as_object_mut().unwrap().remove(key);
    card
}

#[test]
fn unknown_action_tag_is_refused() {
    let value = json(r#"{"type":"Action.DoesNotExist","title":"x","url":"https://example.com"}"#);
    assert_eq!(
        Action::decode(&value),
        error(ErrorKind::UnknownVariantTag, vec![PathStep::Key("type")], Some(r#""Action.DoesNotExist""#)),
    );
}

#[test]
fn unknown_element_tag_is_refused() {
    let value = json(r#"{"type":"Action.OpenUrl","url":"https://example.com"}"#);
    assert_eq!(
        CardElement::decode(&value),
        error(ErrorKind::UnknownVariantTag, vec![PathStep::Key("type")], Some(r#""Action.OpenUrl""#)),
    );
    let value = json(r#"{"type":"textBlock","text":"x"}"#);
    assert_eq!(
        CardElement::decode(&value),
        error(ErrorKind::UnknownVariantTag, vec![PathStep::Key("type")], Some(r#""textBlock""#)),
    );
}

#[test]
fn element_tags_and_action_tags_are_two_vocabularies() {
    let value = json(r#"{"type":"TextBlock","text":"x"}"#);
    assert!(CardElement::decode(&value).is_ok());
    assert_eq!(Action::decode(&value).unwrap_err().kind, ErrorKind::UnknownVariantTag);
}

#[test]
fn missing_discriminant_is_reported() {
    let value = json(r#"{"text":"x"}"#);
    assert_eq!(
        CardElement::decode(&value),
        error(ErrorKind::MissingDiscriminant, vec![PathStep::Key("type")], None),
    );
    assert_eq!(
        Action::decode(&json("{}")),
        error(ErrorKind::MissingDiscriminant, vec![PathStep::Key("type")], None),
    );
    assert_eq!(
        AdaptiveCard::decode(&card_without("type")),
        error(ErrorKind::MissingDiscriminant, vec![PathStep::Key("type")], None),
    );
}

#[test]
fn discriminant_that_is_no_string_is_an_unknown_tag() {
    let value = json(r#"{"type":7,"text":"x"}"#);
    assert_eq!(
        CardElement::decode(&value),
        error(ErrorKind::UnknownVariantTag, vec![PathStep::Key("type")], Some("7")),
    );
    let value = json(r#"{"type":null,"text":"x"}"#);
    assert_eq!(
        CardElement::decode(&value),
        error(ErrorKind::UnknownVariantTag, vec![PathStep::Key("type")], Some("null")),
    );
    assert_eq!(
        AdaptiveCard::decode(&card_with("type", "[]")),
        error(ErrorKind::UnknownVariantTag, vec![PathStep::Key("type")], Some("[]")),
    );
}

#[test]
fn root_marker_must_be_adaptive_card() {
    assert_eq!(
        AdaptiveCard::decode(&card_with("type", r#""TextBlock""#)),
        error(ErrorKind::UnknownVariantTag, vec![PathStep::Key("type")], Some(r#""TextBlock""#)),
    );
}

#[test]
fn schema_marker_must_be_the_fixed_address() {
    assert_eq!(
        AdaptiveCard::decode(&card_with("$schema", r#""https://example.com/schema.json""#)),
        error(
            ErrorKind::InvalidEnumLiteral,
            vec![PathStep::Key("$schema")],
            Some(r#""https://example.com/schema.json""#),
        ),
    );
    assert_eq!(
        AdaptiveCard::decode(&card_without("$schema")),
        error(ErrorKind::MissingRequiredField, vec![PathStep::Key("$schema")], None),
    );
}

#[test]
fn missing_required_field_is_reported() {
    assert_eq!(
        AdaptiveCard::decode(&card_without("body")),
        error(ErrorKind::MissingRequiredField, vec![PathStep::Key("body")], None),
    );
    assert_eq!(
        AdaptiveCard::decode(&card_without("version")),
        error(ErrorKind::MissingRequiredField, vec![PathStep::Key("version")], None),
    );
    assert_eq!(
        TextBlock::decode(&json(r#"{"size":"large"}"#)),
        error(ErrorKind::MissingRequiredField, vec![PathStep::Key("text")], None),
    );
}

#[test]
fn invalid_enum_literal_is_reported() {
    assert_eq!(
        AdaptiveCard::decode(&card_with("version", r#""2.0""#)),
        error(ErrorKind::InvalidEnumLiteral, vec![PathStep::Key("version")], Some(r#""2.0""#)),
    );
    assert_eq!(
        TextBlock::decode(&json(r#"{"text":"x","size":"huge"}"#)),
        error(ErrorKind::InvalidEnumLiteral, vec![PathStep::Key("size")], Some(r#""huge""#)),
    );
    assert_eq!(
        TextBlock::decode(&json(r#"{"text":"x","size":"Large"}"#)),
        error(ErrorKind::InvalidEnumLiteral, vec![PathStep::Key("size")], Some(r#""Large""#)),
    );
}

#[test]
fn type_mismatch_is_reported() {
    assert_eq!(AdaptiveCard::decode(&json("[]")), error(ErrorKind::TypeMismatch, vec![], Some("[]")));
    assert_eq!(
        AdaptiveCard::decode(&card_with("body", "{}")),
        error(ErrorKind::TypeMismatch, vec![PathStep::Key("body")], Some("{}")),
    );
    assert_eq!(
        AdaptiveCard::decode(&card_with("rtl", r#""yes""#)),
        error(ErrorKind::TypeMismatch, vec![PathStep::Key("rtl")], Some(r#""yes""#)),
    );
    assert_eq!(
        TextBlock::decode(&json(r#"{"text":5}"#)),
        error(ErrorKind::TypeMismatch, vec![PathStep::Key("text")], Some("5")),
    );
    assert_eq!(
        TextBlock::decode(&json(r#"{"text":null}"#)),
        error(ErrorKind::TypeMismatch, vec![PathStep::Key("text")], Some("null")),
    );
    assert_eq!(
        TextBlock::decode(&json(r#"{"text":"x","size":3}"#)),
        error(ErrorKind::TypeMismatch, vec![PathStep::Key("size")], Some("3")),
    );
    for bad in ["-1", "1.5", "4294967296", r#""3""#, "true"] {
        assert_eq!(
            TextBlock::decode(&json(&format!(r#"{{"text":"x","maxLines":{}}}"#, bad))),
            error(ErrorKind::TypeMismatch, vec![PathStep::Key("maxLines")], Some(bad)),
        );
    }
}

#[test]
fn invalid_column_width_is_reported_where_it_stands() {
    let value = card_with(
        "body",
        r#"[{"type":"ColumnSet","columns":[{"type":"Column","width":"auto","items":[]},{"type":"Column","width":"wide","items":[]}]}]"#,
    );
    assert_eq!(
        AdaptiveCard::decode(&value),
        error(
            ErrorKind::InvalidColumnWidth,
            vec![
                PathStep::Key("body"),
                PathStep::Index(0),
                PathStep::Key("columns"),
                PathStep::Index(1),
                PathStep::Key("width"),
            ],
            Some(r#""wide""#),
        ),
    );
}

#[test]
fn error_names_the_path_to_the_offending_value() {
    let value = card_with(
        "body",
        r#"[{"type":"TextBlock","text":"a"},{"type":"Container","items":[{"type":"TextBlock","text":"b"},{"type":"ActionSet","actions":[{"type":"Action.ShowCard","card":{"type":"AdaptiveCard","$schema":"http://adaptivecards.io/schemas/adaptive-card.json","version":"1.0","body":[{"type":"Image","url":"u","size":"enormous"}]}}]}]}]"#,
    );
    assert_eq!(
        AdaptiveCard::decode(&value),
        error(
            ErrorKind::InvalidEnumLiteral,
            vec![
                PathStep::Key("body"),
                PathStep::Index(1),
                PathStep::Key("items"),
                PathStep::Index(1),
                PathStep::Key("actions"),
                PathStep::Index(0),
                PathStep::Key("card"),
                PathStep::Key("body"),
                PathStep::Index(0),
                PathStep::Key("size"),
            ],
            Some(r#""enormous""#),
        ),
    );
}

#[test]
fn first_incompatibility_decides() {
    // Fields are read in their order: `text` before `size` before `wrap`.
    let value = json(r#"{"wrap":"no","size":"huge","text":1}"#);
    assert_eq!(
        TextBlock::decode(&value),
        error(ErrorKind::TypeMismatch, vec![PathStep::Key("text")], Some("1")),
    );
    let value = json(r#"{"wrap":"no","size":"huge","text":"x"}"#);
    assert_eq!(
        TextBlock::decode(&value),
        error(ErrorKind::InvalidEnumLiteral, vec![PathStep::Key("size")], Some(r#""huge""#)),
    );
    // Items are read in their order.
    let value = card_with("body", r#"[{"type":"TextBlock","text":"a"},{"type":"Nope"},{"type":"Image"}]"#);
    assert_eq!(
        AdaptiveCard::decode(&value),
        error(
            ErrorKind::UnknownVariantTag,
            vec![PathStep::Key("body"), PathStep::Index(1), PathStep::Key("type")],
            Some(r#""Nope""#),
        ),
    );
}

fn nested_containers(depth: usize) -> CardElement {
    let mut element = CardElement::TextBlock(TextBlock { text: "leaf".to_string(), ..Default::default() });
    for _ in 1..depth {
        element = CardElement::Container(Container { items: vec![element], ..Default::default() });
    }
    element
}

#[test]
fn nesting_up_to_the_limit_is_read() {
    let card = AdaptiveCard { body: vec![nested_containers(MAX_DEPTH)], ..Default::default() };
    assert_eq!(AdaptiveCard::decode(&card.encode()), Ok(card));
    let element = nested_containers(3);
    assert_eq!(CardElement::decode_within(&element.encode(), 3), Ok(element));
}

#[test]
fn nesting_beyond_the_limit_is_refused() {
    let card = AdaptiveCard { body: vec![nested_containers(MAX_DEPTH + 1)], ..Default::default() };
    let error = AdaptiveCard::decode(&card.encode()).unwrap_err();
    assert_eq!(error.kind, ErrorKind::RecursionTooDeep);
    assert_eq!(error.raw, None);
    assert_eq!(error.path.len(), 2 * MAX_DEPTH + 2);
    assert_eq!(error.path[0], PathStep::Key("body"));
    assert_eq!(error.path[1], PathStep::Index(0));
    assert_eq!(error.path[2], PathStep::Key("items"));

    let element = nested_containers(3);
    assert_eq!(
        CardElement::decode_within(&element.encode(), 2),
        error_at(ErrorKind::RecursionTooDeep, vec![
            PathStep::Key("items"),
            PathStep::Index(0),
            PathStep::Key("items"),
            PathStep::Index(0),
        ]),
    );
    assert_eq!(
        CardElement::decode_within(&element.encode(), 0),
        error_at(ErrorKind::RecursionTooDeep, vec![]),
    );
    assert!(AdaptiveCard::decode_within(&json(CARD), 0).is_ok());
}

fn error_at<T>(kind: ErrorKind, path: Vec<PathStep>) -> Result<T, DecodeError> {
    Err(DecodeError { kind, path, raw: None })
}

#[test]
fn nothing_is_returned_of_a_value_that_fails() {
    let value = card_with("body", r#"[{"type":"TextBlock","text":"fine"},{"type":"TextBlock"}]"#);
    assert_eq!(
        AdaptiveCard::decode(&value),
        error(
            ErrorKind::MissingRequiredField,
            vec![PathStep::Key("body"), PathStep::Index(1), PathStep::Key("text")],
            None,
        ),
    );
}

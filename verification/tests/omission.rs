use adaptive_card_rs::actions::{Action, OpenUrlAction, SubmitAction};
use adaptive_card_rs::card::{AdaptiveCard, CardElement, Container, Image, TextBlock, TextSize};
use serde_json::Value;

fn keys(value: &Value) -> Vec<String> {
    value.as_object().unwrap().keys().cloned().collect()
}

fn has_null(value: &Value) -> bool {
    match value {
        Value::Null => true,
        Value::Array(items) => items.iter().any(has_null),
        Value::Object(fields) => fields.values().any(has_null),
        _ => false,
    }
}

#[test]
fn unset_fields_are_not_written() {
    let block = TextBlock { text: "x".to_string(), ..Default::default() };
    assert_eq!(keys(&block.encode()), vec!["text"]);
    assert_eq!(keys(&CardElement::TextBlock(block).encode()), vec!["text", "type"]);

    let block = TextBlock { text: "x".to_string(), size: Some(TextSize::Small), ..Default::default() };
    assert_eq!(keys(&block.encode()), vec!["size", "text"]);

    assert_eq!(keys(&Container::default().encode()), vec!["items"]);
    assert_eq!(keys(&Image::default().encode()), vec!["url"]);
    assert_eq!(keys(&AdaptiveCard::default().encode()), vec!["$schema", "body", "type", "version"]);

    let action = Action::OpenUrl(OpenUrlAction {
        title: None,
        url: "u".to_string(),
        id: None,
        icon_url: None,
        style: None,
        tooltip: None,
        is_enabled: None,
        mode: None,
    });
    assert_eq!(keys(&action.encode()), vec!["type", "url"]);
}

#[test]
fn set_fields_are_written_under_their_wire_names() {
    let image = Image {
        url: "u".to_string(),
        alt_text: Some("a".to_string()),
        background_color: Some("b".to_string()),
        is_visible: Some(true),
        ..Default::default()
    };
    assert_eq!(keys(&image.encode()), vec!["altText", "backgroundColor", "isVisible", "url"]);

    let card = AdaptiveCard {
        fallback_text: Some("f".to_string()),
        min_height: Some("1px".to_string()),
        rtl: Some(false),
        select_action: Some(Box::new(Action::Submit(SubmitAction {
            title: None,
            data: None,
            associated_inputs: None,
            id: None,
            icon_url: Some("i".to_string()),
            style: None,
            tooltip: None,
            is_enabled: Some(true),
            mode: None,
        }))),
        ..Default::default()
    };
    let written = card.encode();
    assert_eq!(
        keys(&written),
        vec!["$schema", "body", "fallbackText", "minHeight", "rtl", "selectAction", "type", "version"],
    );
    assert_eq!(keys(&written["selectAction"]), vec!["iconUrl", "isEnabled", "type"]);
}

#[test]
fn no_field_is_written_as_null() {
    let card = AdaptiveCard {
        body: vec![
            CardElement::TextBlock(TextBlock::default()),
            CardElement::Container(Container::default()),
            CardElement::Image(Image::default()),
        ],
        actions: Some(vec![Action::Submit(SubmitAction {
            title: None,
            data: Some(Value::Null),
            associated_inputs: None,
            id: None,
            icon_url: None,
            style: None,
            tooltip: None,
            is_enabled: None,
            mode: None,
        })]),
        ..Default::default()
    };
    assert!(!has_null(&card.encode()));
}

use adaptive_card_rs::card::{BaseFields, CardElement, FactSet, Spacing, TextBlock};
use adaptive_card_rs::common::Height;
use adaptive_card_rs::inputs::InputDate;
use serde_json::Value;

fn json(text: &str) -> Value {
    serde_json::from_str(text).unwrap()
}

#[test]
fn base_fields_of_an_element_are_its_own_fields() {
    let block = TextBlock {
        text: "x".to_string(),
        id: Some("title".to_string()),
        separator: Some(true),
        spacing: Some(Spacing::Large),
        height: Some(Height::Stretch),
        is_visible: Some(false),
        ..Default::default()
    };
    let base = BaseFields {
        id: Some("title".to_string()),
        separator: Some(true),
        spacing: Some(Spacing::Large),
        height: Some(Height::Stretch),
        is_visible: Some(false),
    };
    assert_eq!(block.base(), base);
    assert_eq!(CardElement::TextBlock(block).base(), Some(base));
    assert_eq!(TextBlock::default().base(), BaseFields::default());
    assert_eq!(CardElement::FactSet(FactSet { facts: vec![] }).base(), None);
}

#[test]
fn base_fields_are_written_flat() {
    let base = BaseFields {
        id: Some("title".to_string()),
        separator: Some(true),
        spacing: Some(Spacing::Large),
        height: None,
        is_visible: Some(false),
    };
    let written = base.encode();
    assert_eq!(
        written,
        json(r#"{"id":"title","separator":true,"spacing":"large","isVisible":false}"#),
    );
    assert_eq!(BaseFields::decode(&written), Ok(base.clone()));

    let block = TextBlock {
        text: "x".to_string(),
        id: base.id.clone(),
        separator: base.separator,
        spacing: base.spacing,
        height: base.height,
        is_visible: base.is_visible,
        ..Default::default()
    };
    let element = block.encode();
    for (key, value) in written.as_object().unwrap() {
        assert_eq!(element.get(key), Some(value));
    }
    assert_eq!(element.as_object().unwrap().len(), written.as_object().unwrap().len() + 1);
}

#[test]
fn identifier_of_an_input_is_its_base_identifier() {
    let input = InputDate {
        id: "day".to_string(),
        min: None,
        max: None,
        placeholder: None,
        value: None,
        label: None,
        is_required: None,
        error_message: None,
        separator: None,
        spacing: Some(Spacing::NoSpacing),
        height: None,
        is_visible: None,
    };
    assert_eq!(
        input.base(),
        BaseFields {
            id: Some("day".to_string()),
            separator: None,
            spacing: Some(Spacing::NoSpacing),
            height: None,
            is_visible: None,
        },
    );
}

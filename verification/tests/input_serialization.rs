use adaptive_card_rs::card::{AdaptiveCard, CardElement, Version};
use adaptive_card_rs::common::ChoiceInputStyle;
use adaptive_card_rs::inputs::{
    InputChoice, InputChoiceSet, InputDate, InputNumber, InputText, InputTime, InputToggle,
};
use serde_json::Number;

#[test]
fn test_input_text_serialization() {
    let card = AdaptiveCard {
        version: Version::V1_3,
        body: vec![CardElement::InputText(InputText {
            id: "nameInput".to_string(),
            is_multiline: Some(false),
            max_length: Some(100),
            placeholder: Some("Enter your name".to_string()),
            label: Some("Name".to_string()),
            is_required: Some(true),
            error_message: Some("Name is required".to_string()),
            regex: None,
            style: None,
            value: None,
            separator: None,
            spacing: None,
            height: None,
            is_visible: None,
        })],
        ..Default::default()
    };

    let json = serde_json::to_string_pretty(&card.encode()).unwrap();
    assert!(json.contains("Input.Text"));
    assert!(json.contains("nameInput"));
    assert!(json.contains("Name is required"));
}

#[test]
fn test_input_choiceset_serialization() {
    let card = AdaptiveCard {
        version: Version::V1_3,
        body: vec![CardElement::InputChoiceSet(InputChoiceSet {
            id: "colorChoice".to_string(),
            choices: Some(vec![
                InputChoice {
                    title: "Red".to_string(),
                    value: "1".to_string(),
                },
                InputChoice {
                    title: "Green".to_string(),
                    value: "2".to_string(),
                },
                InputChoice {
                    title: "Blue".to_string(),
                    value: "3".to_string(),
                },
            ]),
            is_multi_select: Some(false),
            style: Some(ChoiceInputStyle::Compact),
            value: Some("1".to_string()),
            placeholder: Some("Select a color".to_string()),
            wrap: None,
            label: Some("Choose your favorite color".to_string()),
            is_required: None,
            error_message: None,
            separator: None,
            spacing: None,
            height: None,
            is_visible: None,
        })],
        ..Default::default()
    };

    let json = serde_json::to_string_pretty(&card.encode()).unwrap();
    assert!(json.contains("Input.ChoiceSet"));
    assert!(json.contains("colorChoice"));
    assert!(json.contains("Red"));
    assert!(json.contains("compact"));
}

#[test]
fn test_input_toggle_serialization() {
    let card = AdaptiveCard {
        version: Version::V1_3,
        body: vec![CardElement::InputToggle(InputToggle {
            id: "acceptTerms".to_string(),
            title: "I accept the terms and conditions".to_string(),
            value: Some("false".to_string()),
            value_on: Some("yes".to_string()),
            value_off: Some("no".to_string()),
            wrap: Some(true),
            label: Some("Terms".to_string()),
            is_required: Some(true),
            error_message: Some("You must accept the terms".to_string()),
            separator: None,
            spacing: None,
            height: None,
            is_visible: None,
        })],
        ..Default::default()
    };

    let json = serde_json::to_string_pretty(&card.encode()).unwrap();
    assert!(json.contains("Input.Toggle"));
    assert!(json.contains("acceptTerms"));
    assert!(json.contains("I accept the terms"));
}

#[test]
fn test_input_number_serialization() {
    let card = AdaptiveCard {
        version: Version::V1_3,
        body: vec![CardElement::InputNumber(InputNumber {
            id: "ageInput".to_string(),
            min: Number::from_f64(0.0),
            max: Number::from_f64(120.0),
            placeholder: Some("Enter your age".to_string()),
            value: None,
            label: Some("Age".to_string()),
            is_required: Some(true),
            error_message: Some("Please enter a valid age".to_string()),
            separator: None,
            spacing: None,
            height: None,
            is_visible: None,
        })],
        ..Default::default()
    };

    let json = serde_json::to_string_pretty(&card.encode()).unwrap();
    assert!(json.contains("Input.Number"));
    assert!(json.contains("ageInput"));
    assert!(json.contains("120"));
}

#[test]
fn test_input_date_serialization() {
    let card = AdaptiveCard {
        version: Version::V1_3,
        body: vec![CardElement::InputDate(InputDate {
            id: "birthdayInput".to_string(),
            min: Some("1900-01-01".to_string()),
            max: Some("2025-12-31".to_string()),
            placeholder: Some("Select date".to_string()),
            value: None,
            label: Some("Birthday".to_string()),
            is_required: None,
            error_message: None,
            separator: None,
            spacing: None,
            height: None,
            is_visible: None,
        })],
        ..Default::default()
    };

    let json = serde_json::to_string_pretty(&card.encode()).unwrap();
    assert!(json.contains("Input.Date"));
    assert!(json.contains("birthdayInput"));
    assert!(json.contains("1900-01-01"));
}

#[test]
fn test_input_time_serialization() {
    let card = AdaptiveCard {
        version: Version::V1_3,
        body: vec![CardElement::InputTime(InputTime {
            id: "meetingTime".to_string(),
            min: Some("09:00".to_string()),
            max: Some("17:00".to_string()),
            placeholder: Some("Select time".to_string()),
            value: None,
            label: Some("Meeting Time".to_string()),
            is_required: None,
            error_message: None,
            separator: None,
            spacing: None,
            height: None,
            is_visible: None,
        })],
        ..Default::default()
    };

    let json = serde_json::to_string_pretty(&card.encode()).unwrap();
    assert!(json.contains("Input.Time"));
    assert!(json.contains("meetingTime"));
    assert!(json.contains("09:00"));
}

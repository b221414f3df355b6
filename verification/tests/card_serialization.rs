use adaptive_card_rs::actions::{Action, ActionSet, OpenUrlAction};
use adaptive_card_rs::card::{
    AdaptiveCard, CardElement, Column, ColumnSet, ColumnWidth, Container, ContainerStyle, Image,
    ImageSize, MsTeams, MsTeamsWidth, Spacing, TextBlock, TextSize, TextWeight, Version,
};
use serde_json::Value;

/// The JSON value that `text` spells. Objects are compared as JSON compares
/// them: by their keys and values, whatever the order of the keys.
fn json(text: &str) -> Value {
    serde_json::from_str(text).unwrap()
}

#[test]
fn test_adaptive_card_serialization() {
    let card = AdaptiveCard {
        version: Version::V1_3,
        body: vec![
            CardElement::TextBlock(TextBlock {
                size: Some(TextSize::Large),
                weight: Some(TextWeight::Bolder),
                text: "Hello, Adaptive Card!".to_string(),
                wrap: Some(true),
                is_subtle: Some(false),
                ..Default::default()
            }),
            CardElement::Image(Image {
                url: "https://example.com/image.png".to_string(),
                size: Some(ImageSize::Medium),
                ..Default::default()
            }),
            CardElement::Container(Container {
                style: Some(ContainerStyle::Emphasis),
                spacing: Some(Spacing::Medium),
                items: vec![CardElement::TextBlock(TextBlock {
                    size: Some(TextSize::Default),
                    weight: Some(TextWeight::Default),
                    text: "Inside a container".to_string(),
                    wrap: Some(true),
                    is_subtle: Some(true),
                    ..Default::default()
                })],
                ..Default::default()
            }),
            CardElement::ActionSet(ActionSet {
                actions: vec![Action::OpenUrl(OpenUrlAction {
                    title: Some("Open".to_string()),
                    url: "https://www.youtube.com/watch?v=sBW8Vnp8BzU".to_string(),
                    id: None,
                    icon_url: None,
                    style: None,
                    tooltip: None,
                    is_enabled: None,
                    mode: None,
                })],
            }),
        ],
        ..Default::default()
    };

    let expected = r#"
            {
              "type": "AdaptiveCard",
              "$schema": "http://adaptivecards.io/schemas/adaptive-card.json",
              "version": "1.3",
              "body": [
                {
                  "type": "TextBlock",
                  "text": "Hello, Adaptive Card!",
                  "size": "large",
                  "weight": "bolder",
                  "wrap": true,
                  "isSubtle": false
                },
                {
                  "type": "Image",
                  "url": "https://example.com/image.png",
                  "size": "medium"
                },
                {
                  "type": "Container",
                  "items": [
                    {
                      "type": "TextBlock",
                      "text": "Inside a container",
                      "size": "default",
                      "weight": "default",
                      "wrap": true,
                      "isSubtle": true
                    }
                  ],
                  "style": "emphasis",
                  "spacing": "medium"
                },
                {
                  "type": "ActionSet",
                  "actions": [
                    {
                      "type": "Action.OpenUrl",
                      "title": "Open",
                      "url": "https://www.youtube.com/watch?v=sBW8Vnp8BzU"
                    }
                  ]
                }
              ]
            }"#;

    assert_eq!(card.encode(), json(expected));
    assert_eq!(AdaptiveCard::decode(&json(expected)), Ok(card));
}

#[test]
fn test_adaptive_card_microsift_teams_serialization() {
    let card = AdaptiveCard {
        version: Version::V1_6,
        msteams: Some(MsTeams {
            width: Some(MsTeamsWidth::Full),
        }),
        ..Default::default()
    };

    let expected = r#"
            {
              "type": "AdaptiveCard",
              "$schema": "http://adaptivecards.io/schemas/adaptive-card.json",
              "version": "1.6",
              "body": [],
              "msteams": {
                "width": "full"
              }
            }"#;

    assert_eq!(card.encode(), json(expected));
    assert_eq!(AdaptiveCard::decode(&json(expected)), Ok(card));
}

#[test]
fn test_column_width_serialization() {
    let card = AdaptiveCard {
        body: vec![CardElement::ColumnSet(ColumnSet {
            columns: vec![
                Column {
                    width: ColumnWidth::auto(),
                    items: vec![CardElement::TextBlock(TextBlock {
                        size: Some(TextSize::Default),
                        weight: Some(TextWeight::Default),
                        text: "Auto width column".to_string(),
                        wrap: Some(true),
                        is_subtle: Some(false),
                        ..Default::default()
                    })],
                },
                Column {
                    width: ColumnWidth::stretch(),
                    items: vec![CardElement::TextBlock(TextBlock {
                        size: Some(TextSize::Default),
                        weight: Some(TextWeight::Default),
                        text: "Stretch width column".to_string(),
                        wrap: Some(true),
                        is_subtle: Some(false),
                        ..Default::default()
                    })],
                },
                Column {
                    width: ColumnWidth::pixels(200),
                    items: vec![CardElement::TextBlock(TextBlock {
                        size: Some(TextSize::Default),
                        weight: Some(TextWeight::Default),
                        text: "Pixel width column".to_string(),
                        wrap: Some(true),
                        is_subtle: Some(false),
                        ..Default::default()
                    })],
                },
                Column {
                    width: ColumnWidth::weight(2),
                    items: vec![CardElement::TextBlock(TextBlock {
                        size: Some(TextSize::Default),
                        weight: Some(TextWeight::Default),
                        text: "Weight width column".to_string(),
                        wrap: Some(true),
                        is_subtle: Some(false),
                        ..Default::default()
                    })],
                },
            ],
        })],
        ..Default::default()
    };

    let expected = r#"
            {
              "type": "AdaptiveCard",
              "$schema": "http://adaptivecards.io/schemas/adaptive-card.json",
              "version": "1.2",
              "body": [
                {
                  "type": "ColumnSet",
                  "type": "ColumnSet",
                  "columns": [
                    {
                      "type": "Column",
                      "width": "auto",
                      "items": [
                        {
                          "type": "TextBlock",
                          "text": "Auto width column",
                          "size": "default",
                          "weight": "default",
                          "wrap": true,
                          "isSubtle": false
                        }
                      ]
                    },
                    {
                      "type": "Column",
                      "width": "stretch",
                      "items": [
                        {
                          "type": "TextBlock",
                          "text": "Stretch width column",
                          "size": "default",
                          "weight": "default",
                          "wrap": true,
                          "isSubtle": false
                        }
                      ]
                    },
                    {
                      "type": "Column",
                      "width": "200px",
                      "items": [
                        {
                          "type": "TextBlock",
                          "text": "Pixel width column",
                          "size": "default",
                          "weight": "default",
                          "wrap": true,
                          "isSubtle": false
                        }
                      ]
                    },
                    {
                      "type": "Column",
                      "width": 2,
                      "items": [
                        {
                          "type": "TextBlock",
                          "text": "Weight width column",
                          "size": "default",
                          "weight": "default",
                          "wrap": true,
                          "isSubtle": false
                        }
                      ]
                    }
                  ]
                }
              ]
            }"#;

    assert_eq!(card.encode(), json(expected));
    assert_eq!(AdaptiveCard::decode(&json(expected)), Ok(card));
}

use adaptive_card_rs::actions::{
    Action, ActionSet, OpenUrlAction, ShowCardAction, SubmitAction, ToggleVisibilityAction,
};
use adaptive_card_rs::card::{
    AdaptiveCard, CardElement, Column, ColumnSet, ColumnWidth, Container, ContainerStyle, Fact,
    FactSet, Image, ImageSize, Inline, MsTeams, MsTeamsWidth, RichTextBlock, Spacing, TextBlock,
    TextRun, TextSize, TextWeight, Version, MAX_DEPTH,
};
use adaptive_card_rs::common::{
    ActionMode, ActionStyle, AssociatedInputs, ChoiceInputStyle, Color, FontType, Height,
    HorizontalAlignment, TextInputStyle, VerticalContentAlignment,
};
use adaptive_card_rs::inputs::{
    InputChoice, InputChoiceSet, InputDate, InputNumber, InputText, InputTime, InputToggle,
};
use serde_json::{Number, Value};

fn json(text: &str) -> Value {
    serde_json::from_str(text).unwrap()
}

fn text(s: &str) -> Option<String> {
    Some(s.to_string())
}

fn open_url(title: &str) -> Action {
    Action::OpenUrl(OpenUrlAction {
        title: text(title),
        url: "https://example.com".to_string(),
        id: text("open"),
        icon_url: text("https://example.com/icon.png"),
        style: Some(ActionStyle::Positive),
        tooltip: text("opens the page"),
        is_enabled: Some(true),
        mode: Some(ActionMode::Secondary),
    })
}

fn submit(data: Option<Value>) -> Action {
    Action::Submit(SubmitAction {
        title: text("Send"),
        data,
        associated_inputs: Some(AssociatedInputs::NoInputs),
        id: None,
        icon_url: None,
        style: Some(ActionStyle::Destructive),
        tooltip: None,
        is_enabled: Some(false),
        mode: Some(ActionMode::Primary),
    })
}

fn show_card(card: AdaptiveCard) -> Action {
    Action::ShowCard(ShowCardAction {
        title: text("More"),
        card: Box::new(card),
        id: None,
        icon_url: None,
        style: None,
        tooltip: None,
        is_enabled: None,
        mode: None,
    })
}

fn toggle() -> Action {
    Action::ToggleVisibility(ToggleVisibilityAction {
        title: None,
        target_elements: vec!["a".to_string(), "b".to_string(), "".to_string()],
        id: text("t"),
        icon_url: None,
        style: Some(ActionStyle::Default),
        tooltip: None,
        is_enabled: None,
        mode: None,
    })
}

fn every_element() -> Vec<CardElement> {
    vec![
        CardElement::TextBlock(TextBlock {
            text: "Title \"quoted\" \u{2603}".to_string(),
            size: Some(TextSize::ExtraLarge),
            weight: Some(TextWeight::Lighter),
            wrap: Some(false),
            is_subtle: Some(true),
            color: Some(Color::Attention),
            horizontal_alignment: Some(HorizontalAlignment::Center),
            max_lines: Some(u32::MAX),
            font_type: Some(FontType::Monospace),
            id: text("title"),
            separator: Some(true),
            spacing: Some(Spacing::Padding),
            height: Some(Height::Stretch),
            is_visible: Some(false),
        }),
        CardElement::Container(Container {
            items: vec![CardElement::TextBlock(TextBlock {
                text: String::new(),
                max_lines: Some(0),
                ..Default::default()
            })],
            style: Some(ContainerStyle::Accent),
            spacing: Some(Spacing::NoSpacing),
            select_action: Some(Box::new(toggle())),
            vertical_content_alignment: Some(VerticalContentAlignment::Bottom),
            bleed: Some(true),
            min_height: text("50px"),
            id: text("box"),
            separator: Some(false),
            height: Some(Height::Auto),
            is_visible: Some(true),
        }),
        CardElement::ColumnSet(ColumnSet {
            columns: vec![
                Column { width: ColumnWidth::auto(), items: vec![] },
                Column { width: ColumnWidth::stretch(), items: vec![] },
                Column { width: ColumnWidth::pixels(4294967295), items: vec![] },
                Column {
                    width: ColumnWidth::weight(0),
                    items: vec![CardElement::ColumnSet(ColumnSet { columns: vec![] })],
                },
            ],
        }),
        CardElement::Image(Image {
            url: "https://example.com/image.png".to_string(),
            size: Some(ImageSize::Stretch),
            alt_text: text("a picture"),
            background_color: text("#FF0000"),
            horizontal_alignment: Some(HorizontalAlignment::Right),
            select_action: Some(Box::new(open_url("Open"))),
            width: text("80px"),
            id: None,
            separator: None,
            spacing: Some(Spacing::Large),
            height: None,
            is_visible: None,
        }),
        CardElement::ActionSet(ActionSet {
            actions: vec![
                open_url("first"),
                submit(Some(json(r#"{"k":[1,-2,3.5,null,{"deep":true}],"s":"x"}"#))),
                submit(None),
                toggle(),
            ],
        }),
        CardElement::FactSet(FactSet {
            facts: vec![
                Fact { title: "Name".to_string(), value: "Ada".to_string() },
                Fact { title: String::new(), value: String::new() },
            ],
        }),
        CardElement::RichTextBlock(RichTextBlock {
            inlines: vec![
                Inline::Text("plain".to_string()),
                Inline::TextRun(TextRun {
                    type_field: "TextRun".to_string(),
                    text: "run".to_string(),
                    color: Some(Color::Good),
                    font_type: Some(FontType::Default),
                    highlight: Some(true),
                    is_subtle: Some(false),
                    italic: Some(true),
                    size: Some(TextSize::Small),
                    strikethrough: Some(false),
                    weight: Some(TextWeight::Bolder),
                }),
                Inline::Text(String::new()),
            ],
            horizontal_alignment: Some(HorizontalAlignment::Left),
            id: None,
            separator: None,
            spacing: None,
            height: None,
            is_visible: None,
        }),
        CardElement::InputText(InputText {
            id: "name".to_string(),
            is_multiline: Some(true),
            max_length: Some(100),
            placeholder: text("your name"),
            regex: text("^[a-z]+$"),
            style: Some(TextInputStyle::Password),
            value: text("ada"),
            label: text("Name"),
            is_required: Some(true),
            error_message: text("required"),
            separator: Some(true),
            spacing: Some(Spacing::Small),
            height: Some(Height::Auto),
            is_visible: Some(true),
        }),
        CardElement::InputNumber(InputNumber {
            id: "age".to_string(),
            min: Number::from_f64(-0.5),
            max: Some(Number::from(120u32)),
            placeholder: None,
            value: Some(Number::from(-7i64)),
            label: None,
            is_required: None,
            error_message: None,
            separator: None,
            spacing: None,
            height: None,
            is_visible: None,
        }),
        CardElement::InputDate(InputDate {
            id: "day".to_string(),
            min: text("1900-01-01"),
            max: text("2025-12-31"),
            placeholder: text("a date"),
            value: text("2000-02-29"),
            label: text("Day"),
            is_required: Some(false),
            error_message: None,
            separator: None,
            spacing: None,
            height: None,
            is_visible: None,
        }),
        CardElement::InputTime(InputTime {
            id: "hour".to_string(),
            min: text("09:00"),
            max: text("17:00"),
            placeholder: None,
            value: text("12:30"),
            label: None,
            is_required: None,
            error_message: None,
            separator: None,
            spacing: None,
            height: None,
            is_visible: None,
        }),
        CardElement::InputToggle(InputToggle {
            id: "ok".to_string(),
            title: "Agree".to_string(),
            value: text("true"),
            value_on: text("yes"),
            value_off: text("no"),
            wrap: Some(true),
            label: text("Terms"),
            is_required: Some(true),
            error_message: text("agree first"),
            separator: None,
            spacing: None,
            height: None,
            is_visible: None,
        }),
        CardElement::InputChoiceSet(InputChoiceSet {
            id: "color".to_string(),
            choices: Some(vec![
                InputChoice { title: "Red".to_string(), value: "1".to_string() },
                InputChoice { title: "Green".to_string(), value: "2".to_string() },
            ]),
            is_multi_select: Some(true),
            style: Some(ChoiceInputStyle::Filtered),
            value: text("1,2"),
            placeholder: text("pick"),
            wrap: Some(false),
            label: None,
            is_required: None,
            error_message: None,
            separator: None,
            spacing: None,
            height: None,
            is_visible: None,
        }),
        CardElement::InputChoiceSet(InputChoiceSet {
            id: "none".to_string(),
            choices: Some(vec![]),
            is_multi_select: None,
            style: None,
            value: None,
            placeholder: None,
            wrap: None,
            label: None,
            is_required: None,
            error_message: None,
            separator: None,
            spacing: None,
            height: None,
            is_visible: None,
        }),
    ]
}

fn full_card() -> AdaptiveCard {
    AdaptiveCard {
        version: Version::V1_5,
        body: every_element(),
        msteams: Some(MsTeams { width: None }),
        actions: Some(vec![open_url("bar"), show_card(AdaptiveCard::default())]),
        select_action: Some(Box::new(submit(Some(json("[]"))))),
        fallback_text: text("no luck"),
        min_height: text("100px"),
        vertical_content_alignment: Some(VerticalContentAlignment::Center),
        rtl: Some(true),
        lang: text("en"),
        ..Default::default()
    }
}

#[test]
fn every_kind_of_element_is_read_back_as_written() {
    for element in every_element() {
        assert!(element.is_well_formed());
        assert_eq!(CardElement::decode(&element.encode()), Ok(element));
    }
}

#[test]
fn every_kind_of_action_is_read_back_as_written() {
    let actions = vec![
        open_url("x"),
        submit(None),
        submit(Some(json("0"))),
        submit(Some(json(r#""text""#))),
        submit(Some(json("false"))),
        submit(Some(json(r#"{"a":{"b":[null]}}"#))),
        show_card(full_card()),
        toggle(),
    ];
    for action in actions {
        assert!(action.is_well_formed());
        assert_eq!(Action::decode(&action.encode()), Ok(action));
    }
}

#[test]
fn full_card_is_read_back_as_written() {
    let card = full_card();
    assert!(card.is_well_formed());
    assert!(card.is_within(MAX_DEPTH));
    assert_eq!(AdaptiveCard::decode(&card.encode()), Ok(card));
}

#[test]
fn card_survives_the_way_through_text() {
    let card = full_card();
    let written = serde_json::to_string(&card.encode()).unwrap();
    let read: Value = serde_json::from_str(&written).unwrap();
    assert_eq!(AdaptiveCard::decode(&read), Ok(card));
}

#[test]
fn standalone_structs_are_read_back_as_written() {
    let block = TextBlock { text: "x".to_string(), wrap: Some(true), ..Default::default() };
    assert_eq!(block.encode(), json(r#"{"text":"x","wrap":true}"#));
    assert_eq!(TextBlock::decode(&block.encode()), Ok(block));

    let fact = Fact { title: "t".to_string(), value: "v".to_string() };
    assert_eq!(fact.encode(), json(r#"{"title":"t","value":"v"}"#));
    assert_eq!(Fact::decode(&fact.encode()), Ok(fact));

    let column = Column { width: ColumnWidth::pixels(7), items: vec![] };
    assert_eq!(column.encode(), json(r#"{"type":"Column","width":"7px","items":[]}"#));
    assert_eq!(Column::decode(&column.encode()), Ok(column));

    let set = ColumnSet { columns: vec![] };
    assert_eq!(set.encode(), json(r#"{"type":"ColumnSet","columns":[]}"#));
    assert_eq!(ColumnSet::decode(&set.encode()), Ok(set));

    let teams = MsTeams { width: Some(MsTeamsWidth::Full) };
    assert_eq!(teams.encode(), json(r#"{"width":"full"}"#));
    assert_eq!(MsTeams::decode(&teams.encode()), Ok(teams));

    let choice = InputChoice { title: "Red".to_string(), value: "1".to_string() };
    assert_eq!(InputChoice::decode(&choice.encode()), Ok(choice));

    let inline = Inline::Text("plain".to_string());
    assert_eq!(inline.encode(), json(r#""plain""#));
    assert_eq!(Inline::decode(&inline.encode()), Ok(inline));
    assert!(Inline::decode(&json("7")).is_err());
}

#[test]
fn every_version_is_read_back_as_written() {
    let versions = [
        (Version::V1_0, "1.0"),
        (Version::V1_1, "1.1"),
        (Version::V1_2, "1.2"),
        (Version::V1_3, "1.3"),
        (Version::V1_4, "1.4"),
        (Version::V1_5, "1.5"),
        (Version::V1_6, "1.6"),
    ];
    for (version, token) in versions {
        let card = AdaptiveCard { version, ..Default::default() };
        let written = card.encode();
        assert_eq!(written["version"], json(&format!("\"{}\"", token)));
        assert_eq!(AdaptiveCard::decode(&written), Ok(card));
    }
}

#[test]
fn unknown_keys_are_passed_over() {
    let value = json(
        r#"{"type":"TextBlock","text":"x","somethingNew":{"a":1},"Text":"not this one"}"#,
    );
    assert_eq!(
        CardElement::decode(&value),
        Ok(CardElement::TextBlock(TextBlock { text: "x".to_string(), ..Default::default() })),
    );
}

#[test]
fn null_is_read_as_no_value() {
    let value = json(r#"{"text":"x","size":null,"wrap":null,"id":null,"maxLines":null}"#);
    assert_eq!(
        TextBlock::decode(&value),
        Ok(TextBlock { text: "x".to_string(), ..Default::default() }),
    );
    let value = json(
        r#"{"type":"Action.Submit","data":null,"title":null,"style":null,"isEnabled":null}"#,
    );
    assert_eq!(Action::decode(&value), Ok(submit_bare()));
    let value = json(
        r#"{"type":"AdaptiveCard","$schema":"http://adaptivecards.io/schemas/adaptive-card.json","version":"1.2","body":[],"actions":null,"selectAction":null,"msteams":null}"#,
    );
    assert_eq!(AdaptiveCard::decode(&value), Ok(AdaptiveCard::default()));
}

fn submit_bare() -> Action {
    Action::Submit(SubmitAction {
        title: None,
        data: None,
        associated_inputs: None,
        id: None,
        icon_url: None,
        style: None,
        tooltip: None,
        is_enabled: None,
        mode: None,
    })
}

#[test]
fn data_that_is_null_is_not_written() {
    let action = submit(Some(Value::Null));
    assert!(!action.is_well_formed());
    let written = action.encode();
    assert!(written.as_object().unwrap().get("data").is_none());
    assert_eq!(Action::decode(&written), Ok(submit(None)));
}

#[test]
fn a_card_that_is_not_well_formed_is_told_apart() {
    let card = AdaptiveCard { schema: "elsewhere".to_string(), ..Default::default() };
    assert!(!card.is_well_formed());
    assert!(AdaptiveCard::decode(&card.encode()).is_err());

    let run = TextRun {
        type_field: "Run".to_string(),
        text: "x".to_string(),
        color: None,
        font_type: None,
        highlight: None,
        is_subtle: None,
        italic: None,
        size: None,
        strikethrough: None,
        weight: None,
    };
    assert!(!run.is_well_formed());
    assert!(TextRun::decode(&run.encode()).is_err());
    let block = CardElement::RichTextBlock(RichTextBlock {
        inlines: vec![Inline::Text("fine".to_string()), Inline::TextRun(run)],
        horizontal_alignment: None,
        id: None,
        separator: None,
        spacing: None,
        height: None,
        is_visible: None,
    });
    assert!(!block.is_well_formed());
    let card = AdaptiveCard {
        actions: Some(vec![show_card(AdaptiveCard { body: vec![block], ..Default::default() })]),
        ..Default::default()
    };
    assert!(!card.is_well_formed());
    assert!(full_card().is_well_formed());
}

#[test]
fn checked_encoding_refuses_what_is_not_well_formed() {
    let card = full_card();
    assert_eq!(card.encode_checked(), Some(card.encode()));
    let card = AdaptiveCard { schema: String::new(), ..Default::default() };
    assert_eq!(card.encode_checked(), None);
    let card = AdaptiveCard {
        select_action: Some(Box::new(submit(Some(Value::Null)))),
        ..Default::default()
    };
    assert_eq!(card.encode_checked(), None);
}

#[test]
fn nesting_is_counted_by_elements_and_actions() {
    let leaf = CardElement::TextBlock(TextBlock::default());
    assert!(!leaf.is_within(0));
    assert!(leaf.is_within(1));
    let nested = CardElement::Container(Container {
        items: vec![CardElement::ActionSet(ActionSet {
            actions: vec![show_card(AdaptiveCard {
                body: vec![CardElement::TextBlock(TextBlock::default())],
                ..Default::default()
            })],
        })],
        ..Default::default()
    });
    // container, action set, action, text block
    assert!(!nested.is_within(3));
    assert!(nested.is_within(4));
    assert!(CardElement::decode_within(&nested.encode(), 3).is_err());
    assert_eq!(CardElement::decode_within(&nested.encode(), 4), Ok(nested));
    assert!(AdaptiveCard::default().is_within(0));
}

#[test]
fn select_action_may_show_a_card() {
    let card = AdaptiveCard {
        select_action: Some(Box::new(show_card(AdaptiveCard {
            select_action: Some(Box::new(show_card(AdaptiveCard::default()))),
            ..Default::default()
        }))),
        body: vec![
            CardElement::Container(Container {
                select_action: Some(Box::new(show_card(AdaptiveCard::default()))),
                ..Default::default()
            }),
            CardElement::Image(Image {
                url: "u".to_string(),
                select_action: Some(Box::new(show_card(AdaptiveCard::default()))),
                ..Default::default()
            }),
        ],
        ..Default::default()
    };
    assert!(card.is_well_formed());
    assert_eq!(AdaptiveCard::decode(&card.encode()), Ok(card));
}

#[test]
fn three_levels_of_show_card_are_read_back_as_written() {
    let innermost = AdaptiveCard {
        version: Version::V1_0,
        body: vec![CardElement::TextBlock(TextBlock {
            text: "third".to_string(),
            ..Default::default()
        })],
        ..Default::default()
    };
    let middle = AdaptiveCard {
        version: Version::V1_1,
        body: vec![CardElement::ActionSet(ActionSet {
            actions: vec![show_card(innermost.clone())],
        })],
        ..Default::default()
    };
    let outer = AdaptiveCard {
        version: Version::V1_2,
        body: vec![CardElement::ActionSet(ActionSet { actions: vec![show_card(middle.clone())] })],
        ..Default::default()
    };

    let written = outer.encode();
    assert_eq!(AdaptiveCard::decode(&written), Ok(outer));

    // Each level's `card` is what that level's document is written as on its own.
    let first = &written["body"][0]["actions"][0];
    assert_eq!(first["type"], json(r#""Action.ShowCard""#));
    assert_eq!(first["card"], middle.encode());
    let second = &first["card"]["body"][0]["actions"][0];
    assert_eq!(second["card"], innermost.encode());
    assert_eq!(second["card"]["body"][0]["text"], json(r#""third""#));
}

#[test]
fn hello_card_is_written_exactly() {
    let card = AdaptiveCard {
        version: Version::V1_3,
        body: vec![CardElement::TextBlock(TextBlock {
            text: "Hello, Adaptive Card!".to_string(),
            size: Some(TextSize::Large),
            weight: Some(TextWeight::Bolder),
            wrap: Some(true),
            is_subtle: Some(false),
            ..Default::default()
        })],
        ..Default::default()
    };
    let expected = json(
        r#"{"type":"AdaptiveCard","$schema":"http://adaptivecards.io/schemas/adaptive-card.json","version":"1.3","body":[{"type":"TextBlock","text":"Hello, Adaptive Card!","size":"large","weight":"bolder","wrap":true,"isSubtle":false}]}"#,
    );
    assert_eq!(card.encode(), expected);
}

#[test]
fn default_card_is_empty_and_of_version_1_2() {
    let card = AdaptiveCard::default();
    assert_eq!(card.schema, "http://adaptivecards.io/schemas/adaptive-card.json");
    assert_eq!(card.version, Version::V1_2);
    assert!(card.body.is_empty());
    assert_eq!(card.msteams, None);
    assert_eq!(card.actions, None);
    assert_eq!(card.select_action, None);
    assert_eq!(card.fallback_text, None);
    assert_eq!(card.min_height, None);
    assert_eq!(card.vertical_content_alignment, None);
    assert_eq!(card.rtl, None);
    assert_eq!(card.lang, None);
    assert_eq!(
        card.encode(),
        json(
            r#"{"type":"AdaptiveCard","$schema":"http://adaptivecards.io/schemas/adaptive-card.json","version":"1.2","body":[]}"#
        ),
    );
}

#[test]
fn clone_is_equal_to_what_it_copies() {
    let card = full_card();
    assert_eq!(card.clone(), card);
    for element in every_element() {
        assert_eq!(element.clone(), element);
        assert_eq!(element.duplicate(), element);
    }
    let action = show_card(full_card());
    assert_eq!(action.clone(), action);
}

#[test]
fn numbers_of_an_input_are_kept_as_they_are() {
    let input = InputNumber {
        id: "n".to_string(),
        min: Number::from_f64(0.0),
        max: Number::from_f64(120.0),
        placeholder: None,
        value: Some(Number::from(7u32)),
        label: None,
        is_required: None,
        error_message: None,
        separator: None,
        spacing: None,
        height: None,
        is_visible: None,
    };
    let written = input.encode();
    assert_eq!(serde_json::to_string(&written).unwrap(), r#"{"id":"n","max":120.0,"min":0.0,"value":7}"#);
    assert_eq!(InputNumber::decode(&written), Ok(input));
    let read = InputNumber::decode(&json(r#"{"id":"n","min":-3,"max":1e3}"#)).unwrap();
    assert_eq!(read.min, Some(Number::from(-3i64)));
    assert_eq!(read.max, Number::from_f64(1000.0));
    assert_eq!(read.value, None);
}

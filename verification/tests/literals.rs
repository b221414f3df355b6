use adaptive_card_rs::actions::ActionKind;
use adaptive_card_rs::card::{
    ContainerStyle, ElementKind, ImageSize, MsTeamsWidth, Spacing, TextSize, TextWeight, Version,
};
use adaptive_card_rs::common::{
    ActionMode, ActionStyle, AssociatedInputs, ChoiceInputStyle, Color, FontType, Height,
    HorizontalAlignment, TextBlockStyle, TextInputStyle, VerticalContentAlignment,
};
use adaptive_card_rs::literal::Literal;

fn check<T: Literal + PartialEq + std::fmt::Debug>(table: &[(T, &str)]) {
    for (value, token) in table {
        assert_eq!(value.token(), *token);
        assert_eq!(T::from_token(token), Some(*value));
    }
    for (i, (_, a)) in table.iter().enumerate() {
        for (_, b) in &table[..i] {
            assert_ne!(a, b);
        }
    }
    assert_eq!(T::from_token(""), None);
    assert_eq!(T::from_token("noSuchToken"), None);
    for (_, token) in table {
        if token.to_uppercase() != *token {
            assert_eq!(T::from_token(&token.to_uppercase()), None);
        }
        assert_eq!(T::from_token(&format!("{} ", token)), None);
        assert_eq!(T::from_token(&format!("{}X", token)), None);
        assert_eq!(T::from_token(&token[1..]), None);
    }
}

#[test]
fn text_tokens() {
    check(&[
        (TextSize::Small, "small"),
        (TextSize::Default, "default"),
        (TextSize::Medium, "medium"),
        (TextSize::Large, "large"),
        (TextSize::ExtraLarge, "extraLarge"),
    ]);
    check(&[
        (TextWeight::Lighter, "lighter"),
        (TextWeight::Default, "default"),
        (TextWeight::Bolder, "bolder"),
    ]);
    check(&[
        (Color::Default, "default"),
        (Color::Dark, "dark"),
        (Color::Light, "light"),
        (Color::Accent, "accent"),
        (Color::Good, "good"),
        (Color::Warning, "warning"),
        (Color::Attention, "attention"),
    ]);
    check(&[(FontType::Default, "default"), (FontType::Monospace, "monospace")]);
    check(&[(TextBlockStyle::Default, "default"), (TextBlockStyle::Heading, "heading")]);
}

#[test]
fn layout_tokens() {
    check(&[
        (HorizontalAlignment::Left, "left"),
        (HorizontalAlignment::Center, "center"),
        (HorizontalAlignment::Right, "right"),
    ]);
    check(&[
        (VerticalContentAlignment::Top, "top"),
        (VerticalContentAlignment::Center, "center"),
        (VerticalContentAlignment::Bottom, "bottom"),
    ]);
    check(&[(Height::Auto, "auto"), (Height::Stretch, "stretch")]);
    check(&[
        (Spacing::NoSpacing, "none"),
        (Spacing::Small, "small"),
        (Spacing::Default, "default"),
        (Spacing::Medium, "medium"),
        (Spacing::Large, "large"),
        (Spacing::ExtraLarge, "extraLarge"),
        (Spacing::Padding, "padding"),
    ]);
    check(&[
        (ContainerStyle::Default, "default"),
        (ContainerStyle::Emphasis, "emphasis"),
        (ContainerStyle::Good, "good"),
        (ContainerStyle::Attention, "attention"),
        (ContainerStyle::Warning, "warning"),
        (ContainerStyle::Accent, "accent"),
    ]);
    check(&[
        (ImageSize::Auto, "auto"),
        (ImageSize::Stretch, "stretch"),
        (ImageSize::Small, "small"),
        (ImageSize::Medium, "medium"),
        (ImageSize::Large, "large"),
    ]);
    check(&[(MsTeamsWidth::Full, "full")]);
}

#[test]
fn action_and_input_tokens() {
    check(&[
        (ActionStyle::Default, "default"),
        (ActionStyle::Positive, "positive"),
        (ActionStyle::Destructive, "destructive"),
    ]);
    check(&[(ActionMode::Primary, "primary"), (ActionMode::Secondary, "secondary")]);
    check(&[(AssociatedInputs::Auto, "auto"), (AssociatedInputs::NoInputs, "none")]);
    check(&[
        (TextInputStyle::Text, "text"),
        (TextInputStyle::Tel, "tel"),
        (TextInputStyle::Url, "url"),
        (TextInputStyle::Email, "email"),
        (TextInputStyle::Password, "password"),
    ]);
    check(&[
        (ChoiceInputStyle::Compact, "compact"),
        (ChoiceInputStyle::Expanded, "expanded"),
        (ChoiceInputStyle::Filtered, "filtered"),
    ]);
}

#[test]
fn version_tokens() {
    check(&[
        (Version::V1_0, "1.0"),
        (Version::V1_1, "1.1"),
        (Version::V1_2, "1.2"),
        (Version::V1_3, "1.3"),
        (Version::V1_4, "1.4"),
        (Version::V1_5, "1.5"),
        (Version::V1_6, "1.6"),
    ]);
}

#[test]
fn discriminant_tokens() {
    check(&[
        (ElementKind::TextBlock, "TextBlock"),
        (ElementKind::Container, "Container"),
        (ElementKind::ColumnSet, "ColumnSet"),
        (ElementKind::Image, "Image"),
        (ElementKind::ActionSet, "ActionSet"),
        (ElementKind::FactSet, "FactSet"),
        (ElementKind::RichTextBlock, "RichTextBlock"),
        (ElementKind::InputText, "Input.Text"),
        (ElementKind::InputNumber, "Input.Number"),
        (ElementKind::InputDate, "Input.Date"),
        (ElementKind::InputTime, "Input.Time"),
        (ElementKind::InputToggle, "Input.Toggle"),
        (ElementKind::InputChoiceSet, "Input.ChoiceSet"),
    ]);
    check(&[
        (ActionKind::OpenUrl, "Action.OpenUrl"),
        (ActionKind::Submit, "Action.Submit"),
        (ActionKind::ShowCard, "Action.ShowCard"),
        (ActionKind::ToggleVisibility, "Action.ToggleVisibility"),
    ]);
}

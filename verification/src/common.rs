//! Enumerated literals shared by card elements, inputs and actions.

use crate::literal::Literal;
use crate::text::shape;
use vstd::prelude::*;

verus! {

/// Controls the color of text elements.
#[derive(Debug, Clone, Copy, PartialEq, Eq, Structural)]
pub enum Color {
    Default,
    Dark,
    Light,
    Accent,
    Good,
    Warning,
    Attention,
}

impl Literal for Color {
    open spec fn token_spec(self) -> Seq<char> {
        match self {
            Color::Default => "default"@,
            Color::Dark => "dark"@,
            Color::Light => "light"@,
            Color::Accent => "accent"@,
            Color::Good => "good"@,
            Color::Warning => "warning"@,
            Color::Attention => "attention"@,
        }
    }

    open spec fn parse_spec(s: Seq<char>) -> Option<Self> {
        if s == Color::Default.token_spec() {
            Some(Color::Default)
        } else if s == Color::Dark.token_spec() {
            Some(Color::Dark)
        } else if s == Color::Light.token_spec() {
            Some(Color::Light)
        } else if s == Color::Accent.token_spec() {
            Some(Color::Accent)
        } else if s == Color::Good.token_spec() {
            Some(Color::Good)
        } else if s == Color::Warning.token_spec() {
            Some(Color::Warning)
        } else if s == Color::Attention.token_spec() {
            Some(Color::Attention)
        } else {
            None
        }
    }

    fn token(&self) -> (r: &'static str) {
        match self {
            Color::Default => "default",
            Color::Dark => "dark",
            Color::Light => "light",
            Color::Accent => "accent",
            Color::Good => "good",
            Color::Warning => "warning",
            Color::Attention => "attention",
        }
    }

    fn from_token(s: &str) -> (r: Option<Self>) {
        if s.eq(Color::Default.token()) {
            Some(Color::Default)
        } else if s.eq(Color::Dark.token()) {
            Some(Color::Dark)
        } else if s.eq(Color::Light.token()) {
            Some(Color::Light)
        } else if s.eq(Color::Accent.token()) {
            Some(Color::Accent)
        } else if s.eq(Color::Good.token()) {
            Some(Color::Good)
        } else if s.eq(Color::Warning.token()) {
            Some(Color::Warning)
        } else if s.eq(Color::Attention.token()) {
            Some(Color::Attention)
        } else {
            None
        }
    }

    proof fn lemma_token_parses(self) {
        reveal_strlit("default");
        reveal_strlit("dark");
        reveal_strlit("light");
        reveal_strlit("accent");
        reveal_strlit("good");
        reveal_strlit("warning");
        reveal_strlit("attention");
        assert(shape("default"@) == (7nat, 'd', 't'));
        assert(shape("dark"@) == (4nat, 'd', 'k'));
        assert(shape("light"@) == (5nat, 'l', 't'));
        assert(shape("accent"@) == (6nat, 'a', 't'));
        assert(shape("good"@) == (4nat, 'g', 'd'));
        assert(shape("warning"@) == (7nat, 'w', 'g'));
        assert(shape("attention"@) == (9nat, 'a', 'n'));
    }

    proof fn lemma_parsed_token(s: Seq<char>) {
    }
}

/// Controls horizontal alignment of elements.
#[derive(Debug, Clone, Copy, PartialEq, Eq, Structural)]
pub enum HorizontalAlignment {
    Left,
    Center,
    Right,
}

impl Literal for HorizontalAlignment {
    open spec fn token_spec(self) -> Seq<char> {
        match self {
            HorizontalAlignment::Left => "left"@,
            HorizontalAlignment::Center => "center"@,
            HorizontalAlignment::Right => "right"@,
        }
    }

    open spec fn parse_spec(s: Seq<char>) -> Option<Self> {
        if s == HorizontalAlignment::Left.token_spec() {
            Some(HorizontalAlignment::Left)
        } else if s == HorizontalAlignment::Center.token_spec() {
            Some(HorizontalAlignment::Center)
        } else if s == HorizontalAlignment::Right.token_spec() {
            Some(HorizontalAlignment::Right)
        } else {
            None
        }
    }

    fn token(&self) -> (r: &'static str) {
        match self {
            HorizontalAlignment::Left => "left",
            HorizontalAlignment::Center => "center",
            HorizontalAlignment::Right => "right",
        }
    }

    fn from_token(s: &str) -> (r: Option<Self>) {
        if s.eq(HorizontalAlignment::Left.token()) {
            Some(HorizontalAlignment::Left)
        } else if s.eq(HorizontalAlignment::Center.token()) {
            Some(HorizontalAlignment::Center)
        } else if s.eq(HorizontalAlignment::Right.token()) {
            Some(HorizontalAlignment::Right)
        } else {
            None
        }
    }

    proof fn lemma_token_parses(self) {
        reveal_strlit("left");
        reveal_strlit("center");
        reveal_strlit("right");
        assert(shape("left"@) == (4nat, 'l', 't'));
        assert(shape("center"@) == (6nat, 'c', 'r'));
        assert(shape("right"@) == (5nat, 'r', 't'));
    }

    proof fn lemma_parsed_token(s: Seq<char>) {
    }
}

/// Controls vertical alignment of content within a container.
#[derive(Debug, Clone, Copy, PartialEq, Eq, Structural)]
pub enum VerticalContentAlignment {
    Top,
    Center,
    Bottom,
}

impl Literal for VerticalContentAlignment {
    open spec fn token_spec(self) -> Seq<char> {
        match self {
            VerticalContentAlignment::Top => "top"@,
            VerticalContentAlignment::Center => "center"@,
            VerticalContentAlignment::Bottom => "bottom"@,
        }
    }

    open spec fn parse_spec(s: Seq<char>) -> Option<Self> {
        if s == VerticalContentAlignment::Top.token_spec() {
            Some(VerticalContentAlignment::Top)
        } else if s == VerticalContentAlignment::Center.token_spec() {
            Some(VerticalContentAlignment::Center)
        } else if s == VerticalContentAlignment::Bottom.token_spec() {
            Some(VerticalContentAlignment::Bottom)
        } else {
            None
        }
    }

    fn token(&self) -> (r: &'static str) {
        match self {
            VerticalContentAlignment::Top => "top",
            VerticalContentAlignment::Center => "center",
            VerticalContentAlignment::Bottom => "bottom",
        }
    }

    fn from_token(s: &str) -> (r: Option<Self>) {
        if s.eq(VerticalContentAlignment::Top.token()) {
            Some(VerticalContentAlignment::Top)
        } else if s.eq(VerticalContentAlignment::Center.token()) {
            Some(VerticalContentAlignment::Center)
        } else if s.eq(VerticalContentAlignment::Bottom.token()) {
            Some(VerticalContentAlignment::Bottom)
        } else {
            None
        }
    }

    proof fn lemma_token_parses(self) {
        reveal_strlit("top");
        reveal_strlit("center");
        reveal_strlit("bottom");
        assert(shape("top"@) == (3nat, 't', 'p'));
        assert(shape("center"@) == (6nat, 'c', 'r'));
        assert(shape("bottom"@) == (6nat, 'b', 'm'));
    }

    proof fn lemma_parsed_token(s: Seq<char>) {
    }
}

/// Specifies the height of a block element.
#[derive(Debug, Clone, Copy, PartialEq, Eq, Structural)]
pub enum Height {
    /// The height is determined by the contents.
    Auto,
    /// The element stretches to fill the available space.
    Stretch,
}

impl Literal for Height {
    open spec fn token_spec(self) -> Seq<char> {
        match self {
            Height::Auto => "auto"@,
            Height::Stretch => "stretch"@,
        }
    }

    open spec fn parse_spec(s: Seq<char>) -> Option<Self> {
        if s == Height::Auto.token_spec() {
            Some(Height::Auto)
        } else if s == Height::Stretch.token_spec() {
            Some(Height::Stretch)
        } else {
            None
        }
    }

    fn token(&self) -> (r: &'static str) {
        match self {
            Height::Auto => "auto",
            Height::Stretch => "stretch",
        }
    }

    fn from_token(s: &str) -> (r: Option<Self>) {
        if s.eq(Height::Auto.token()) {
            Some(Height::Auto)
        } else if s.eq(Height::Stretch.token()) {
            Some(Height::Stretch)
        } else {
            None
        }
    }

    proof fn lemma_token_parses(self) {
        reveal_strlit("auto");
        reveal_strlit("stretch");
        assert(shape("auto"@) == (4nat, 'a', 'o'));
        assert(shape("stretch"@) == (7nat, 's', 'h'));
    }

    proof fn lemma_parsed_token(s: Seq<char>) {
    }
}

/// Type of font to use for rendering text.
#[derive(Debug, Clone, Copy, PartialEq, Eq, Structural)]
pub enum FontType {
    Default,
    Monospace,
}

impl Literal for FontType {
    open spec fn token_spec(self) -> Seq<char> {
        match self {
            FontType::Default => "default"@,
            FontType::Monospace => "monospace"@,
        }
    }

    open spec fn parse_spec(s: Seq<char>) -> Option<Self> {
        if s == FontType::Default.token_spec() {
            Some(FontType::Default)
        } else if s == FontType::Monospace.token_spec() {
            Some(FontType::Monospace)
        } else {
            None
        }
    }

    fn token(&self) -> (r: &'static str) {
        match self {
            FontType::Default => "default",
            FontType::Monospace => "monospace",
        }
    }

    fn from_token(s: &str) -> (r: Option<Self>) {
        if s.eq(FontType::Default.token()) {
            Some(FontType::Default)
        } else if s.eq(FontType::Monospace.token()) {
            Some(FontType::Monospace)
        } else {
            None
        }
    }

    proof fn lemma_token_parses(self) {
        reveal_strlit("default");
        reveal_strlit("monospace");
        assert(shape("default"@) == (7nat, 'd', 't'));
        assert(shape("monospace"@) == (9nat, 'm', 'e'));
    }

    proof fn lemma_parsed_token(s: Seq<char>) {
    }
}

/// Controls the style of an action.
#[derive(Debug, Clone, Copy, PartialEq, Eq, Structural)]
pub enum ActionStyle {
    /// Displayed as normal.
    Default,
    /// Displayed with a positive style, typically the accent color.
    Positive,
    /// Displayed with a destructive style, typically red.
    Destructive,
}

impl Literal for ActionStyle {
    open spec fn token_spec(self) -> Seq<char> {
        match self {
            ActionStyle::Default => "default"@,
            ActionStyle::Positive => "positive"@,
            ActionStyle::Destructive => "destructive"@,
        }
    }

    open spec fn parse_spec(s: Seq<char>) -> Option<Self> {
        if s == ActionStyle::Default.token_spec() {
            Some(ActionStyle::Default)
        } else if s == ActionStyle::Positive.token_spec() {
            Some(ActionStyle::Positive)
        } else if s == ActionStyle::Destructive.token_spec() {
            Some(ActionStyle::Destructive)
        } else {
            None
        }
    }

    fn token(&self) -> (r: &'static str) {
        match self {
            ActionStyle::Default => "default",
            ActionStyle::Positive => "positive",
            ActionStyle::Destructive => "destructive",
        }
    }

    fn from_token(s: &str) -> (r: Option<Self>) {
        if s.eq(ActionStyle::Default.token()) {
            Some(ActionStyle::Default)
        } else if s.eq(ActionStyle::Positive.token()) {
            Some(ActionStyle::Positive)
        } else if s.eq(ActionStyle::Destructive.token()) {
            Some(ActionStyle::Destructive)
        } else {
            None
        }
    }

    proof fn lemma_token_parses(self) {
        reveal_strlit("default");
        reveal_strlit("positive");
        reveal_strlit("destructive");
        assert(shape("default"@) == (7nat, 'd', 't'));
        assert(shape("positive"@) == (8nat, 'p', 'e'));
        assert(shape("destructive"@) == (11nat, 'd', 'e'));
    }

    proof fn lemma_parsed_token(s: Seq<char>) {
    }
}

/// Whether an action is displayed as a button or in the overflow menu.
#[derive(Debug, Clone, Copy, PartialEq, Eq, Structural)]
pub enum ActionMode {
    /// Displayed as a button.
    Primary,
    /// Placed in the overflow menu.
    Secondary,
}

impl Literal for ActionMode {
    open spec fn token_spec(self) -> Seq<char> {
        match self {
            ActionMode::Primary => "primary"@,
            ActionMode::Secondary => "secondary"@,
        }
    }

    open spec fn parse_spec(s: Seq<char>) -> Option<Self> {
        if s == ActionMode::Primary.token_spec() {
            Some(ActionMode::Primary)
        } else if s == ActionMode::Secondary.token_spec() {
            Some(ActionMode::Secondary)
        } else {
            None
        }
    }

    fn token(&self) -> (r: &'static str) {
        match self {
            ActionMode::Primary => "primary",
            ActionMode::Secondary => "secondary",
        }
    }

    fn from_token(s: &str) -> (r: Option<Self>) {
        if s.eq(ActionMode::Primary.token()) {
            Some(ActionMode::Primary)
        } else if s.eq(ActionMode::Secondary.token()) {
            Some(ActionMode::Secondary)
        } else {
            None
        }
    }

    proof fn lemma_token_parses(self) {
        reveal_strlit("primary");
        reveal_strlit("secondary");
        assert(shape("primary"@) == (7nat, 'p', 'y'));
        assert(shape("secondary"@) == (9nat, 's', 'y'));
    }

    proof fn lemma_parsed_token(s: Seq<char>) {
    }
}

/// Controls which inputs are associated with a submit action.
#[derive(Debug, Clone, Copy, PartialEq, Eq, Structural)]
pub enum AssociatedInputs {
    /// The inputs of the current card and of its parent cards are validated and submitted.
    Auto,
    /// No input is validated or submitted.
    NoInputs,
}

impl Literal for AssociatedInputs {
    open spec fn token_spec(self) -> Seq<char> {
        match self {
            AssociatedInputs::Auto => "auto"@,
            AssociatedInputs::NoInputs => "none"@,
        }
    }

    open spec fn parse_spec(s: Seq<char>) -> Option<Self> {
        if s == AssociatedInputs::Auto.token_spec() {
            Some(AssociatedInputs::Auto)
        } else if s == AssociatedInputs::NoInputs.token_spec() {
            Some(AssociatedInputs::NoInputs)
        } else {
            None
        }
    }

    fn token(&self) -> (r: &'static str) {
        match self {
            AssociatedInputs::Auto => "auto",
            AssociatedInputs::NoInputs => "none",
        }
    }

    fn from_token(s: &str) -> (r: Option<Self>) {
        if s.eq(AssociatedInputs::Auto.token()) {
            Some(AssociatedInputs::Auto)
        } else if s.eq(AssociatedInputs::NoInputs.token()) {
            Some(AssociatedInputs::NoInputs)
        } else {
            None
        }
    }

    proof fn lemma_token_parses(self) {
        reveal_strlit("auto");
        reveal_strlit("none");
        assert(shape("auto"@) == (4nat, 'a', 'o'));
        assert(shape("none"@) == (4nat, 'n', 'e'));
    }

    proof fn lemma_parsed_token(s: Seq<char>) {
    }
}

/// The style of a text input.
#[derive(Debug, Clone, Copy, PartialEq, Eq, Structural)]
pub enum TextInputStyle {
    Text,
    Tel,
    Url,
    Email,
    Password,
}

impl Literal for TextInputStyle {
    open spec fn token_spec(self) -> Seq<char> {
        match self {
            TextInputStyle::Text => "text"@,
            TextInputStyle::Tel => "tel"@,
            TextInputStyle::Url => "url"@,
            TextInputStyle::Email => "email"@,
            TextInputStyle::Password => "password"@,
        }
    }

    open spec fn parse_spec(s: Seq<char>) -> Option<Self> {
        if s == TextInputStyle::Text.token_spec() {
            Some(TextInputStyle::Text)
        } else if s == TextInputStyle::Tel.token_spec() {
            Some(TextInputStyle::Tel)
        } else if s == TextInputStyle::Url.token_spec() {
            Some(TextInputStyle::Url)
        } else if s == TextInputStyle::Email.token_spec() {
            Some(TextInputStyle::Email)
        } else if s == TextInputStyle::Password.token_spec() {
            Some(TextInputStyle::Password)
        } else {
            None
        }
    }

    fn token(&self) -> (r: &'static str) {
        match self {
            TextInputStyle::Text => "text",
            TextInputStyle::Tel => "tel",
            TextInputStyle::Url => "url",
            TextInputStyle::Email => "email",
            TextInputStyle::Password => "password",
        }
    }

    fn from_token(s: &str) -> (r: Option<Self>) {
        if s.eq(TextInputStyle::Text.token()) {
            Some(TextInputStyle::Text)
        } else if s.eq(TextInputStyle::Tel.token()) {
            Some(TextInputStyle::Tel)
        } else if s.eq(TextInputStyle::Url.token()) {
            Some(TextInputStyle::Url)
        } else if s.eq(TextInputStyle::Email.token()) {
            Some(TextInputStyle::Email)
        } else if s.eq(TextInputStyle::Password.token()) {
            Some(TextInputStyle::Password)
        } else {
            None
        }
    }

    proof fn lemma_token_parses(self) {
        reveal_strlit("text");
        reveal_strlit("tel");
        reveal_strlit("url");
        reveal_strlit("email");
        reveal_strlit("password");
        assert(shape("text"@) == (4nat, 't', 't'));
        assert(shape("tel"@) == (3nat, 't', 'l'));
        assert(shape("url"@) == (3nat, 'u', 'l'));
        assert(shape("email"@) == (5nat, 'e', 'l'));
        assert(shape("password"@) == (8nat, 'p', 'd'));
    }

    proof fn lemma_parsed_token(s: Seq<char>) {
    }
}

/// The style of a choice input.
#[derive(Debug, Clone, Copy, PartialEq, Eq, Structural)]
pub enum ChoiceInputStyle {
    /// Displayed as a drop-down list.
    Compact,
    /// Displayed as radio buttons or check boxes.
    Expanded,
    /// Lets the user filter the choices.
    Filtered,
}

impl Literal for ChoiceInputStyle {
    open spec fn token_spec(self) -> Seq<char> {
        match self {
            ChoiceInputStyle::Compact => "compact"@,
            ChoiceInputStyle::Expanded => "expanded"@,
            ChoiceInputStyle::Filtered => "filtered"@,
        }
    }

    open spec fn parse_spec(s: Seq<char>) -> Option<Self> {
        if s == ChoiceInputStyle::Compact.token_spec() {
            Some(ChoiceInputStyle::Compact)
        } else if s == ChoiceInputStyle::Expanded.token_spec() {
            Some(ChoiceInputStyle::Expanded)
        } else if s == ChoiceInputStyle::Filtered.token_spec() {
            Some(ChoiceInputStyle::Filtered)
        } else {
            None
        }
    }

    fn token(&self) -> (r: &'static str) {
        match self {
            ChoiceInputStyle::Compact => "compact",
            ChoiceInputStyle::Expanded => "expanded",
            ChoiceInputStyle::Filtered => "filtered",
        }
    }

    fn from_token(s: &str) -> (r: Option<Self>) {
        if s.eq(ChoiceInputStyle::Compact.token()) {
            Some(ChoiceInputStyle::Compact)
        } else if s.eq(ChoiceInputStyle::Expanded.token()) {
            Some(ChoiceInputStyle::Expanded)
        } else if s.eq(ChoiceInputStyle::Filtered.token()) {
            Some(ChoiceInputStyle::Filtered)
        } else {
            None
        }
    }

    proof fn lemma_token_parses(self) {
        reveal_strlit("compact");
        reveal_strlit("expanded");
        reveal_strlit("filtered");
        assert(shape("compact"@) == (7nat, 'c', 't'));
        assert(shape("expanded"@) == (8nat, 'e', 'd'));
        assert(shape("filtered"@) == (8nat, 'f', 'd'));
    }

    proof fn lemma_parsed_token(s: Seq<char>) {
    }
}

/// The style of a text block, for accessibility.
#[derive(Debug, Clone, Copy, PartialEq, Eq, Structural)]
pub enum TextBlockStyle {
    /// No special styling.
    Default,
    /// The text block is a heading.
    Heading,
}

impl Literal for TextBlockStyle {
    open spec fn token_spec(self) -> Seq<char> {
        match self {
            TextBlockStyle::Default => "default"@,
            TextBlockStyle::Heading => "heading"@,
        }
    }

    open spec fn parse_spec(s: Seq<char>) -> Option<Self> {
        if s == TextBlockStyle::Default.token_spec() {
            Some(TextBlockStyle::Default)
        } else if s == TextBlockStyle::Heading.token_spec() {
            Some(TextBlockStyle::Heading)
        } else {
            None
        }
    }

    fn token(&self) -> (r: &'static str) {
        match self {
            TextBlockStyle::Default => "default",
            TextBlockStyle::Heading => "heading",
        }
    }

    fn from_token(s: &str) -> (r: Option<Self>) {
        if s.eq(TextBlockStyle::Default.token()) {
            Some(TextBlockStyle::Default)
        } else if s.eq(TextBlockStyle::Heading.token()) {
            Some(TextBlockStyle::Heading)
        } else {
            None
        }
    }

    proof fn lemma_token_parses(self) {
        reveal_strlit("default");
        reveal_strlit("heading");
        assert(shape("default"@) == (7nat, 'd', 't'));
        assert(shape("heading"@) == (7nat, 'h', 'g'));
    }

    proof fn lemma_parsed_token(s: Seq<char>) {
    }
}

} // verus!

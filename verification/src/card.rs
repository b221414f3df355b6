//! Cards and the elements of their bodies.

use crate::actions::{Action, ActionSet, ActionSetView, ActionView};
use crate::common::{Color, FontType, Height, HorizontalAlignment, VerticalContentAlignment};
use crate::error::{decoded, failure, under_key, DecodeError, DecodeErrorView, ErrorKind};
use crate::field::{
    decode_seq, fails_with, gives, in_key, kind_of, lemma_decode_seq_all, lemma_decode_seq_each,
    lemma_decode_seq_empty, lemma_decode_seq_fails, lemma_decode_seq_next, lemma_literal_is,
    lemma_reads_array, lemma_reads_kind, lemma_reads_literal, lemma_reads_opt_array,
    lemma_reads_opt_bool, lemma_reads_opt_text, lemma_reads_opt_token, lemma_reads_opt_u32,
    lemma_reads_tag, lemma_reads_text, lemma_reads_token, lemma_reads_value, lemma_tag_keeps,
    lemma_tagged_is, lemma_with_none, lemma_with_opt, mismatch, opt_bool_json, opt_json,
    opt_text_json, opt_token_json, opt_u32_json, opt_value, optional_bool, optional_text,
    optional_token, optional_u32, required, required_array, required_literal, required_text,
    required_token, some, tagged, token_json, type_key, u32_json, unknown_tag, with, with_opt,
};
use crate::inputs::{
    InputChoiceSet, InputChoiceSetView, InputDate, InputDateView, InputNumber, InputNumberView,
    InputText, InputTextView, InputTime, InputTimeView, InputToggle, InputToggleView,
};
use crate::json::{
    array_value, as_text, field, new_object, no_fields, object_fields, object_value, string_value,
    value_json, values_json, Fields, Json, Num, Object,
};
use crate::keys::lemma_key_shapes;
use crate::literal::Literal;
use crate::object::{
    clone_opt_text, find, get, get_array, get_kind, get_literal, get_opt_bool, get_opt_text,
    get_opt_token, get_opt_u32, get_tag, get_text, get_token, put, put_opt, put_opt_bool,
    put_opt_text, put_opt_token, put_opt_u32, put_text, put_token, read_object, read_u32,
    u32_value,
};
use crate::text::{
    larger, lemma_pixels_end, lemma_pixels_parse, parse_pixels, parse_pixels_text, pixels,
    pixels_text, shape,
};
use serde_json::Value;
use vstd::prelude::*;

verus! {

/// The deepest nesting of elements and actions that `decode` accepts: an
/// element in the body of a card is at depth 1, an element or an action in
/// it at depth 2, and so on. A card in an action does not count. `serde_json`
/// parses text with at most 128 arrays and objects in one another, which
/// leaves room for no more than 64 elements and actions in one another.
pub const MAX_DEPTH: usize = 64;

/// The address of the schema that every card names.
pub open spec fn schema_spec() -> Seq<char> {
    "http://adaptivecards.io/schemas/adaptive-card.json"@
}

/// The address of the schema that every card names.
pub fn schema_url() -> (r: &'static str)
    ensures
        r@ == schema_spec(),
{
    "http://adaptivecards.io/schemas/adaptive-card.json"
}

/// The schema version that a card declares. Nothing is checked against it: a
/// card may hold what its version does not know.
#[derive(Debug, Clone, Copy, PartialEq, Eq, Structural)]
pub enum Version {
    V1_0,
    V1_1,
    V1_2,
    V1_3,
    V1_4,
    V1_5,
    V1_6,
}

impl Literal for Version {
    open spec fn token_spec(self) -> Seq<char> {
        match self {
            Version::V1_0 => "1.0"@,
            Version::V1_1 => "1.1"@,
            Version::V1_2 => "1.2"@,
            Version::V1_3 => "1.3"@,
            Version::V1_4 => "1.4"@,
            Version::V1_5 => "1.5"@,
            Version::V1_6 => "1.6"@,
        }
    }

    open spec fn parse_spec(s: Seq<char>) -> Option<Self> {
        if s == Version::V1_0.token_spec() {
            Some(Version::V1_0)
        } else if s == Version::V1_1.token_spec() {
            Some(Version::V1_1)
        } else if s == Version::V1_2.token_spec() {
            Some(Version::V1_2)
        } else if s == Version::V1_3.token_spec() {
            Some(Version::V1_3)
        } else if s == Version::V1_4.token_spec() {
            Some(Version::V1_4)
        } else if s == Version::V1_5.token_spec() {
            Some(Version::V1_5)
        } else if s == Version::V1_6.token_spec() {
            Some(Version::V1_6)
        } else {
            None
        }
    }

    fn token(&self) -> (r: &'static str) {
        match self {
            Version::V1_0 => "1.0",
            Version::V1_1 => "1.1",
            Version::V1_2 => "1.2",
            Version::V1_3 => "1.3",
            Version::V1_4 => "1.4",
            Version::V1_5 => "1.5",
            Version::V1_6 => "1.6",
        }
    }

    fn from_token(s: &str) -> (r: Option<Self>) {
        if s.eq(Version::V1_0.token()) {
            Some(Version::V1_0)
        } else if s.eq(Version::V1_1.token()) {
            Some(Version::V1_1)
        } else if s.eq(Version::V1_2.token()) {
            Some(Version::V1_2)
        } else if s.eq(Version::V1_3.token()) {
            Some(Version::V1_3)
        } else if s.eq(Version::V1_4.token()) {
            Some(Version::V1_4)
        } else if s.eq(Version::V1_5.token()) {
            Some(Version::V1_5)
        } else if s.eq(Version::V1_6.token()) {
            Some(Version::V1_6)
        } else {
            None
        }
    }

    proof fn lemma_token_parses(self) {
        reveal_strlit("1.0");
        reveal_strlit("1.1");
        reveal_strlit("1.2");
        reveal_strlit("1.3");
        reveal_strlit("1.4");
        reveal_strlit("1.5");
        reveal_strlit("1.6");
        assert(shape("1.0"@) == (3nat, '1', '0'));
        assert(shape("1.1"@) == (3nat, '1', '1'));
        assert(shape("1.2"@) == (3nat, '1', '2'));
        assert(shape("1.3"@) == (3nat, '1', '3'));
        assert(shape("1.4"@) == (3nat, '1', '4'));
        assert(shape("1.5"@) == (3nat, '1', '5'));
        assert(shape("1.6"@) == (3nat, '1', '6'));
    }

    proof fn lemma_parsed_token(s: Seq<char>) {
    }
}

/// An Adaptive Card: the root of a document.
#[derive(Debug, PartialEq)]
pub struct AdaptiveCard {
    /// The address of the schema: always [`schema_url`].
    pub schema: String,
    /// The schema version that the card is written for.
    pub version: Version,
    /// The elements of the card, from the first to the last.
    pub body: Vec<CardElement>,
    /// What only Microsoft Teams reads.
    pub msteams: Option<MsTeams>,
    /// The actions in the action bar of the card.
    pub actions: Option<Vec<Action>>,
    /// The action invoked when the card is tapped or selected. Every kind of
    /// action is accepted here, one that shows a card too.
    pub select_action: Option<Box<Action>>,
    /// The text shown by a client that does not support the version.
    pub fallback_text: Option<String>,
    /// The least height of the card.
    pub min_height: Option<String>,
    /// How the content is aligned vertically within the card.
    pub vertical_content_alignment: Option<VerticalContentAlignment>,
    /// Whether the content is laid out from right to left.
    pub rtl: Option<bool>,
    /// The language of the card, as a two-letter code.
    pub lang: Option<String>,
}

/// The mathematical model of an [`AdaptiveCard`].
pub struct AdaptiveCardView {
    pub schema: Seq<char>,
    pub version: Version,
    pub body: Seq<CardElementView>,
    pub msteams: Option<MsTeamsView>,
    pub actions: Option<Seq<ActionView>>,
    pub select_action: Option<ActionView>,
    pub fallback_text: Option<Seq<char>>,
    pub min_height: Option<Seq<char>>,
    pub vertical_content_alignment: Option<VerticalContentAlignment>,
    pub rtl: Option<bool>,
    pub lang: Option<Seq<char>>,
}

impl AdaptiveCard {
    /// The mathematical model of the value.
    pub open spec fn model(&self) -> AdaptiveCardView
        decreases self,
    {
        AdaptiveCardView {
            schema: self.schema@,
            version: self.version,
            body: CardElement::views(self.body@),
            msteams: MsTeams::opt_view(self.msteams),
            actions: Action::opt_views(self.actions),
            select_action: Action::opt_view(self.select_action),
            fallback_text: self.fallback_text.deep_view(),
            min_height: self.min_height.deep_view(),
            vertical_content_alignment: self.vertical_content_alignment,
            rtl: self.rtl,
            lang: self.lang.deep_view(),
        }
    }
}

impl View for AdaptiveCard {
    type V = AdaptiveCardView;

    open spec fn view(&self) -> AdaptiveCardView {
        self.model()
    }
}

impl AdaptiveCard {
    /// A copy of the value.
    pub fn duplicate(&self) -> (r: AdaptiveCard)
        ensures
            r@ == self@,
        decreases self,
    {
        AdaptiveCard {
            schema: self.schema.clone(),
            version: self.version,
            body: CardElement::clone_all(&self.body),
            msteams: MsTeams::clone_opt(&self.msteams),
            actions: Action::clone_opt_all(&self.actions),
            select_action: Action::clone_opt_boxed(&self.select_action),
            fallback_text: clone_opt_text(&self.fallback_text),
            min_height: clone_opt_text(&self.min_height),
            vertical_content_alignment: self.vertical_content_alignment,
            rtl: self.rtl,
            lang: clone_opt_text(&self.lang),
        }
    }
}

impl Clone for AdaptiveCard {
    fn clone(&self) -> (r: Self)
        ensures
            r@ == self@,
    {
        self.duplicate()
    }
}

impl AdaptiveCardView {
    /// Whether the value, and whatever it holds, is one that the wire format
    /// can express: `schema` is the schema address.
    pub open spec fn well_formed(self) -> bool
        decreases self,
    {
        &&& self.schema == schema_spec()
        &&& CardElementView::all_well_formed(self.body)
        &&& (self.actions matches Some(items) ==> ActionView::all_well_formed(items))
        &&& (self.select_action matches Some(x) ==> x.well_formed())
    }

    /// Whether elements and actions are nested in the value no deeper than
    /// `limit`.
    pub open spec fn within(self, limit: nat) -> bool
        decreases self,
    {
        &&& CardElementView::all_within(self.body, limit)
        &&& (self.actions matches Some(items) ==> ActionView::all_within(items, limit))
        &&& (self.select_action matches Some(x) ==> x.within(limit))
    }

    /// Whether `key` is the key of one of the fields.
    pub open spec fn is_key(key: Seq<char>) -> bool {
        ||| key == type_key()
        ||| key == "$schema"@
        ||| key == "version"@
        ||| key == "body"@
        ||| key == "msteams"@
        ||| key == "actions"@
        ||| key == "selectAction"@
        ||| key == "fallbackText"@
        ||| key == "minHeight"@
        ||| key == "verticalContentAlignment"@
        ||| key == "rtl"@
        ||| key == "lang"@
    }

    /// The fields that the value is written as.
    pub open spec fn encode_fields(self) -> Fields
        decreases self, 0nat,
    {
        let m = no_fields();
        let m = with(m, type_key(), Json::Str("AdaptiveCard"@));
        let m = with(m, "$schema"@, Json::Str(self.schema));
        let m = with(m, "version"@, token_json(self.version));
        let m = with(m, "body"@, Json::Array(CardElementView::encode_all(self.body)));
        let m = with_opt(m, "msteams"@, MsTeamsView::opt_json(self.msteams));
        let m = with_opt(m, "actions"@, ActionView::opt_all_json(self.actions));
        let m = with_opt(m, "selectAction"@, ActionView::opt_json(self.select_action));
        let m = with_opt(m, "fallbackText"@, opt_text_json(self.fallback_text));
        let m = with_opt(m, "minHeight"@, opt_text_json(self.min_height));
        let m = with_opt(
            m,
            "verticalContentAlignment"@,
            opt_token_json(self.vertical_content_alignment),
        );
        let m = with_opt(m, "rtl"@, opt_bool_json(self.rtl));
        let m = with_opt(m, "lang"@, opt_text_json(self.lang));
        m
    }

    /// The JSON value that the value is written as: an object of its fields.
    pub open spec fn encode_spec(self) -> Json
        decreases self, 1nat,
    {
        Json::Object(self.encode_fields())
    }

    /// What the fields `m` are read as: the fields are read in their order,
    /// and the first that cannot be read decides the error.
    pub open spec fn decode_fields(
        m: Fields,
        limit: nat,
    ) -> Result<AdaptiveCardView, DecodeErrorView>
        decreases limit, 5nat, 0nat,
    {
        let tag = tagged(m, "AdaptiveCard"@);
        let schema = required_literal(m, "$schema"@, schema_spec());
        let version = required_token::<Version>(m, "version"@);
        let body = CardElementView::required_all(m, "body"@, limit);
        let msteams = MsTeamsView::optional(m, "msteams"@);
        let actions = ActionView::optional_all(m, "actions"@, limit);
        let select_action = ActionView::optional(m, "selectAction"@, limit);
        let fallback_text = optional_text(m, "fallbackText"@);
        let min_height = optional_text(m, "minHeight"@);
        let vertical_content_alignment =
            optional_token::<VerticalContentAlignment>(m, "verticalContentAlignment"@);
        let rtl = optional_bool(m, "rtl"@);
        let lang = optional_text(m, "lang"@);
        if tag is Err {
            Err(tag->Err_0)
        } else if schema is Err {
            Err(schema->Err_0)
        } else if version is Err {
            Err(version->Err_0)
        } else if body is Err {
            Err(body->Err_0)
        } else if msteams is Err {
            Err(msteams->Err_0)
        } else if actions is Err {
            Err(actions->Err_0)
        } else if select_action is Err {
            Err(select_action->Err_0)
        } else if fallback_text is Err {
            Err(fallback_text->Err_0)
        } else if min_height is Err {
            Err(min_height->Err_0)
        } else if vertical_content_alignment is Err {
            Err(vertical_content_alignment->Err_0)
        } else if rtl is Err {
            Err(rtl->Err_0)
        } else if lang is Err {
            Err(lang->Err_0)
        } else {
            Ok(
                AdaptiveCardView {
                    schema: schema->Ok_0,
                    version: version->Ok_0,
                    body: body->Ok_0,
                    msteams: msteams->Ok_0,
                    actions: actions->Ok_0,
                    select_action: select_action->Ok_0,
                    fallback_text: fallback_text->Ok_0,
                    min_height: min_height->Ok_0,
                    vertical_content_alignment: vertical_content_alignment->Ok_0,
                    rtl: rtl->Ok_0,
                    lang: lang->Ok_0,
                },
            )
        }
    }

    /// What the JSON value `j` is read as: it must be an object, and its
    /// fields are read.
    pub open spec fn decode_spec(j: Json, limit: nat) -> Result<AdaptiveCardView, DecodeErrorView>
        decreases limit, 5nat, 1nat,
    {
        match j {
            Json::Object(m) => Self::decode_fields(m, limit),
            _ => Err(mismatch(j)),
        }
    }

    /// What is written: every field that must be there, every other field
    /// exactly where it has a value, and each with its value.
    pub proof fn lemma_written(self)
        ensures
            self.encode_fields().contains_key(type_key()),
            self.encode_fields()[type_key()] == Json::Str("AdaptiveCard"@),
            self.encode_fields().contains_key("$schema"@),
            self.encode_fields()["$schema"@] == Json::Str(self.schema),
            self.encode_fields().contains_key("version"@),
            self.encode_fields()["version"@] == token_json(self.version),
            self.encode_fields().contains_key("body"@),
            self.encode_fields()["body"@] == Json::Array(CardElementView::encode_all(self.body)),
            self.encode_fields().contains_key("msteams"@) <==> self.msteams is Some,
            self.msteams matches Some(x) ==> self.encode_fields()["msteams"@] == x.encode_spec(),
            self.encode_fields().contains_key("actions"@) <==> self.actions is Some,
            self.actions matches Some(x)
                ==> self.encode_fields()["actions"@] == Json::Array(ActionView::encode_all(x)),
            self.encode_fields().contains_key("selectAction"@) <==> self.select_action is Some,
            self.select_action matches Some(x)
                ==> self.encode_fields()["selectAction"@] == x.encode_spec(),
            self.encode_fields().contains_key("fallbackText"@) <==> self.fallback_text is Some,
            self.fallback_text matches Some(x)
                ==> self.encode_fields()["fallbackText"@] == Json::Str(x),
            self.encode_fields().contains_key("minHeight"@) <==> self.min_height is Some,
            self.min_height matches Some(x) ==> self.encode_fields()["minHeight"@] == Json::Str(x),
            self.encode_fields().contains_key("verticalContentAlignment"@)
                <==> self.vertical_content_alignment is Some,
            self.vertical_content_alignment matches Some(x)
                ==> self.encode_fields()["verticalContentAlignment"@] == token_json(x),
            self.encode_fields().contains_key("rtl"@) <==> self.rtl is Some,
            self.rtl matches Some(x) ==> self.encode_fields()["rtl"@] == Json::Bool(x),
            self.encode_fields().contains_key("lang"@) <==> self.lang is Some,
            self.lang matches Some(x) ==> self.encode_fields()["lang"@] == Json::Str(x),
    {
        lemma_with_opt();
        lemma_key_shapes();
    }

    /// Nothing else is written: every key is that of a field, and none holds
    /// `null`.
    pub proof fn lemma_written_keys(self, key: Seq<char>)
        requires
            self.encode_fields().contains_key(key),
        ensures
            Self::is_key(key),
            !(self.encode_fields()[key] is Null),
    {
        lemma_with_opt();
    }

    /// What is read is well formed, and nested no deeper than `limit`.
    pub proof fn lemma_decoded(m: Fields, limit: nat)
        ensures
            Self::decode_fields(m, limit) matches Ok(v) ==> v.well_formed() && v.within(limit),
        decreases limit, 5nat, 0nat,
    {
        lemma_literal_is(m, "$schema"@, schema_spec());
        CardElementView::lemma_decoded_field(m, "body"@, limit);
        ActionView::lemma_decoded_opt_field(m, "actions"@, limit);
        ActionView::lemma_decoded_optional(m, "selectAction"@, limit);
    }

    /// What is read of a JSON value is well formed, and nested no deeper than
    /// `limit`.
    pub proof fn lemma_decoded_value(j: Json, limit: nat)
        ensures
            Self::decode_spec(j, limit) matches Ok(v) ==> v.well_formed() && v.within(limit),
        decreases limit, 5nat, 1nat,
    {
        match j {
            Json::Object(m) => Self::lemma_decoded(m, limit),
            _ => {},
        }
    }

    /// How deep elements and actions are nested in the value.
    pub open spec fn nesting(self) -> nat
        decreases self, 0nat,
    {
        larger(
            larger(
                CardElementView::nesting_all(self.body),
                ActionView::nesting_opt_all(self.actions),
            ),
            ActionView::nesting_opt(self.select_action),
        )
    }

    /// A value that is within a limit is within every greater limit.
    pub proof fn lemma_within_more(self, limit: nat, more: nat)
        requires
            self.within(limit),
            limit <= more,
        ensures
            self.within(more),
        decreases self, 0nat,
    {
        CardElementView::lemma_all_within_more(self.body, limit, more);
        match self.actions {
            Some(items) => ActionView::lemma_all_within_more(items, limit, more),
            None => {},
        }
        match self.select_action {
            Some(x) => x.lemma_within_more(limit, more),
            None => {},
        }
    }

    /// A value is within its nesting.
    pub proof fn lemma_within_nesting(self)
        ensures
            self.within(self.nesting()),
        decreases self, 1nat,
    {
        let limit = self.nesting();
        CardElementView::lemma_all_within_nesting(self.body);
        CardElementView::lemma_all_within_more(
            self.body,
            CardElementView::nesting_all(self.body),
            limit,
        );
        match self.actions {
            Some(items) => {
                ActionView::lemma_all_within_nesting(items);
                ActionView::lemma_all_within_more(items, ActionView::nesting_all(items), limit);
            },
            None => {},
        }
        match self.select_action {
            Some(x) => {
                x.lemma_within_nesting();
                x.lemma_within_more(x.nesting(), limit);
            },
            None => {},
        }
    }

    /// Reading what was written gives the value back.
    pub proof fn lemma_roundtrip(self, limit: nat)
        requires
            self.well_formed(),
            self.within(limit),
        ensures
            gives(Self::decode_fields(self.encode_fields(), limit), self),
            gives(Self::decode_spec(self.encode_spec(), limit), self),
        decreases self, 0nat,
    {
        self.lemma_written();
        lemma_key_shapes();
        CardElementView::lemma_roundtrip_all(self.body, limit);
        match self.msteams {
            Some(x) => x.lemma_roundtrip(),
            None => {},
        }
        match self.actions {
            Some(items) => ActionView::lemma_roundtrip_all(items, limit),
            None => {},
        }
        match self.select_action {
            Some(x) => x.lemma_roundtrip(limit),
            None => {},
        }
        let m = self.encode_fields();
        lemma_reads_tag(m, "AdaptiveCard"@);
        lemma_reads_literal(m, "$schema"@, schema_spec());
        lemma_reads_token(m, "version"@, self.version);
        lemma_reads_array(m, "body"@, CardElementView::encode_all(self.body));
        assert(gives(CardElementView::required_all(m, "body"@, limit), self.body));
        assert(gives(MsTeamsView::optional(m, "msteams"@), self.msteams));
        lemma_reads_opt_array(m, "actions"@, ActionView::opt_all(self.actions));
        assert(gives(ActionView::optional_all(m, "actions"@, limit), self.actions));
        assert(gives(ActionView::optional(m, "selectAction"@, limit), self.select_action));
        lemma_reads_opt_text(m, "fallbackText"@, self.fallback_text);
        lemma_reads_opt_text(m, "minHeight"@, self.min_height);
        lemma_reads_opt_token(m, "verticalContentAlignment"@, self.vertical_content_alignment);
        lemma_reads_opt_bool(m, "rtl"@, self.rtl);
        lemma_reads_opt_text(m, "lang"@, self.lang);
    }
}

impl AdaptiveCard {
    /// Whether the value, and whatever it holds, is one that the wire format
    /// can express.
    pub fn is_well_formed(&self) -> (r: bool)
        ensures
            r == self@.well_formed(),
        decreases self,
    {
        self.schema.as_str().eq(schema_url())
            && CardElement::all_well_formed(&self.body)
            && (match &self.actions {
                Some(items) => Action::all_well_formed(items),
                None => true,
            })
            && (match &self.select_action {
                Some(x) => x.is_well_formed(),
                None => true,
            })
    }

    /// Whether elements and actions are nested in the value no deeper than
    /// `limit`.
    pub fn is_within(&self, limit: usize) -> (r: bool)
        ensures
            r == self@.within(limit as nat),
        decreases self,
    {
        CardElement::all_within(&self.body, limit)
            && (match &self.actions {
                Some(items) => Action::all_within(items, limit),
                None => true,
            })
            && (match &self.select_action {
                Some(x) => x.is_within(limit),
                None => true,
            })
    }

    /// The fields of the JSON object that stands for the value.
    pub fn encode_fields(&self) -> (m: Object)
        ensures
            object_fields(m) == self@.encode_fields(),
        decreases self, 0nat,
    {
        let mut m = new_object();
        put_text(&mut m, "type", "AdaptiveCard");
        put_text(&mut m, "$schema", self.schema.as_str());
        put_token(&mut m, "version", self.version);
        put(&mut m, "body", array_value(CardElement::encode_all(&self.body)));
        put_opt(&mut m, "msteams", MsTeams::encode_opt(&self.msteams));
        put_opt(&mut m, "actions", Action::encode_opt_all(&self.actions));
        put_opt(&mut m, "selectAction", Action::encode_opt_boxed(&self.select_action));
        put_opt_text(&mut m, "fallbackText", &self.fallback_text);
        put_opt_text(&mut m, "minHeight", &self.min_height);
        put_opt_token(&mut m, "verticalContentAlignment", self.vertical_content_alignment);
        put_opt_bool(&mut m, "rtl", self.rtl);
        put_opt_text(&mut m, "lang", &self.lang);
        m
    }

    /// The JSON object that stands for the value.
    pub fn encode(&self) -> (v: Value)
        ensures
            value_json(v) == self@.encode_spec(),
        decreases self, 1nat,
    {
        object_value(self.encode_fields())
    }

    /// The value that the fields `m` stand for, with elements and actions
    /// nested no deeper than `limit`.
    pub fn decode_fields(m: &Object, limit: usize) -> (r: Result<AdaptiveCard, DecodeError>)
        ensures
            decoded(r) == AdaptiveCardView::decode_fields(object_fields(*m), limit as nat),
            r matches Ok(x) ==> x@.well_formed() && x@.within(limit as nat),
        decreases limit, 5nat, 0nat,
    {
        proof {
            AdaptiveCardView::lemma_decoded(object_fields(*m), limit as nat);
        }
        get_tag(m, "AdaptiveCard")?;
        let schema = get_literal(m, "$schema", schema_url())?;
        let version = get_token::<Version>(m, "version")?;
        let body = CardElement::get_all(m, "body", limit)?;
        let msteams = MsTeams::get_opt(m, "msteams")?;
        let actions = Action::get_opt_all(m, "actions", limit)?;
        let select_action = Action::get_opt_boxed(m, "selectAction", limit)?;
        let fallback_text = get_opt_text(m, "fallbackText")?;
        let min_height = get_opt_text(m, "minHeight")?;
        let vertical_content_alignment =
            get_opt_token::<VerticalContentAlignment>(m, "verticalContentAlignment")?;
        let rtl = get_opt_bool(m, "rtl")?;
        let lang = get_opt_text(m, "lang")?;
        Ok(
            AdaptiveCard {
                schema,
                version,
                body,
                msteams,
                actions,
                select_action,
                fallback_text,
                min_height,
                vertical_content_alignment,
                rtl,
                lang,
            },
        )
    }

    /// The value that the JSON value `v` stands for, with elements and
    /// actions nested no deeper than `limit`.
    pub fn decode_within(v: &Value, limit: usize) -> (r: Result<AdaptiveCard, DecodeError>)
        ensures
            decoded(r) == AdaptiveCardView::decode_spec(value_json(*v), limit as nat),
            r matches Ok(x) ==> x@.well_formed() && x@.within(limit as nat),
        decreases limit, 5nat, 1nat,
    {
        let m = read_object(v)?;
        AdaptiveCard::decode_fields(m, limit)
    }

    /// The value that the JSON value `v` stands for, with elements and
    /// actions nested no deeper than [`MAX_DEPTH`].
    pub fn decode(v: &Value) -> (r: Result<AdaptiveCard, DecodeError>)
        ensures
            decoded(r) == AdaptiveCardView::decode_spec(value_json(*v), MAX_DEPTH as nat),
            r matches Ok(x) ==> x@.well_formed() && x@.within(MAX_DEPTH as nat),
    {
        AdaptiveCard::decode_within(v, MAX_DEPTH)
    }
}

impl Default for AdaptiveCard {
    /// A card of version 1.2 without content.
    fn default() -> (card: AdaptiveCard)
        ensures
            card@ == AdaptiveCardView::empty(),
            card@.well_formed(),
            card@.within(0),
    {
        let card = AdaptiveCard {
            schema: schema_url().to_string(),
            version: Version::V1_2,
            body: Vec::new(),
            msteams: None,
            actions: None,
            select_action: None,
            fallback_text: None,
            min_height: None,
            vertical_content_alignment: None,
            rtl: None,
            lang: None,
        };
        assert(card@.body =~= Seq::empty());
        card
    }
}

impl AdaptiveCard {
    /// The JSON object that stands for the card, if the card is well formed:
    /// what this function gives can be read back.
    pub fn encode_checked(&self) -> (r: Option<Value>)
        ensures
            r is Some <==> self@.well_formed(),
            r matches Some(v) ==> value_json(v) == self@.encode_spec(),
    {
        if self.is_well_formed() {
            Some(self.encode())
        } else {
            None
        }
    }
}

impl AdaptiveCardView {
    /// The card of version 1.2 without content.
    pub open spec fn empty() -> AdaptiveCardView {
        AdaptiveCardView {
            schema: schema_spec(),
            version: Version::V1_2,
            body: Seq::empty(),
            msteams: None,
            actions: None,
            select_action: None,
            fallback_text: None,
            min_height: None,
            vertical_content_alignment: None,
            rtl: None,
            lang: None,
        }
    }
}

impl AdaptiveCardView {
    /// The card of the field `key`, which must be there.
    pub open spec fn required_boxed(
        m: Fields,
        key: Seq<char>,
        limit: nat,
    ) -> Result<Box<AdaptiveCardView>, DecodeErrorView>
        decreases limit, 5nat, 4nat,
    {
        match required(m, key) {
            Ok(j) => match Self::decode_spec(j, limit) {
                Ok(v) => Ok(Box::new(v)),
                Err(e) => Err(under_key(e, key)),
            },
            Err(e) => Err(e),
        }
    }

    /// The card that is read of a field is well formed, and nested no deeper
    /// than `limit`.
    pub proof fn lemma_decoded_boxed(m: Fields, key: Seq<char>, limit: nat)
        ensures
            Self::required_boxed(m, key, limit) matches Ok(v)
                ==> v.well_formed() && v.within(limit),
        decreases limit, 5nat, 4nat,
    {
        reveal(required);
        match required(m, key) {
            Ok(j) => Self::lemma_decoded_value(j, limit),
            Err(_) => {},
        }
    }
}

impl AdaptiveCard {
    /// The card of the field `key`, which must be there.
    pub(crate) fn get_boxed(
        m: &Object,
        key: &'static str,
        limit: usize,
    ) -> (r: Result<Box<AdaptiveCard>, DecodeError>)
        ensures
            match r {
                Ok(v) => gives(
                    AdaptiveCardView::required_boxed(object_fields(*m), key@, limit as nat),
                    Box::new(v@),
                ),
                Err(e) => fails_with(
                    AdaptiveCardView::required_boxed(object_fields(*m), key@, limit as nat),
                    e@,
                ),
            },
        decreases limit, 5nat, 4nat,
    {
        let v = get(m, key)?;
        match AdaptiveCard::decode_within(v, limit) {
            Ok(v) => Ok(Box::new(v)),
            Err(e) => Err(e.under_key(key)),
        }
    }
}

/// The kinds of card element, each with the `type` that announces it.
#[derive(Debug, Clone, Copy, PartialEq, Eq, Structural)]
pub enum ElementKind {
    TextBlock,
    Container,
    ColumnSet,
    Image,
    ActionSet,
    FactSet,
    RichTextBlock,
    InputText,
    InputNumber,
    InputDate,
    InputTime,
    InputToggle,
    InputChoiceSet,
}

impl Literal for ElementKind {
    open spec fn token_spec(self) -> Seq<char> {
        match self {
            ElementKind::TextBlock => "TextBlock"@,
            ElementKind::Container => "Container"@,
            ElementKind::ColumnSet => "ColumnSet"@,
            ElementKind::Image => "Image"@,
            ElementKind::ActionSet => "ActionSet"@,
            ElementKind::FactSet => "FactSet"@,
            ElementKind::RichTextBlock => "RichTextBlock"@,
            ElementKind::InputText => "Input.Text"@,
            ElementKind::InputNumber => "Input.Number"@,
            ElementKind::InputDate => "Input.Date"@,
            ElementKind::InputTime => "Input.Time"@,
            ElementKind::InputToggle => "Input.Toggle"@,
            ElementKind::InputChoiceSet => "Input.ChoiceSet"@,
        }
    }

    open spec fn parse_spec(s: Seq<char>) -> Option<Self> {
        if s == ElementKind::TextBlock.token_spec() {
            Some(ElementKind::TextBlock)
        } else if s == ElementKind::Container.token_spec() {
            Some(ElementKind::Container)
        } else if s == ElementKind::ColumnSet.token_spec() {
            Some(ElementKind::ColumnSet)
        } else if s == ElementKind::Image.token_spec() {
            Some(ElementKind::Image)
        } else if s == ElementKind::ActionSet.token_spec() {
            Some(ElementKind::ActionSet)
        } else if s == ElementKind::FactSet.token_spec() {
            Some(ElementKind::FactSet)
        } else if s == ElementKind::RichTextBlock.token_spec() {
            Some(ElementKind::RichTextBlock)
        } else if s == ElementKind::InputText.token_spec() {
            Some(ElementKind::InputText)
        } else if s == ElementKind::InputNumber.token_spec() {
            Some(ElementKind::InputNumber)
        } else if s == ElementKind::InputDate.token_spec() {
            Some(ElementKind::InputDate)
        } else if s == ElementKind::InputTime.token_spec() {
            Some(ElementKind::InputTime)
        } else if s == ElementKind::InputToggle.token_spec() {
            Some(ElementKind::InputToggle)
        } else if s == ElementKind::InputChoiceSet.token_spec() {
            Some(ElementKind::InputChoiceSet)
        } else {
            None
        }
    }

    fn token(&self) -> (r: &'static str) {
        match self {
            ElementKind::TextBlock => "TextBlock",
            ElementKind::Container => "Container",
            ElementKind::ColumnSet => "ColumnSet",
            ElementKind::Image => "Image",
            ElementKind::ActionSet => "ActionSet",
            ElementKind::FactSet => "FactSet",
            ElementKind::RichTextBlock => "RichTextBlock",
            ElementKind::InputText => "Input.Text",
            ElementKind::InputNumber => "Input.Number",
            ElementKind::InputDate => "Input.Date",
            ElementKind::InputTime => "Input.Time",
            ElementKind::InputToggle => "Input.Toggle",
            ElementKind::InputChoiceSet => "Input.ChoiceSet",
        }
    }

    fn from_token(s: &str) -> (r: Option<Self>) {
        if s.eq(ElementKind::TextBlock.token()) {
            Some(ElementKind::TextBlock)
        } else if s.eq(ElementKind::Container.token()) {
            Some(ElementKind::Container)
        } else if s.eq(ElementKind::ColumnSet.token()) {
            Some(ElementKind::ColumnSet)
        } else if s.eq(ElementKind::Image.token()) {
            Some(ElementKind::Image)
        } else if s.eq(ElementKind::ActionSet.token()) {
            Some(ElementKind::ActionSet)
        } else if s.eq(ElementKind::FactSet.token()) {
            Some(ElementKind::FactSet)
        } else if s.eq(ElementKind::RichTextBlock.token()) {
            Some(ElementKind::RichTextBlock)
        } else if s.eq(ElementKind::InputText.token()) {
            Some(ElementKind::InputText)
        } else if s.eq(ElementKind::InputNumber.token()) {
            Some(ElementKind::InputNumber)
        } else if s.eq(ElementKind::InputDate.token()) {
            Some(ElementKind::InputDate)
        } else if s.eq(ElementKind::InputTime.token()) {
            Some(ElementKind::InputTime)
        } else if s.eq(ElementKind::InputToggle.token()) {
            Some(ElementKind::InputToggle)
        } else if s.eq(ElementKind::InputChoiceSet.token()) {
            Some(ElementKind::InputChoiceSet)
        } else {
            None
        }
    }

    proof fn lemma_token_parses(self) {
        reveal_strlit("TextBlock");
        reveal_strlit("Container");
        reveal_strlit("ColumnSet");
        reveal_strlit("Image");
        reveal_strlit("ActionSet");
        reveal_strlit("FactSet");
        reveal_strlit("RichTextBlock");
        reveal_strlit("Input.Text");
        reveal_strlit("Input.Number");
        reveal_strlit("Input.Date");
        reveal_strlit("Input.Time");
        reveal_strlit("Input.Toggle");
        reveal_strlit("Input.ChoiceSet");
        assert(shape("TextBlock"@) == (9nat, 'T', 'k'));
        assert(shape("Container"@) == (9nat, 'C', 'r'));
        assert(shape("ColumnSet"@) == (9nat, 'C', 't'));
        assert(shape("Image"@) == (5nat, 'I', 'e'));
        assert(shape("ActionSet"@) == (9nat, 'A', 't'));
        assert(shape("FactSet"@) == (7nat, 'F', 't'));
        assert(shape("RichTextBlock"@) == (13nat, 'R', 'k'));
        assert(shape("Input.Text"@) == (10nat, 'I', 't'));
        assert(shape("Input.Number"@) == (12nat, 'I', 'r'));
        assert(shape("Input.Date"@) == (10nat, 'I', 'e'));
        assert(shape("Input.Time"@) == (10nat, 'I', 'e'));
        assert(shape("Input.Toggle"@) == (12nat, 'I', 'e'));
        assert(shape("Input.ChoiceSet"@) == (15nat, 'I', 't'));
        assert("Input.Time"@[6] == 'T');
        assert("Input.Date"@[6] == 'D');
    }

    proof fn lemma_parsed_token(s: Seq<char>) {
    }
}

/// One element of the body of a card.
#[derive(Debug, PartialEq)]
pub enum CardElement {
    /// A block of text.
    TextBlock(TextBlock),
    /// A group of elements.
    Container(Container),
    /// Columns side by side.
    ColumnSet(ColumnSet),
    /// An image.
    Image(Image),
    /// A group of actions.
    ActionSet(ActionSet),
    /// A series of facts.
    FactSet(FactSet),
    /// Text made of inlines.
    RichTextBlock(RichTextBlock),
    /// An input for text.
    InputText(InputText),
    /// An input for a number.
    InputNumber(InputNumber),
    /// An input for a date.
    InputDate(InputDate),
    /// An input for a time.
    InputTime(InputTime),
    /// An input for one of two options.
    InputToggle(InputToggle),
    /// An input for one or more of several options.
    InputChoiceSet(InputChoiceSet),
}

/// The mathematical model of a [`CardElement`].
pub enum CardElementView {
    TextBlock(TextBlockView),
    Container(ContainerView),
    ColumnSet(ColumnSetView),
    Image(ImageView),
    ActionSet(ActionSetView),
    FactSet(FactSetView),
    RichTextBlock(RichTextBlockView),
    InputText(InputTextView),
    InputNumber(InputNumberView),
    InputDate(InputDateView),
    InputTime(InputTimeView),
    InputToggle(InputToggleView),
    InputChoiceSet(InputChoiceSetView),
}

impl CardElement {
    /// The mathematical model of the element.
    pub open spec fn model(&self) -> CardElementView
        decreases self,
    {
        match self {
            CardElement::TextBlock(x) => CardElementView::TextBlock(x@),
            CardElement::Container(x) => CardElementView::Container(x.model()),
            CardElement::ColumnSet(x) => CardElementView::ColumnSet(x.model()),
            CardElement::Image(x) => CardElementView::Image(x.model()),
            CardElement::ActionSet(x) => CardElementView::ActionSet(x.model()),
            CardElement::FactSet(x) => CardElementView::FactSet(x@),
            CardElement::RichTextBlock(x) => CardElementView::RichTextBlock(x@),
            CardElement::InputText(x) => CardElementView::InputText(x@),
            CardElement::InputNumber(x) => CardElementView::InputNumber(x@),
            CardElement::InputDate(x) => CardElementView::InputDate(x@),
            CardElement::InputTime(x) => CardElementView::InputTime(x@),
            CardElement::InputToggle(x) => CardElementView::InputToggle(x@),
            CardElement::InputChoiceSet(x) => CardElementView::InputChoiceSet(x@),
        }
    }
}

impl View for CardElement {
    type V = CardElementView;

    open spec fn view(&self) -> CardElementView {
        self.model()
    }
}

impl CardElement {
    /// A copy of the element.
    pub fn duplicate(&self) -> (r: CardElement)
        ensures
            r@ == self@,
        decreases self,
    {
        match self {
            CardElement::TextBlock(x) => CardElement::TextBlock(x.clone()),
            CardElement::Container(x) => CardElement::Container(x.duplicate()),
            CardElement::ColumnSet(x) => CardElement::ColumnSet(x.duplicate()),
            CardElement::Image(x) => CardElement::Image(x.duplicate()),
            CardElement::ActionSet(x) => CardElement::ActionSet(x.duplicate()),
            CardElement::FactSet(x) => CardElement::FactSet(x.clone()),
            CardElement::RichTextBlock(x) => CardElement::RichTextBlock(x.clone()),
            CardElement::InputText(x) => CardElement::InputText(x.clone()),
            CardElement::InputNumber(x) => CardElement::InputNumber(x.clone()),
            CardElement::InputDate(x) => CardElement::InputDate(x.clone()),
            CardElement::InputTime(x) => CardElement::InputTime(x.clone()),
            CardElement::InputToggle(x) => CardElement::InputToggle(x.clone()),
            CardElement::InputChoiceSet(x) => CardElement::InputChoiceSet(x.clone()),
        }
    }
}

impl Clone for CardElement {
    fn clone(&self) -> (r: Self)
        ensures
            r@ == self@,
    {
        self.duplicate()
    }
}

impl CardElementView {
    /// The kind of the element, which its `type` announces.
    pub open spec fn kind(self) -> ElementKind {
        match self {
            CardElementView::TextBlock(_) => ElementKind::TextBlock,
            CardElementView::Container(_) => ElementKind::Container,
            CardElementView::ColumnSet(_) => ElementKind::ColumnSet,
            CardElementView::Image(_) => ElementKind::Image,
            CardElementView::ActionSet(_) => ElementKind::ActionSet,
            CardElementView::FactSet(_) => ElementKind::FactSet,
            CardElementView::RichTextBlock(_) => ElementKind::RichTextBlock,
            CardElementView::InputText(_) => ElementKind::InputText,
            CardElementView::InputNumber(_) => ElementKind::InputNumber,
            CardElementView::InputDate(_) => ElementKind::InputDate,
            CardElementView::InputTime(_) => ElementKind::InputTime,
            CardElementView::InputToggle(_) => ElementKind::InputToggle,
            CardElementView::InputChoiceSet(_) => ElementKind::InputChoiceSet,
        }
    }

    /// What the element carries besides the fields of its kind, where its
    /// kind carries any.
    pub open spec fn base(self) -> Option<BaseFieldsView> {
        match self {
            CardElementView::TextBlock(x) => Some(x.base()),
            CardElementView::Container(x) => Some(x.base()),
            CardElementView::Image(x) => Some(x.base()),
            CardElementView::RichTextBlock(x) => Some(x.base()),
            CardElementView::InputText(x) => Some(x.base()),
            CardElementView::InputNumber(x) => Some(x.base()),
            CardElementView::InputDate(x) => Some(x.base()),
            CardElementView::InputTime(x) => Some(x.base()),
            CardElementView::InputToggle(x) => Some(x.base()),
            CardElementView::InputChoiceSet(x) => Some(x.base()),
            _ => None,
        }
    }

    /// Whether the element, and whatever it holds, is one that the wire
    /// format can express.
    pub open spec fn well_formed(self) -> bool
        decreases self,
    {
        match self {
            CardElementView::Container(x) => x.well_formed(),
            CardElementView::ColumnSet(x) => x.well_formed(),
            CardElementView::Image(x) => x.well_formed(),
            CardElementView::ActionSet(x) => x.well_formed(),
            CardElementView::RichTextBlock(x) => x.well_formed(),
            _ => true,
        }
    }

    /// Whether elements and actions are nested no deeper than `limit`, this
    /// element counted.
    pub open spec fn within(self, limit: nat) -> bool
        decreases self,
    {
        limit > 0 && match self {
            CardElementView::Container(x) => x.within((limit - 1) as nat),
            CardElementView::ColumnSet(x) => x.within((limit - 1) as nat),
            CardElementView::Image(x) => x.within((limit - 1) as nat),
            CardElementView::ActionSet(x) => x.within((limit - 1) as nat),
            _ => true,
        }
    }

    /// The fields that the element is written as, but for its `type`.
    pub open spec fn fields(self) -> Fields
        decreases self, 2nat,
    {
        match self {
            CardElementView::TextBlock(x) => x.encode_fields(),
            CardElementView::Container(x) => x.encode_fields(),
            CardElementView::ColumnSet(x) => x.encode_fields(),
            CardElementView::Image(x) => x.encode_fields(),
            CardElementView::ActionSet(x) => x.encode_fields(),
            CardElementView::FactSet(x) => x.encode_fields(),
            CardElementView::RichTextBlock(x) => x.encode_fields(),
            CardElementView::InputText(x) => x.encode_fields(),
            CardElementView::InputNumber(x) => x.encode_fields(),
            CardElementView::InputDate(x) => x.encode_fields(),
            CardElementView::InputTime(x) => x.encode_fields(),
            CardElementView::InputToggle(x) => x.encode_fields(),
            CardElementView::InputChoiceSet(x) => x.encode_fields(),
        }
    }

    /// The JSON value that the element is written as: an object of its
    /// fields, which says under `type` what it is.
    pub open spec fn encode_spec(self) -> Json
        decreases self, 3nat,
    {
        Json::Object(with(self.fields(), type_key(), token_json(self.kind())))
    }

    /// What the fields `m` are read as, for an element of the kind `kind`.
    pub open spec fn decode_variant(
        m: Fields,
        kind: ElementKind,
        limit: nat,
    ) -> Result<CardElementView, DecodeErrorView>
        decreases limit, 7nat, 0nat,
    {
        match kind {
            ElementKind::TextBlock => match TextBlockView::decode_fields(m) {
                Ok(x) => Ok(CardElementView::TextBlock(x)),
                Err(e) => Err(e),
            },
            ElementKind::Container => match ContainerView::decode_fields(m, limit) {
                Ok(x) => Ok(CardElementView::Container(x)),
                Err(e) => Err(e),
            },
            ElementKind::ColumnSet => match ColumnSetView::decode_fields(m, limit) {
                Ok(x) => Ok(CardElementView::ColumnSet(x)),
                Err(e) => Err(e),
            },
            ElementKind::Image => match ImageView::decode_fields(m, limit) {
                Ok(x) => Ok(CardElementView::Image(x)),
                Err(e) => Err(e),
            },
            ElementKind::ActionSet => match ActionSetView::decode_fields(m, limit) {
                Ok(x) => Ok(CardElementView::ActionSet(x)),
                Err(e) => Err(e),
            },
            ElementKind::FactSet => match FactSetView::decode_fields(m) {
                Ok(x) => Ok(CardElementView::FactSet(x)),
                Err(e) => Err(e),
            },
            ElementKind::RichTextBlock => match RichTextBlockView::decode_fields(m) {
                Ok(x) => Ok(CardElementView::RichTextBlock(x)),
                Err(e) => Err(e),
            },
            ElementKind::InputText => match InputTextView::decode_fields(m) {
                Ok(x) => Ok(CardElementView::InputText(x)),
                Err(e) => Err(e),
            },
            ElementKind::InputNumber => match InputNumberView::decode_fields(m) {
                Ok(x) => Ok(CardElementView::InputNumber(x)),
                Err(e) => Err(e),
            },
            ElementKind::InputDate => match InputDateView::decode_fields(m) {
                Ok(x) => Ok(CardElementView::InputDate(x)),
                Err(e) => Err(e),
            },
            ElementKind::InputTime => match InputTimeView::decode_fields(m) {
                Ok(x) => Ok(CardElementView::InputTime(x)),
                Err(e) => Err(e),
            },
            ElementKind::InputToggle => match InputToggleView::decode_fields(m) {
                Ok(x) => Ok(CardElementView::InputToggle(x)),
                Err(e) => Err(e),
            },
            ElementKind::InputChoiceSet => match InputChoiceSetView::decode_fields(m) {
                Ok(x) => Ok(CardElementView::InputChoiceSet(x)),
                Err(e) => Err(e),
            },
        }
    }

    /// What the JSON value `j` is read as: it must be an object, its `type`
    /// says of which kind, and its fields are read for that kind. With a
    /// `limit` of 0 nothing is read.
    pub open spec fn decode_spec(j: Json, limit: nat) -> Result<CardElementView, DecodeErrorView>
        decreases limit, 0nat, 1nat,
    {
        if limit == 0 {
            Err(failure(ErrorKind::RecursionTooDeep, None))
        } else {
            match j {
                Json::Object(m) => match kind_of::<ElementKind>(m) {
                    Ok(kind) => Self::decode_variant(m, kind, (limit - 1) as nat),
                    Err(e) => Err(e),
                },
                _ => Err(mismatch(j)),
            }
        }
    }

    /// How deep elements and actions are nested, this element counted.
    pub open spec fn nesting(self) -> nat
        decreases self, 0nat,
    {
        1 + match self {
            CardElementView::Container(x) => x.nesting(),
            CardElementView::ColumnSet(x) => x.nesting(),
            CardElementView::Image(x) => x.nesting(),
            CardElementView::ActionSet(x) => x.nesting(),
            _ => 0,
        }
    }

    /// An element that is within a limit is within every greater limit.
    pub proof fn lemma_within_more(self, limit: nat, more: nat)
        requires
            self.within(limit),
            limit <= more,
        ensures
            self.within(more),
        decreases self, 0nat,
    {
        let inner = (limit - 1) as nat;
        let outer = (more - 1) as nat;
        match self {
            CardElementView::Container(x) => x.lemma_within_more(inner, outer),
            CardElementView::ColumnSet(x) => x.lemma_within_more(inner, outer),
            CardElementView::Image(x) => x.lemma_within_more(inner, outer),
            CardElementView::ActionSet(x) => x.lemma_within_more(inner, outer),
            _ => {},
        }
    }

    /// An element is within its nesting.
    pub proof fn lemma_within_nesting(self)
        ensures
            self.within(self.nesting()),
        decreases self, 1nat,
    {
        match self {
            CardElementView::Container(x) => x.lemma_within_nesting(),
            CardElementView::ColumnSet(x) => x.lemma_within_nesting(),
            CardElementView::Image(x) => x.lemma_within_nesting(),
            CardElementView::ActionSet(x) => x.lemma_within_nesting(),
            _ => {},
        }
    }

    /// What is read is well formed, and nested no deeper than `limit`.
    pub proof fn lemma_decoded_value(j: Json, limit: nat)
        ensures
            Self::decode_spec(j, limit) matches Ok(v) ==> v.well_formed() && v.within(limit),
        decreases limit, 0nat, 1nat,
    {
        let inner = (limit - 1) as nat;
        match j {
            Json::Object(m) => {
                if limit > 0 {
                    match kind_of::<ElementKind>(m) {
                        Ok(ElementKind::Container) => ContainerView::lemma_decoded(m, inner),
                        Ok(ElementKind::ColumnSet) => ColumnSetView::lemma_decoded(m, inner),
                        Ok(ElementKind::Image) => ImageView::lemma_decoded(m, inner),
                        Ok(ElementKind::ActionSet) => ActionSetView::lemma_decoded(m, inner),
                        Ok(ElementKind::RichTextBlock) => RichTextBlockView::lemma_decoded(m),
                        _ => {},
                    }
                }
            },
            _ => {},
        }
    }

    /// Reading what was written gives the element back.
    pub proof fn lemma_roundtrip(self, limit: nat)
        requires
            self.well_formed(),
            self.within(limit),
        ensures
            gives(Self::decode_spec(self.encode_spec(), limit), self),
        decreases self, 2nat,
    {
        let tag = Some(token_json(self.kind()));
        let inner = (limit - 1) as nat;
        lemma_tag_keeps(self.fields(), tag);
        lemma_reads_kind(with(self.fields(), type_key(), token_json(self.kind())), self.kind());
        match self {
            CardElementView::TextBlock(x) => x.lemma_roundtrip_tagged(tag),
            CardElementView::Container(x) => x.lemma_roundtrip_tagged(tag, inner),
            CardElementView::ColumnSet(x) => x.lemma_roundtrip_tagged(tag, inner),
            CardElementView::Image(x) => x.lemma_roundtrip_tagged(tag, inner),
            CardElementView::ActionSet(x) => x.lemma_roundtrip_tagged(tag, inner),
            CardElementView::FactSet(x) => x.lemma_roundtrip_tagged(tag),
            CardElementView::RichTextBlock(x) => x.lemma_roundtrip_tagged(tag),
            CardElementView::InputText(x) => x.lemma_roundtrip_tagged(tag),
            CardElementView::InputNumber(x) => x.lemma_roundtrip_tagged(tag),
            CardElementView::InputDate(x) => x.lemma_roundtrip_tagged(tag),
            CardElementView::InputTime(x) => x.lemma_roundtrip_tagged(tag),
            CardElementView::InputToggle(x) => x.lemma_roundtrip_tagged(tag),
            CardElementView::InputChoiceSet(x) => x.lemma_roundtrip_tagged(tag),
        }
    }

    /// A `type` that is none of the kinds is refused as an unknown tag,
    /// whatever else the object holds.
    pub proof fn lemma_unknown_tag(m: Fields, tag: Seq<char>, limit: nat)
        requires
            limit > 0,
            m.contains_key(type_key()),
            m[type_key()] == Json::Str(tag),
            ElementKind::parse_spec(tag) is None,
        ensures
            fails_with(Self::decode_spec(Json::Object(m), limit), unknown_tag(Json::Str(tag))),
    {
        reveal(kind_of);
    }
}

impl CardElement {
    /// What the element carries besides the fields of its kind, where its
    /// kind carries any.
    pub fn base(&self) -> (r: Option<BaseFields>)
        ensures
            BaseFields::opt_view(r) == self@.base(),
    {
        match self {
            CardElement::TextBlock(x) => Some(x.base()),
            CardElement::Container(x) => Some(x.base()),
            CardElement::Image(x) => Some(x.base()),
            CardElement::RichTextBlock(x) => Some(x.base()),
            CardElement::InputText(x) => Some(x.base()),
            CardElement::InputNumber(x) => Some(x.base()),
            CardElement::InputDate(x) => Some(x.base()),
            CardElement::InputTime(x) => Some(x.base()),
            CardElement::InputToggle(x) => Some(x.base()),
            CardElement::InputChoiceSet(x) => Some(x.base()),
            _ => None,
        }
    }

    /// Whether the element, and whatever it holds, is one that the wire
    /// format can express.
    pub fn is_well_formed(&self) -> (r: bool)
        ensures
            r == self@.well_formed(),
        decreases self,
    {
        match self {
            CardElement::Container(x) => x.is_well_formed(),
            CardElement::ColumnSet(x) => x.is_well_formed(),
            CardElement::Image(x) => x.is_well_formed(),
            CardElement::ActionSet(x) => x.is_well_formed(),
            CardElement::RichTextBlock(x) => x.is_well_formed(),
            _ => true,
        }
    }

    /// Whether elements and actions are nested no deeper than `limit`, this
    /// element counted.
    pub fn is_within(&self, limit: usize) -> (r: bool)
        ensures
            r == self@.within(limit as nat),
        decreases self,
    {
        limit > 0 && match self {
            CardElement::Container(x) => x.is_within(limit - 1),
            CardElement::ColumnSet(x) => x.is_within(limit - 1),
            CardElement::Image(x) => x.is_within(limit - 1),
            CardElement::ActionSet(x) => x.is_within(limit - 1),
            _ => true,
        }
    }

    /// The kind of the element, which its `type` announces.
    pub fn kind(&self) -> (kind: ElementKind)
        ensures
            kind == self@.kind(),
    {
        match self {
            CardElement::TextBlock(_) => ElementKind::TextBlock,
            CardElement::Container(_) => ElementKind::Container,
            CardElement::ColumnSet(_) => ElementKind::ColumnSet,
            CardElement::Image(_) => ElementKind::Image,
            CardElement::ActionSet(_) => ElementKind::ActionSet,
            CardElement::FactSet(_) => ElementKind::FactSet,
            CardElement::RichTextBlock(_) => ElementKind::RichTextBlock,
            CardElement::InputText(_) => ElementKind::InputText,
            CardElement::InputNumber(_) => ElementKind::InputNumber,
            CardElement::InputDate(_) => ElementKind::InputDate,
            CardElement::InputTime(_) => ElementKind::InputTime,
            CardElement::InputToggle(_) => ElementKind::InputToggle,
            CardElement::InputChoiceSet(_) => ElementKind::InputChoiceSet,
        }
    }

    /// The JSON object that stands for the element.
    pub fn encode(&self) -> (v: Value)
        ensures
            value_json(v) == self@.encode_spec(),
        decreases self, 3nat,
    {
        let mut m = match self {
            CardElement::TextBlock(x) => x.encode_fields(),
            CardElement::Container(x) => x.encode_fields(),
            CardElement::ColumnSet(x) => x.encode_fields(),
            CardElement::Image(x) => x.encode_fields(),
            CardElement::ActionSet(x) => x.encode_fields(),
            CardElement::FactSet(x) => x.encode_fields(),
            CardElement::RichTextBlock(x) => x.encode_fields(),
            CardElement::InputText(x) => x.encode_fields(),
            CardElement::InputNumber(x) => x.encode_fields(),
            CardElement::InputDate(x) => x.encode_fields(),
            CardElement::InputTime(x) => x.encode_fields(),
            CardElement::InputToggle(x) => x.encode_fields(),
            CardElement::InputChoiceSet(x) => x.encode_fields(),
        };
        put_token(&mut m, "type", self.kind());
        object_value(m)
    }

    /// The element that the JSON value `v` stands for, with elements and
    /// actions nested no deeper than `limit`, this one counted.
    pub fn decode_within(v: &Value, limit: usize) -> (r: Result<CardElement, DecodeError>)
        ensures
            decoded(r) == CardElementView::decode_spec(value_json(*v), limit as nat),
            r matches Ok(x) ==> x@.well_formed() && x@.within(limit as nat),
        decreases limit, 0nat, 1nat,
    {
        proof {
            CardElementView::lemma_decoded_value(value_json(*v), limit as nat);
        }
        if limit == 0 {
            return Err(DecodeError::bare(ErrorKind::RecursionTooDeep));
        }
        let m = read_object(v)?;
        let kind = get_kind::<ElementKind>(m)?;
        match kind {
            ElementKind::TextBlock => Ok(CardElement::TextBlock(TextBlock::decode_fields(m)?)),
            ElementKind::Container => Ok(
                CardElement::Container(Container::decode_fields(m, limit - 1)?),
            ),
            ElementKind::ColumnSet => Ok(
                CardElement::ColumnSet(ColumnSet::decode_fields(m, limit - 1)?),
            ),
            ElementKind::Image => Ok(CardElement::Image(Image::decode_fields(m, limit - 1)?)),
            ElementKind::ActionSet => Ok(
                CardElement::ActionSet(ActionSet::decode_fields(m, limit - 1)?),
            ),
            ElementKind::FactSet => Ok(CardElement::FactSet(FactSet::decode_fields(m)?)),
            ElementKind::RichTextBlock => Ok(
                CardElement::RichTextBlock(RichTextBlock::decode_fields(m)?),
            ),
            ElementKind::InputText => Ok(CardElement::InputText(InputText::decode_fields(m)?)),
            ElementKind::InputNumber => Ok(
                CardElement::InputNumber(InputNumber::decode_fields(m)?),
            ),
            ElementKind::InputDate => Ok(CardElement::InputDate(InputDate::decode_fields(m)?)),
            ElementKind::InputTime => Ok(CardElement::InputTime(InputTime::decode_fields(m)?)),
            ElementKind::InputToggle => Ok(
                CardElement::InputToggle(InputToggle::decode_fields(m)?),
            ),
            ElementKind::InputChoiceSet => Ok(
                CardElement::InputChoiceSet(InputChoiceSet::decode_fields(m)?),
            ),
        }
    }

    /// The element that the JSON value `v` stands for, with elements and
    /// actions nested no deeper than [`MAX_DEPTH`].
    pub fn decode(v: &Value) -> (r: Result<CardElement, DecodeError>)
        ensures
            decoded(r) == CardElementView::decode_spec(value_json(*v), MAX_DEPTH as nat),
            r matches Ok(x) ==> x@.well_formed() && x@.within(MAX_DEPTH as nat),
    {
        CardElement::decode_within(v, MAX_DEPTH)
    }
}

impl CardElementView {
    /// Whether every one of the card elements is one that the wire format can
    /// express.
    pub open spec fn all_well_formed(items: Seq<CardElementView>) -> bool
        decreases items,
    {
        forall|i: int| 0 <= i < items.len() ==> (#[trigger] items[i]).well_formed()
    }

    /// Whether elements and actions are nested in every one of the card
    /// elements no deeper than `limit`.
    pub open spec fn all_within(items: Seq<CardElementView>, limit: nat) -> bool
        decreases items,
    {
        forall|i: int| 0 <= i < items.len() ==> (#[trigger] items[i]).within(limit)
    }

    /// The decoder of one card element.
    pub open spec fn decoder(
        limit: nat,
    ) -> spec_fn(Json) -> Result<CardElementView, DecodeErrorView>
        decreases limit, 0nat, 2nat,
    {
        |j: Json| Self::decode_spec(j, limit)
    }

    /// The JSON values that the card elements are written as, in their order.
    pub open spec fn encode_all(items: Seq<CardElementView>) -> Seq<Json>
        decreases items, 0nat,
    {
        Seq::new(
            items.len(),
            |i: int|
                if 0 <= i < items.len() {
                    items[i].encode_spec()
                } else {
                    Json::Null
                },
        )
    }

    /// What the JSON values `items` are read as: one card element each, in
    /// their order.
    pub open spec fn decode_all(
        items: Seq<Json>,
        limit: nat,
    ) -> Result<Seq<CardElementView>, DecodeErrorView>
        decreases limit, 0nat, 3nat,
    {
        decode_seq(items, Self::decoder(limit))
    }

    /// The card elements of the field `key`, which must be there.
    pub open spec fn required_all(
        m: Fields,
        key: Seq<char>,
        limit: nat,
    ) -> Result<Seq<CardElementView>, DecodeErrorView>
        decreases limit, 0nat, 4nat,
    {
        match required_array(m, key) {
            Ok(items) => in_key(Self::decode_all(items, limit), key),
            Err(e) => Err(e),
        }
    }

    /// How deep elements and actions are nested in the first `n` of the card
    /// elements.
    pub open spec fn nesting_upto(items: Seq<CardElementView>, n: nat) -> nat
        decreases items, n,
    {
        if n == 0 || n > items.len() {
            0
        } else {
            larger(Self::nesting_upto(items, (n - 1) as nat), items[n - 1].nesting())
        }
    }

    /// How deep elements and actions are nested in the card elements.
    pub open spec fn nesting_all(items: Seq<CardElementView>) -> nat
        decreases items, items.len() + 1,
    {
        Self::nesting_upto(items, items.len())
    }

    /// Each of the first `n` of the card elements is nested no deeper than
    /// they are together.
    pub proof fn lemma_nesting_upto(items: Seq<CardElementView>, n: nat, i: int)
        requires
            0 <= i < n <= items.len(),
        ensures
            items[i].nesting() <= Self::nesting_upto(items, n),
        decreases n,
    {
        if i < n - 1 {
            Self::lemma_nesting_upto(items, (n - 1) as nat, i);
        }
    }

    /// Card elements that are within a limit are within every greater limit.
    pub proof fn lemma_all_within_more(items: Seq<CardElementView>, limit: nat, more: nat)
        requires
            Self::all_within(items, limit),
            limit <= more,
        ensures
            Self::all_within(items, more),
        decreases items, 0nat,
    {
        assert forall|i: int| 0 <= i < items.len() implies (#[trigger] items[i]).within(more) by {
            items[i].lemma_within_more(limit, more);
        }
    }

    /// Card elements are within their nesting.
    pub proof fn lemma_all_within_nesting(items: Seq<CardElementView>)
        ensures
            Self::all_within(items, Self::nesting_all(items)),
        decreases items, 0nat,
    {
        let limit = Self::nesting_all(items);
        assert forall|i: int| 0 <= i < items.len() implies (#[trigger] items[i]).within(limit) by {
            Self::lemma_nesting_upto(items, items.len(), i);
            items[i].lemma_within_nesting();
            items[i].lemma_within_more(items[i].nesting(), limit);
        }
    }

    /// The card elements that are read are well formed, and nested no deeper
    /// than `limit`.
    pub proof fn lemma_decoded_all(items: Seq<Json>, limit: nat)
        ensures
            Self::decode_all(items, limit) matches Ok(values)
                ==> Self::all_well_formed(values) && Self::all_within(values, limit),
        decreases limit, 0nat, 3nat,
    {
        lemma_decode_seq_each(items, Self::decoder(limit));
        match Self::decode_all(items, limit) {
            Ok(values) => {
                assert forall|i: int| 0 <= i < values.len() implies
                    (#[trigger] values[i]).well_formed() && values[i].within(limit) by {
                    Self::lemma_decoded_value(items[i], limit);
                }
            },
            Err(_) => {},
        }
    }

    /// The card elements that are read of a field are well formed, and nested
    /// no deeper than `limit`.
    pub proof fn lemma_decoded_field(m: Fields, key: Seq<char>, limit: nat)
        ensures
            Self::required_all(m, key, limit) matches Ok(items)
                ==> Self::all_well_formed(items) && Self::all_within(items, limit),
        decreases limit, 0nat, 4nat,
    {
        match required_array(m, key) {
            Ok(items) => Self::lemma_decoded_all(items, limit),
            Err(_) => {},
        }
    }

    /// Reading what was written for a sequence of card elements gives the
    /// sequence back.
    pub proof fn lemma_roundtrip_all(items: Seq<CardElementView>, limit: nat)
        requires
            Self::all_well_formed(items),
            Self::all_within(items, limit),
        ensures
            gives(Self::decode_all(Self::encode_all(items), limit), items),
        decreases items, 0nat,
    {
        let written = Self::encode_all(items);
        assert forall|i: int| 0 <= i < items.len() implies gives(
            Self::decoder(limit)(#[trigger] written[i]),
            items[i],
        ) by {
            items[i].lemma_roundtrip(limit);
        }
        lemma_decode_seq_all(items, written, Self::decoder(limit));
    }
}

impl CardElement {
    /// The models of a sequence of card elements.
    pub open spec fn views(items: Seq<CardElement>) -> Seq<CardElementView>
        decreases items,
    {
        Seq::new(
            items.len(),
            |i: int|
                if 0 <= i < items.len() {
                    items[i].model()
                } else {
                    arbitrary()
                },
        )
    }

    /// Whether every one of the card elements is one that the wire format can
    /// express.
    #[verifier::loop_isolation(false)]
    pub fn all_well_formed(items: &Vec<CardElement>) -> (r: bool)
        ensures
            r == CardElementView::all_well_formed(CardElement::views(items@)),
        decreases items,
    {
        let mut i: usize = 0;
        while i < items.len()
            invariant
                i <= items.len(),
                forall|k: int|
                    0 <= k < i ==> (#[trigger] CardElement::views(items@)[k]).well_formed(),
            decreases items.len() - i,
        {
            if !items[i].is_well_formed() {
                assert(!CardElement::views(items@)[i as int].well_formed());
                return false;
            }
            i += 1;
        }
        true
    }

    /// Whether elements and actions are nested in every one of the card
    /// elements no deeper than `limit`.
    #[verifier::loop_isolation(false)]
    pub fn all_within(items: &Vec<CardElement>, limit: usize) -> (r: bool)
        ensures
            r == CardElementView::all_within(CardElement::views(items@), limit as nat),
        decreases items,
    {
        let mut i: usize = 0;
        while i < items.len()
            invariant
                i <= items.len(),
                forall|k: int|
                    0 <= k < i ==> (#[trigger] CardElement::views(items@)[k]).within(limit as nat),
            decreases items.len() - i,
        {
            if !items[i].is_within(limit) {
                assert(!CardElement::views(items@)[i as int].within(limit as nat));
                return false;
            }
            i += 1;
        }
        true
    }

    /// Copies of the card elements, in their order.
    #[verifier::loop_isolation(false)]
    pub fn clone_all(items: &Vec<CardElement>) -> (out: Vec<CardElement>)
        ensures
            CardElement::views(out@) == CardElement::views(items@),
        decreases items,
    {
        let mut out: Vec<CardElement> = Vec::new();
        let mut i: usize = 0;
        while i < items.len()
            invariant
                i <= items.len(),
                out@.len() == i,
                forall|k: int| 0 <= k < i ==> (#[trigger] out@[k])@ == items@[k]@,
            decreases items.len() - i,
        {
            out.push(items[i].duplicate());
            i += 1;
        }
        assert(CardElement::views(out@) =~= CardElement::views(items@));
        out
    }

    /// The JSON values that stand for the card elements, in their order.
    #[verifier::loop_isolation(false)]
    pub fn encode_all(items: &Vec<CardElement>) -> (out: Vec<Value>)
        ensures
            values_json(out@) == CardElementView::encode_all(CardElement::views(items@)),
        decreases items, 0nat,
    {
        let mut out: Vec<Value> = Vec::new();
        let mut i: usize = 0;
        while i < items.len()
            invariant
                i <= items.len(),
                out@.len() == i,
                forall|k: int|
                    0 <= k < i ==> value_json(#[trigger] out@[k]) == items@[k]@.encode_spec(),
            decreases items.len() - i,
        {
            out.push(items[i].encode());
            i += 1;
        }
        assert(values_json(out@) =~= CardElementView::encode_all(CardElement::views(items@)));
        out
    }

    /// The card elements that the JSON values `items` stand for, in their
    /// order, nested no deeper than `limit`.
    #[verifier::loop_isolation(false)]
    pub fn decode_all(
        items: &Vec<Value>,
        limit: usize,
    ) -> (r: Result<Vec<CardElement>, DecodeError>)
        ensures
            match r {
                Ok(out) => gives(
                    CardElementView::decode_all(values_json(items@), limit as nat),
                    CardElement::views(out@),
                ),
                Err(e) => fails_with(
                    CardElementView::decode_all(values_json(items@), limit as nat),
                    e@,
                ),
            },
        decreases limit, 0nat, 3nat,
    {
        let ghost all = values_json(items@);
        let ghost each = CardElementView::decoder(limit as nat);
        let mut out: Vec<CardElement> = Vec::new();
        let mut i: usize = 0;
        proof {
            lemma_decode_seq_empty(each);
            assert(CardElement::views(out@) =~= Seq::empty());
            assert(all.take(0) =~= Seq::empty());
        }
        while i < items.len()
            invariant
                i <= items.len(),
                gives(decode_seq(all.take(i as int), each), CardElement::views(out@)),
            decreases items.len() - i,
        {
            proof {
                lemma_decode_seq_next(all, i as int, each);
            }
            match CardElement::decode_within(&items[i], limit) {
                Ok(item) => {
                    proof {
                        assert(CardElement::views(out@.push(item))
                            =~= CardElement::views(out@).push(item@));
                    }
                    out.push(item);
                },
                Err(e) => {
                    proof {
                        lemma_decode_seq_fails(all, i + 1, each);
                    }
                    return Err(e.under_index(i));
                },
            }
            i += 1;
        }
        assert(all.take(items.len() as int) =~= all);
        Ok(out)
    }

    /// The card elements of the field `key`, which must be there.
    pub(crate) fn get_all(
        m: &Object,
        key: &'static str,
        limit: usize,
    ) -> (r: Result<Vec<CardElement>, DecodeError>)
        ensures
            match r {
                Ok(out) => gives(
                    CardElementView::required_all(object_fields(*m), key@, limit as nat),
                    CardElement::views(out@),
                ),
                Err(e) => fails_with(
                    CardElementView::required_all(object_fields(*m), key@, limit as nat),
                    e@,
                ),
            },
        decreases limit, 0nat, 4nat,
    {
        let items = get_array(m, key)?;
        match CardElement::decode_all(items, limit) {
            Ok(out) => Ok(out),
            Err(e) => Err(e.under_key(key)),
        }
    }
}

/// What nearly every card element carries besides the fields of its kind. On
/// the wire these fields stand among the fields of the element, not under a
/// key of their own.
#[derive(Debug, PartialEq)]
pub struct BaseFields {
    /// A unique identifier of the element.
    pub id: Option<String>,
    /// Whether a separating line is drawn at the top of the element.
    pub separator: Option<bool>,
    /// The amount of space between this element and the one before it.
    pub spacing: Option<Spacing>,
    /// The height of the element.
    pub height: Option<Height>,
    /// Whether the element is shown.
    pub is_visible: Option<bool>,
}

/// The mathematical model of a [`BaseFields`].
pub struct BaseFieldsView {
    pub id: Option<Seq<char>>,
    pub separator: Option<bool>,
    pub spacing: Option<Spacing>,
    pub height: Option<Height>,
    pub is_visible: Option<bool>,
}

impl View for BaseFields {
    type V = BaseFieldsView;

    open spec fn view(&self) -> BaseFieldsView {
        BaseFieldsView {
            id: self.id.deep_view(),
            separator: self.separator,
            spacing: self.spacing,
            height: self.height,
            is_visible: self.is_visible,
        }
    }
}

impl Clone for BaseFields {
    fn clone(&self) -> (r: Self)
        ensures
            r@ == self@,
    {
        BaseFields {
            id: clone_opt_text(&self.id),
            separator: self.separator,
            spacing: self.spacing,
            height: self.height,
            is_visible: self.is_visible,
        }
    }
}

impl Default for BaseFields {
    /// The value without content: every text and sequence empty, every other
    /// field without a value.
    fn default() -> (r: BaseFields)
        ensures
            r@ == BaseFieldsView::empty(),
    {
        let r = BaseFields {
            id: None,
            separator: None,
            spacing: None,
            height: None,
            is_visible: None,
        };
        r
    }
}

impl BaseFieldsView {
    /// The value without content.
    pub open spec fn empty() -> BaseFieldsView {
        BaseFieldsView {
            id: None,
            separator: None,
            spacing: None,
            height: None,
            is_visible: None,
        }
    }
}

impl BaseFieldsView {
    /// Whether `key` is the key of one of the fields.
    pub open spec fn is_key(key: Seq<char>) -> bool {
        ||| key == "id"@
        ||| key == "separator"@
        ||| key == "spacing"@
        ||| key == "height"@
        ||| key == "isVisible"@
    }

    /// The fields that the value is written as.
    pub open spec fn encode_fields(self) -> Fields {
        let m = no_fields();
        let m = with_opt(m, "id"@, opt_text_json(self.id));
        let m = with_opt(m, "separator"@, opt_bool_json(self.separator));
        let m = with_opt(m, "spacing"@, opt_token_json(self.spacing));
        let m = with_opt(m, "height"@, opt_token_json(self.height));
        let m = with_opt(m, "isVisible"@, opt_bool_json(self.is_visible));
        m
    }

    /// The JSON value that the value is written as: an object of its fields.
    pub open spec fn encode_spec(self) -> Json {
        Json::Object(self.encode_fields())
    }

    /// What the fields `m` are read as: the fields are read in their order,
    /// and the first that cannot be read decides the error.
    pub open spec fn decode_fields(m: Fields) -> Result<BaseFieldsView, DecodeErrorView> {
        let id = optional_text(m, "id"@);
        let separator = optional_bool(m, "separator"@);
        let spacing = optional_token::<Spacing>(m, "spacing"@);
        let height = optional_token::<Height>(m, "height"@);
        let is_visible = optional_bool(m, "isVisible"@);
        if id is Err {
            Err(id->Err_0)
        } else if separator is Err {
            Err(separator->Err_0)
        } else if spacing is Err {
            Err(spacing->Err_0)
        } else if height is Err {
            Err(height->Err_0)
        } else if is_visible is Err {
            Err(is_visible->Err_0)
        } else {
            Ok(
                BaseFieldsView {
                    id: id->Ok_0,
                    separator: separator->Ok_0,
                    spacing: spacing->Ok_0,
                    height: height->Ok_0,
                    is_visible: is_visible->Ok_0,
                },
            )
        }
    }

    /// What the JSON value `j` is read as: it must be an object, and its
    /// fields are read.
    pub open spec fn decode_spec(j: Json) -> Result<BaseFieldsView, DecodeErrorView> {
        match j {
            Json::Object(m) => Self::decode_fields(m),
            _ => Err(mismatch(j)),
        }
    }

    /// What is written: every field that must be there, every other field
    /// exactly where it has a value, and each with its value.
    pub proof fn lemma_written(self)
        ensures
            self.encode_fields().contains_key("id"@) <==> self.id is Some,
            self.id matches Some(x) ==> self.encode_fields()["id"@] == Json::Str(x),
            self.encode_fields().contains_key("separator"@) <==> self.separator is Some,
            self.separator matches Some(x) ==> self.encode_fields()["separator"@] == Json::Bool(x),
            self.encode_fields().contains_key("spacing"@) <==> self.spacing is Some,
            self.spacing matches Some(x) ==> self.encode_fields()["spacing"@] == token_json(x),
            self.encode_fields().contains_key("height"@) <==> self.height is Some,
            self.height matches Some(x) ==> self.encode_fields()["height"@] == token_json(x),
            self.encode_fields().contains_key("isVisible"@) <==> self.is_visible is Some,
            self.is_visible matches Some(x) ==> self.encode_fields()["isVisible"@] == Json::Bool(x),
    {
        lemma_with_opt();
        lemma_key_shapes();
    }

    /// Nothing else is written: every key is that of a field, and none holds
    /// `null`.
    pub proof fn lemma_written_keys(self, key: Seq<char>)
        requires
            self.encode_fields().contains_key(key),
        ensures
            Self::is_key(key),
            !(self.encode_fields()[key] is Null),
    {
        lemma_with_opt();
    }

    /// Reading what was written gives the value back.
    pub proof fn lemma_roundtrip(self)
        ensures
            gives(Self::decode_fields(self.encode_fields()), self),
            gives(Self::decode_spec(self.encode_spec()), self),
    {
        self.lemma_written();
        lemma_key_shapes();
        let m = self.encode_fields();
        lemma_reads_opt_text(m, "id"@, self.id);
        lemma_reads_opt_bool(m, "separator"@, self.separator);
        lemma_reads_opt_token(m, "spacing"@, self.spacing);
        lemma_reads_opt_token(m, "height"@, self.height);
        lemma_reads_opt_bool(m, "isVisible"@, self.is_visible);
    }
}

impl BaseFields {
    /// The fields of the JSON object that stands for the value.
    pub fn encode_fields(&self) -> (m: Object)
        ensures
            object_fields(m) == self@.encode_fields(),
    {
        let mut m = new_object();
        put_opt_text(&mut m, "id", &self.id);
        put_opt_bool(&mut m, "separator", self.separator);
        put_opt_token(&mut m, "spacing", self.spacing);
        put_opt_token(&mut m, "height", self.height);
        put_opt_bool(&mut m, "isVisible", self.is_visible);
        m
    }

    /// The JSON object that stands for the value.
    pub fn encode(&self) -> (v: Value)
        ensures
            value_json(v) == self@.encode_spec(),
    {
        object_value(self.encode_fields())
    }

    /// The value that the fields `m` stand for.
    pub fn decode_fields(m: &Object) -> (r: Result<BaseFields, DecodeError>)
        ensures
            decoded(r) == BaseFieldsView::decode_fields(object_fields(*m)),
    {
        let id = get_opt_text(m, "id")?;
        let separator = get_opt_bool(m, "separator")?;
        let spacing = get_opt_token::<Spacing>(m, "spacing")?;
        let height = get_opt_token::<Height>(m, "height")?;
        let is_visible = get_opt_bool(m, "isVisible")?;
        Ok(
            BaseFields {
                id,
                separator,
                spacing,
                height,
                is_visible,
            },
        )
    }

    /// The value that the JSON value `v` stands for.
    pub fn decode(v: &Value) -> (r: Result<BaseFields, DecodeError>)
        ensures
            decoded(r) == BaseFieldsView::decode_spec(value_json(*v)),
    {
        let m = read_object(v)?;
        BaseFields::decode_fields(m)
    }
}

impl BaseFields {
    /// The model of optional base fields.
    pub open spec fn opt_view(v: Option<BaseFields>) -> Option<BaseFieldsView> {
        match v {
            Some(v) => Some(v@),
            None => None,
        }
    }
}

/// A block of text.
#[derive(Debug, PartialEq)]
pub struct TextBlock {
    /// The text to display.
    pub text: String,
    /// The size of the text.
    pub size: Option<TextSize>,
    /// The weight of the text.
    pub weight: Option<TextWeight>,
    /// Whether the text wraps where it exceeds the available width.
    pub wrap: Option<bool>,
    /// Whether the text is toned down.
    pub is_subtle: Option<bool>,
    /// The color of the text.
    pub color: Option<Color>,
    /// The horizontal alignment of the text.
    pub horizontal_alignment: Option<HorizontalAlignment>,
    /// The greatest number of lines to display.
    pub max_lines: Option<u32>,
    /// The type of font to render the text in.
    pub font_type: Option<FontType>,
    /// A unique identifier of the element.
    pub id: Option<String>,
    /// Whether a separating line is drawn at the top of the element.
    pub separator: Option<bool>,
    /// The amount of space between this element and the one before it.
    pub spacing: Option<Spacing>,
    /// The height of the element.
    pub height: Option<Height>,
    /// Whether the element is shown.
    pub is_visible: Option<bool>,
}

/// The mathematical model of a [`TextBlock`].
pub struct TextBlockView {
    pub text: Seq<char>,
    pub size: Option<TextSize>,
    pub weight: Option<TextWeight>,
    pub wrap: Option<bool>,
    pub is_subtle: Option<bool>,
    pub color: Option<Color>,
    pub horizontal_alignment: Option<HorizontalAlignment>,
    pub max_lines: Option<u32>,
    pub font_type: Option<FontType>,
    pub id: Option<Seq<char>>,
    pub separator: Option<bool>,
    pub spacing: Option<Spacing>,
    pub height: Option<Height>,
    pub is_visible: Option<bool>,
}

impl View for TextBlock {
    type V = TextBlockView;

    open spec fn view(&self) -> TextBlockView {
        TextBlockView {
            text: self.text@,
            size: self.size,
            weight: self.weight,
            wrap: self.wrap,
            is_subtle: self.is_subtle,
            color: self.color,
            horizontal_alignment: self.horizontal_alignment,
            max_lines: self.max_lines,
            font_type: self.font_type,
            id: self.id.deep_view(),
            separator: self.separator,
            spacing: self.spacing,
            height: self.height,
            is_visible: self.is_visible,
        }
    }
}

impl Clone for TextBlock {
    fn clone(&self) -> (r: Self)
        ensures
            r@ == self@,
    {
        TextBlock {
            text: self.text.clone(),
            size: self.size,
            weight: self.weight,
            wrap: self.wrap,
            is_subtle: self.is_subtle,
            color: self.color,
            horizontal_alignment: self.horizontal_alignment,
            max_lines: self.max_lines,
            font_type: self.font_type,
            id: clone_opt_text(&self.id),
            separator: self.separator,
            spacing: self.spacing,
            height: self.height,
            is_visible: self.is_visible,
        }
    }
}

impl Default for TextBlock {
    /// The value without content: every text and sequence empty, every other
    /// field without a value.
    fn default() -> (r: TextBlock)
        ensures
            r@ == TextBlockView::empty(),
    {
        let r = TextBlock {
            text: String::new(),
            size: None,
            weight: None,
            wrap: None,
            is_subtle: None,
            color: None,
            horizontal_alignment: None,
            max_lines: None,
            font_type: None,
            id: None,
            separator: None,
            spacing: None,
            height: None,
            is_visible: None,
        };
        assert(r@.text =~= Seq::empty());
        r
    }
}

impl TextBlockView {
    /// The value without content.
    pub open spec fn empty() -> TextBlockView {
        TextBlockView {
            text: Seq::empty(),
            size: None,
            weight: None,
            wrap: None,
            is_subtle: None,
            color: None,
            horizontal_alignment: None,
            max_lines: None,
            font_type: None,
            id: None,
            separator: None,
            spacing: None,
            height: None,
            is_visible: None,
        }
    }
}

impl TextBlockView {
    /// Whether `key` is the key of one of the fields.
    pub open spec fn is_key(key: Seq<char>) -> bool {
        ||| key == "text"@
        ||| key == "size"@
        ||| key == "weight"@
        ||| key == "wrap"@
        ||| key == "isSubtle"@
        ||| key == "color"@
        ||| key == "horizontalAlignment"@
        ||| key == "maxLines"@
        ||| key == "fontType"@
        ||| key == "id"@
        ||| key == "separator"@
        ||| key == "spacing"@
        ||| key == "height"@
        ||| key == "isVisible"@
    }

    /// The fields that the value is written as.
    pub open spec fn encode_fields(self) -> Fields {
        let m = no_fields();
        let m = with(m, "text"@, Json::Str(self.text));
        let m = with_opt(m, "size"@, opt_token_json(self.size));
        let m = with_opt(m, "weight"@, opt_token_json(self.weight));
        let m = with_opt(m, "wrap"@, opt_bool_json(self.wrap));
        let m = with_opt(m, "isSubtle"@, opt_bool_json(self.is_subtle));
        let m = with_opt(m, "color"@, opt_token_json(self.color));
        let m = with_opt(m, "horizontalAlignment"@, opt_token_json(self.horizontal_alignment));
        let m = with_opt(m, "maxLines"@, opt_u32_json(self.max_lines));
        let m = with_opt(m, "fontType"@, opt_token_json(self.font_type));
        let m = with_opt(m, "id"@, opt_text_json(self.id));
        let m = with_opt(m, "separator"@, opt_bool_json(self.separator));
        let m = with_opt(m, "spacing"@, opt_token_json(self.spacing));
        let m = with_opt(m, "height"@, opt_token_json(self.height));
        let m = with_opt(m, "isVisible"@, opt_bool_json(self.is_visible));
        m
    }

    /// The JSON value that the value is written as: an object of its fields.
    pub open spec fn encode_spec(self) -> Json {
        Json::Object(self.encode_fields())
    }

    /// What the fields `m` are read as: the fields are read in their order,
    /// and the first that cannot be read decides the error.
    pub open spec fn decode_fields(m: Fields) -> Result<TextBlockView, DecodeErrorView> {
        let text = required_text(m, "text"@);
        let size = optional_token::<TextSize>(m, "size"@);
        let weight = optional_token::<TextWeight>(m, "weight"@);
        let wrap = optional_bool(m, "wrap"@);
        let is_subtle = optional_bool(m, "isSubtle"@);
        let color = optional_token::<Color>(m, "color"@);
        let horizontal_alignment = optional_token::<HorizontalAlignment>(m, "horizontalAlignment"@);
        let max_lines = optional_u32(m, "maxLines"@);
        let font_type = optional_token::<FontType>(m, "fontType"@);
        let id = optional_text(m, "id"@);
        let separator = optional_bool(m, "separator"@);
        let spacing = optional_token::<Spacing>(m, "spacing"@);
        let height = optional_token::<Height>(m, "height"@);
        let is_visible = optional_bool(m, "isVisible"@);
        if text is Err {
            Err(text->Err_0)
        } else if size is Err {
            Err(size->Err_0)
        } else if weight is Err {
            Err(weight->Err_0)
        } else if wrap is Err {
            Err(wrap->Err_0)
        } else if is_subtle is Err {
            Err(is_subtle->Err_0)
        } else if color is Err {
            Err(color->Err_0)
        } else if horizontal_alignment is Err {
            Err(horizontal_alignment->Err_0)
        } else if max_lines is Err {
            Err(max_lines->Err_0)
        } else if font_type is Err {
            Err(font_type->Err_0)
        } else if id is Err {
            Err(id->Err_0)
        } else if separator is Err {
            Err(separator->Err_0)
        } else if spacing is Err {
            Err(spacing->Err_0)
        } else if height is Err {
            Err(height->Err_0)
        } else if is_visible is Err {
            Err(is_visible->Err_0)
        } else {
            Ok(
                TextBlockView {
                    text: text->Ok_0,
                    size: size->Ok_0,
                    weight: weight->Ok_0,
                    wrap: wrap->Ok_0,
                    is_subtle: is_subtle->Ok_0,
                    color: color->Ok_0,
                    horizontal_alignment: horizontal_alignment->Ok_0,
                    max_lines: max_lines->Ok_0,
                    font_type: font_type->Ok_0,
                    id: id->Ok_0,
                    separator: separator->Ok_0,
                    spacing: spacing->Ok_0,
                    height: height->Ok_0,
                    is_visible: is_visible->Ok_0,
                },
            )
        }
    }

    /// What the JSON value `j` is read as: it must be an object, and its
    /// fields are read.
    pub open spec fn decode_spec(j: Json) -> Result<TextBlockView, DecodeErrorView> {
        match j {
            Json::Object(m) => Self::decode_fields(m),
            _ => Err(mismatch(j)),
        }
    }

    /// What is written: every field that must be there, every other field
    /// exactly where it has a value, and each with its value.
    pub proof fn lemma_written(self)
        ensures
            self.encode_fields().contains_key("text"@),
            self.encode_fields()["text"@] == Json::Str(self.text),
            self.encode_fields().contains_key("size"@) <==> self.size is Some,
            self.size matches Some(x) ==> self.encode_fields()["size"@] == token_json(x),
            self.encode_fields().contains_key("weight"@) <==> self.weight is Some,
            self.weight matches Some(x) ==> self.encode_fields()["weight"@] == token_json(x),
            self.encode_fields().contains_key("wrap"@) <==> self.wrap is Some,
            self.wrap matches Some(x) ==> self.encode_fields()["wrap"@] == Json::Bool(x),
            self.encode_fields().contains_key("isSubtle"@) <==> self.is_subtle is Some,
            self.is_subtle matches Some(x) ==> self.encode_fields()["isSubtle"@] == Json::Bool(x),
            self.encode_fields().contains_key("color"@) <==> self.color is Some,
            self.color matches Some(x) ==> self.encode_fields()["color"@] == token_json(x),
            self.encode_fields().contains_key("horizontalAlignment"@)
                <==> self.horizontal_alignment is Some,
            self.horizontal_alignment matches Some(x)
                ==> self.encode_fields()["horizontalAlignment"@] == token_json(x),
            self.encode_fields().contains_key("maxLines"@) <==> self.max_lines is Some,
            self.max_lines matches Some(x) ==> self.encode_fields()["maxLines"@] == u32_json(x),
            self.encode_fields().contains_key("fontType"@) <==> self.font_type is Some,
            self.font_type matches Some(x) ==> self.encode_fields()["fontType"@] == token_json(x),
            self.encode_fields().contains_key("id"@) <==> self.id is Some,
            self.id matches Some(x) ==> self.encode_fields()["id"@] == Json::Str(x),
            self.encode_fields().contains_key("separator"@) <==> self.separator is Some,
            self.separator matches Some(x) ==> self.encode_fields()["separator"@] == Json::Bool(x),
            self.encode_fields().contains_key("spacing"@) <==> self.spacing is Some,
            self.spacing matches Some(x) ==> self.encode_fields()["spacing"@] == token_json(x),
            self.encode_fields().contains_key("height"@) <==> self.height is Some,
            self.height matches Some(x) ==> self.encode_fields()["height"@] == token_json(x),
            self.encode_fields().contains_key("isVisible"@) <==> self.is_visible is Some,
            self.is_visible matches Some(x) ==> self.encode_fields()["isVisible"@] == Json::Bool(x),
    {
        lemma_with_opt();
        lemma_key_shapes();
    }

    /// Nothing else is written: every key is that of a field, and none holds
    /// `null`.
    pub proof fn lemma_written_keys(self, key: Seq<char>)
        requires
            self.encode_fields().contains_key(key),
        ensures
            Self::is_key(key),
            !(self.encode_fields()[key] is Null),
    {
        lemma_with_opt();
    }

    /// What the value carries besides the fields of its kind.
    pub open spec fn base(self) -> BaseFieldsView {
        BaseFieldsView {
            id: self.id,
            separator: self.separator,
            spacing: self.spacing,
            height: self.height,
            is_visible: self.is_visible,
        }
    }

    /// The base fields are written among the fields of the value, each under
    /// its own key and as it is written on its own.
    pub proof fn lemma_base_is_flat(self, key: Seq<char>)
        requires
            self.base().encode_fields().contains_key(key),
        ensures
            self.encode_fields().contains_key(key),
            self.encode_fields()[key] == self.base().encode_fields()[key],
    {
        self.base().lemma_written_keys(key);
        self.base().lemma_written();
        self.lemma_written();
    }

    /// Reading what was written gives the value back, also where the object
    /// says under `type` what it is.
    pub proof fn lemma_roundtrip_tagged(self, tag: Option<Json>)
        ensures
            gives(Self::decode_fields(with_opt(self.encode_fields(), type_key(), tag)), self),
    {
        self.lemma_written();
        lemma_key_shapes();
        lemma_tag_keeps(self.encode_fields(), tag);
        let m = with_opt(self.encode_fields(), type_key(), tag);
        lemma_reads_text(m, "text"@, self.text);
        lemma_reads_opt_token(m, "size"@, self.size);
        lemma_reads_opt_token(m, "weight"@, self.weight);
        lemma_reads_opt_bool(m, "wrap"@, self.wrap);
        lemma_reads_opt_bool(m, "isSubtle"@, self.is_subtle);
        lemma_reads_opt_token(m, "color"@, self.color);
        lemma_reads_opt_token(m, "horizontalAlignment"@, self.horizontal_alignment);
        lemma_reads_opt_u32(m, "maxLines"@, self.max_lines);
        lemma_reads_opt_token(m, "fontType"@, self.font_type);
        lemma_reads_opt_text(m, "id"@, self.id);
        lemma_reads_opt_bool(m, "separator"@, self.separator);
        lemma_reads_opt_token(m, "spacing"@, self.spacing);
        lemma_reads_opt_token(m, "height"@, self.height);
        lemma_reads_opt_bool(m, "isVisible"@, self.is_visible);
    }

    /// Reading what was written gives the value back.
    pub proof fn lemma_roundtrip(self)
        ensures
            gives(Self::decode_fields(self.encode_fields()), self),
            gives(Self::decode_spec(self.encode_spec()), self),
    {
        lemma_with_none(self.encode_fields(), type_key());
        self.lemma_roundtrip_tagged(None);
    }
}

impl TextBlock {
    /// What the value carries besides the fields of its kind.
    pub fn base(&self) -> (r: BaseFields)
        ensures
            r@ == self@.base(),
    {
        BaseFields {
            id: clone_opt_text(&self.id),
            separator: self.separator,
            spacing: self.spacing,
            height: self.height,
            is_visible: self.is_visible,
        }
    }

    /// The fields of the JSON object that stands for the value.
    pub fn encode_fields(&self) -> (m: Object)
        ensures
            object_fields(m) == self@.encode_fields(),
    {
        let mut m = new_object();
        put_text(&mut m, "text", self.text.as_str());
        put_opt_token(&mut m, "size", self.size);
        put_opt_token(&mut m, "weight", self.weight);
        put_opt_bool(&mut m, "wrap", self.wrap);
        put_opt_bool(&mut m, "isSubtle", self.is_subtle);
        put_opt_token(&mut m, "color", self.color);
        put_opt_token(&mut m, "horizontalAlignment", self.horizontal_alignment);
        put_opt_u32(&mut m, "maxLines", self.max_lines);
        put_opt_token(&mut m, "fontType", self.font_type);
        put_opt_text(&mut m, "id", &self.id);
        put_opt_bool(&mut m, "separator", self.separator);
        put_opt_token(&mut m, "spacing", self.spacing);
        put_opt_token(&mut m, "height", self.height);
        put_opt_bool(&mut m, "isVisible", self.is_visible);
        m
    }

    /// The JSON object that stands for the value.
    pub fn encode(&self) -> (v: Value)
        ensures
            value_json(v) == self@.encode_spec(),
    {
        object_value(self.encode_fields())
    }

    /// The value that the fields `m` stand for.
    pub fn decode_fields(m: &Object) -> (r: Result<TextBlock, DecodeError>)
        ensures
            decoded(r) == TextBlockView::decode_fields(object_fields(*m)),
    {
        let text = get_text(m, "text")?;
        let size = get_opt_token::<TextSize>(m, "size")?;
        let weight = get_opt_token::<TextWeight>(m, "weight")?;
        let wrap = get_opt_bool(m, "wrap")?;
        let is_subtle = get_opt_bool(m, "isSubtle")?;
        let color = get_opt_token::<Color>(m, "color")?;
        let horizontal_alignment = get_opt_token::<HorizontalAlignment>(m, "horizontalAlignment")?;
        let max_lines = get_opt_u32(m, "maxLines")?;
        let font_type = get_opt_token::<FontType>(m, "fontType")?;
        let id = get_opt_text(m, "id")?;
        let separator = get_opt_bool(m, "separator")?;
        let spacing = get_opt_token::<Spacing>(m, "spacing")?;
        let height = get_opt_token::<Height>(m, "height")?;
        let is_visible = get_opt_bool(m, "isVisible")?;
        Ok(
            TextBlock {
                text,
                size,
                weight,
                wrap,
                is_subtle,
                color,
                horizontal_alignment,
                max_lines,
                font_type,
                id,
                separator,
                spacing,
                height,
                is_visible,
            },
        )
    }

    /// The value that the JSON value `v` stands for.
    pub fn decode(v: &Value) -> (r: Result<TextBlock, DecodeError>)
        ensures
            decoded(r) == TextBlockView::decode_spec(value_json(*v)),
    {
        let m = read_object(v)?;
        TextBlock::decode_fields(m)
    }
}

/// A group of card elements.
#[derive(Debug, PartialEq)]
pub struct Container {
    /// The elements in the container.
    pub items: Vec<CardElement>,
    /// The style of the container.
    pub style: Option<ContainerStyle>,
    /// The amount of space between this element and the one before it.
    pub spacing: Option<Spacing>,
    /// The action invoked when the container is tapped or selected. Every
    /// kind of action is accepted here, one that shows a card too.
    pub select_action: Option<Box<Action>>,
    /// How the content is aligned vertically within the container.
    pub vertical_content_alignment: Option<VerticalContentAlignment>,
    /// Whether the container bleeds through the padding of its parent.
    pub bleed: Option<bool>,
    /// The least height of the container.
    pub min_height: Option<String>,
    /// A unique identifier of the element.
    pub id: Option<String>,
    /// Whether a separating line is drawn at the top of the element.
    pub separator: Option<bool>,
    /// The height of the element.
    pub height: Option<Height>,
    /// Whether the element is shown.
    pub is_visible: Option<bool>,
}

/// The mathematical model of a [`Container`].
pub struct ContainerView {
    pub items: Seq<CardElementView>,
    pub style: Option<ContainerStyle>,
    pub spacing: Option<Spacing>,
    pub select_action: Option<ActionView>,
    pub vertical_content_alignment: Option<VerticalContentAlignment>,
    pub bleed: Option<bool>,
    pub min_height: Option<Seq<char>>,
    pub id: Option<Seq<char>>,
    pub separator: Option<bool>,
    pub height: Option<Height>,
    pub is_visible: Option<bool>,
}

impl Container {
    /// The mathematical model of the value.
    pub open spec fn model(&self) -> ContainerView
        decreases self,
    {
        ContainerView {
            items: CardElement::views(self.items@),
            style: self.style,
            spacing: self.spacing,
            select_action: Action::opt_view(self.select_action),
            vertical_content_alignment: self.vertical_content_alignment,
            bleed: self.bleed,
            min_height: self.min_height.deep_view(),
            id: self.id.deep_view(),
            separator: self.separator,
            height: self.height,
            is_visible: self.is_visible,
        }
    }
}

impl View for Container {
    type V = ContainerView;

    open spec fn view(&self) -> ContainerView {
        self.model()
    }
}

impl Container {
    /// A copy of the value.
    pub fn duplicate(&self) -> (r: Container)
        ensures
            r@ == self@,
        decreases self,
    {
        Container {
            items: CardElement::clone_all(&self.items),
            style: self.style,
            spacing: self.spacing,
            select_action: Action::clone_opt_boxed(&self.select_action),
            vertical_content_alignment: self.vertical_content_alignment,
            bleed: self.bleed,
            min_height: clone_opt_text(&self.min_height),
            id: clone_opt_text(&self.id),
            separator: self.separator,
            height: self.height,
            is_visible: self.is_visible,
        }
    }
}

impl Clone for Container {
    fn clone(&self) -> (r: Self)
        ensures
            r@ == self@,
    {
        self.duplicate()
    }
}

impl Default for Container {
    /// The value without content: every text and sequence empty, every other
    /// field without a value.
    fn default() -> (r: Container)
        ensures
            r@ == ContainerView::empty(),
    {
        let r = Container {
            items: Vec::new(),
            style: None,
            spacing: None,
            select_action: None,
            vertical_content_alignment: None,
            bleed: None,
            min_height: None,
            id: None,
            separator: None,
            height: None,
            is_visible: None,
        };
        assert(r@.items =~= Seq::empty());
        r
    }
}

impl ContainerView {
    /// The value without content.
    pub open spec fn empty() -> ContainerView {
        ContainerView {
            items: Seq::empty(),
            style: None,
            spacing: None,
            select_action: None,
            vertical_content_alignment: None,
            bleed: None,
            min_height: None,
            id: None,
            separator: None,
            height: None,
            is_visible: None,
        }
    }
}

impl ContainerView {
    /// Whether the value, and whatever it holds, is one that the wire format
    /// can express.
    pub open spec fn well_formed(self) -> bool
        decreases self,
    {
        &&& CardElementView::all_well_formed(self.items)
        &&& (self.select_action matches Some(x) ==> x.well_formed())
    }

    /// Whether elements and actions are nested in the value no deeper than
    /// `limit`.
    pub open spec fn within(self, limit: nat) -> bool
        decreases self,
    {
        &&& CardElementView::all_within(self.items, limit)
        &&& (self.select_action matches Some(x) ==> x.within(limit))
    }

    /// Whether `key` is the key of one of the fields.
    pub open spec fn is_key(key: Seq<char>) -> bool {
        ||| key == "items"@
        ||| key == "style"@
        ||| key == "spacing"@
        ||| key == "selectAction"@
        ||| key == "verticalContentAlignment"@
        ||| key == "bleed"@
        ||| key == "minHeight"@
        ||| key == "id"@
        ||| key == "separator"@
        ||| key == "height"@
        ||| key == "isVisible"@
    }

    /// The fields that the value is written as.
    pub open spec fn encode_fields(self) -> Fields
        decreases self, 0nat,
    {
        let m = no_fields();
        let m = with(m, "items"@, Json::Array(CardElementView::encode_all(self.items)));
        let m = with_opt(m, "style"@, opt_token_json(self.style));
        let m = with_opt(m, "spacing"@, opt_token_json(self.spacing));
        let m = with_opt(m, "selectAction"@, ActionView::opt_json(self.select_action));
        let m = with_opt(
            m,
            "verticalContentAlignment"@,
            opt_token_json(self.vertical_content_alignment),
        );
        let m = with_opt(m, "bleed"@, opt_bool_json(self.bleed));
        let m = with_opt(m, "minHeight"@, opt_text_json(self.min_height));
        let m = with_opt(m, "id"@, opt_text_json(self.id));
        let m = with_opt(m, "separator"@, opt_bool_json(self.separator));
        let m = with_opt(m, "height"@, opt_token_json(self.height));
        let m = with_opt(m, "isVisible"@, opt_bool_json(self.is_visible));
        m
    }

    /// The JSON value that the value is written as: an object of its fields.
    pub open spec fn encode_spec(self) -> Json
        decreases self, 1nat,
    {
        Json::Object(self.encode_fields())
    }

    /// What the fields `m` are read as: the fields are read in their order,
    /// and the first that cannot be read decides the error.
    pub open spec fn decode_fields(m: Fields, limit: nat) -> Result<ContainerView, DecodeErrorView>
        decreases limit, 4nat, 0nat,
    {
        let items = CardElementView::required_all(m, "items"@, limit);
        let style = optional_token::<ContainerStyle>(m, "style"@);
        let spacing = optional_token::<Spacing>(m, "spacing"@);
        let select_action = ActionView::optional(m, "selectAction"@, limit);
        let vertical_content_alignment =
            optional_token::<VerticalContentAlignment>(m, "verticalContentAlignment"@);
        let bleed = optional_bool(m, "bleed"@);
        let min_height = optional_text(m, "minHeight"@);
        let id = optional_text(m, "id"@);
        let separator = optional_bool(m, "separator"@);
        let height = optional_token::<Height>(m, "height"@);
        let is_visible = optional_bool(m, "isVisible"@);
        if items is Err {
            Err(items->Err_0)
        } else if style is Err {
            Err(style->Err_0)
        } else if spacing is Err {
            Err(spacing->Err_0)
        } else if select_action is Err {
            Err(select_action->Err_0)
        } else if vertical_content_alignment is Err {
            Err(vertical_content_alignment->Err_0)
        } else if bleed is Err {
            Err(bleed->Err_0)
        } else if min_height is Err {
            Err(min_height->Err_0)
        } else if id is Err {
            Err(id->Err_0)
        } else if separator is Err {
            Err(separator->Err_0)
        } else if height is Err {
            Err(height->Err_0)
        } else if is_visible is Err {
            Err(is_visible->Err_0)
        } else {
            Ok(
                ContainerView {
                    items: items->Ok_0,
                    style: style->Ok_0,
                    spacing: spacing->Ok_0,
                    select_action: select_action->Ok_0,
                    vertical_content_alignment: vertical_content_alignment->Ok_0,
                    bleed: bleed->Ok_0,
                    min_height: min_height->Ok_0,
                    id: id->Ok_0,
                    separator: separator->Ok_0,
                    height: height->Ok_0,
                    is_visible: is_visible->Ok_0,
                },
            )
        }
    }

    /// What the JSON value `j` is read as: it must be an object, and its
    /// fields are read.
    pub open spec fn decode_spec(j: Json, limit: nat) -> Result<ContainerView, DecodeErrorView>
        decreases limit, 4nat, 1nat,
    {
        match j {
            Json::Object(m) => Self::decode_fields(m, limit),
            _ => Err(mismatch(j)),
        }
    }

    /// What is written: every field that must be there, every other field
    /// exactly where it has a value, and each with its value.
    pub proof fn lemma_written(self)
        ensures
            self.encode_fields().contains_key("items"@),
            self.encode_fields()["items"@] == Json::Array(CardElementView::encode_all(self.items)),
            self.encode_fields().contains_key("style"@) <==> self.style is Some,
            self.style matches Some(x) ==> self.encode_fields()["style"@] == token_json(x),
            self.encode_fields().contains_key("spacing"@) <==> self.spacing is Some,
            self.spacing matches Some(x) ==> self.encode_fields()["spacing"@] == token_json(x),
            self.encode_fields().contains_key("selectAction"@) <==> self.select_action is Some,
            self.select_action matches Some(x)
                ==> self.encode_fields()["selectAction"@] == x.encode_spec(),
            self.encode_fields().contains_key("verticalContentAlignment"@)
                <==> self.vertical_content_alignment is Some,
            self.vertical_content_alignment matches Some(x)
                ==> self.encode_fields()["verticalContentAlignment"@] == token_json(x),
            self.encode_fields().contains_key("bleed"@) <==> self.bleed is Some,
            self.bleed matches Some(x) ==> self.encode_fields()["bleed"@] == Json::Bool(x),
            self.encode_fields().contains_key("minHeight"@) <==> self.min_height is Some,
            self.min_height matches Some(x) ==> self.encode_fields()["minHeight"@] == Json::Str(x),
            self.encode_fields().contains_key("id"@) <==> self.id is Some,
            self.id matches Some(x) ==> self.encode_fields()["id"@] == Json::Str(x),
            self.encode_fields().contains_key("separator"@) <==> self.separator is Some,
            self.separator matches Some(x) ==> self.encode_fields()["separator"@] == Json::Bool(x),
            self.encode_fields().contains_key("height"@) <==> self.height is Some,
            self.height matches Some(x) ==> self.encode_fields()["height"@] == token_json(x),
            self.encode_fields().contains_key("isVisible"@) <==> self.is_visible is Some,
            self.is_visible matches Some(x) ==> self.encode_fields()["isVisible"@] == Json::Bool(x),
    {
        lemma_with_opt();
        lemma_key_shapes();
    }

    /// Nothing else is written: every key is that of a field, and none holds
    /// `null`.
    pub proof fn lemma_written_keys(self, key: Seq<char>)
        requires
            self.encode_fields().contains_key(key),
        ensures
            Self::is_key(key),
            !(self.encode_fields()[key] is Null),
    {
        lemma_with_opt();
    }

    /// What the value carries besides the fields of its kind.
    pub open spec fn base(self) -> BaseFieldsView {
        BaseFieldsView {
            id: self.id,
            separator: self.separator,
            spacing: self.spacing,
            height: self.height,
            is_visible: self.is_visible,
        }
    }

    /// The base fields are written among the fields of the value, each under
    /// its own key and as it is written on its own.
    pub proof fn lemma_base_is_flat(self, key: Seq<char>)
        requires
            self.base().encode_fields().contains_key(key),
        ensures
            self.encode_fields().contains_key(key),
            self.encode_fields()[key] == self.base().encode_fields()[key],
    {
        self.base().lemma_written_keys(key);
        self.base().lemma_written();
        self.lemma_written();
    }

    /// What is read is well formed, and nested no deeper than `limit`.
    pub proof fn lemma_decoded(m: Fields, limit: nat)
        ensures
            Self::decode_fields(m, limit) matches Ok(v) ==> v.well_formed() && v.within(limit),
        decreases limit, 4nat, 0nat,
    {
        CardElementView::lemma_decoded_field(m, "items"@, limit);
        ActionView::lemma_decoded_optional(m, "selectAction"@, limit);
    }

    /// What is read of a JSON value is well formed, and nested no deeper than
    /// `limit`.
    pub proof fn lemma_decoded_value(j: Json, limit: nat)
        ensures
            Self::decode_spec(j, limit) matches Ok(v) ==> v.well_formed() && v.within(limit),
        decreases limit, 4nat, 1nat,
    {
        match j {
            Json::Object(m) => Self::lemma_decoded(m, limit),
            _ => {},
        }
    }

    /// How deep elements and actions are nested in the value.
    pub open spec fn nesting(self) -> nat
        decreases self, 0nat,
    {
        larger(
            CardElementView::nesting_all(self.items),
            ActionView::nesting_opt(self.select_action),
        )
    }

    /// A value that is within a limit is within every greater limit.
    pub proof fn lemma_within_more(self, limit: nat, more: nat)
        requires
            self.within(limit),
            limit <= more,
        ensures
            self.within(more),
        decreases self, 0nat,
    {
        CardElementView::lemma_all_within_more(self.items, limit, more);
        match self.select_action {
            Some(x) => x.lemma_within_more(limit, more),
            None => {},
        }
    }

    /// A value is within its nesting.
    pub proof fn lemma_within_nesting(self)
        ensures
            self.within(self.nesting()),
        decreases self, 1nat,
    {
        let limit = self.nesting();
        CardElementView::lemma_all_within_nesting(self.items);
        CardElementView::lemma_all_within_more(
            self.items,
            CardElementView::nesting_all(self.items),
            limit,
        );
        match self.select_action {
            Some(x) => {
                x.lemma_within_nesting();
                x.lemma_within_more(x.nesting(), limit);
            },
            None => {},
        }
    }

    /// Reading what was written gives the value back, also where the object
    /// says under `type` what it is.
    pub proof fn lemma_roundtrip_tagged(self, tag: Option<Json>, limit: nat)
        requires
            self.well_formed(),
            self.within(limit),
        ensures
            gives(
                Self::decode_fields(with_opt(self.encode_fields(), type_key(), tag), limit),
                self,
            ),
        decreases self, 0nat,
    {
        self.lemma_written();
        lemma_key_shapes();
        lemma_tag_keeps(self.encode_fields(), tag);
        CardElementView::lemma_roundtrip_all(self.items, limit);
        match self.select_action {
            Some(x) => x.lemma_roundtrip(limit),
            None => {},
        }
        let m = with_opt(self.encode_fields(), type_key(), tag);
        lemma_reads_array(m, "items"@, CardElementView::encode_all(self.items));
        assert(gives(CardElementView::required_all(m, "items"@, limit), self.items));
        lemma_reads_opt_token(m, "style"@, self.style);
        lemma_reads_opt_token(m, "spacing"@, self.spacing);
        assert(gives(ActionView::optional(m, "selectAction"@, limit), self.select_action));
        lemma_reads_opt_token(m, "verticalContentAlignment"@, self.vertical_content_alignment);
        lemma_reads_opt_bool(m, "bleed"@, self.bleed);
        lemma_reads_opt_text(m, "minHeight"@, self.min_height);
        lemma_reads_opt_text(m, "id"@, self.id);
        lemma_reads_opt_bool(m, "separator"@, self.separator);
        lemma_reads_opt_token(m, "height"@, self.height);
        lemma_reads_opt_bool(m, "isVisible"@, self.is_visible);
    }

    /// Reading what was written gives the value back.
    pub proof fn lemma_roundtrip(self, limit: nat)
        requires
            self.well_formed(),
            self.within(limit),
        ensures
            gives(Self::decode_fields(self.encode_fields(), limit), self),
            gives(Self::decode_spec(self.encode_spec(), limit), self),
        decreases self, 1nat,
    {
        lemma_with_none(self.encode_fields(), type_key());
        self.lemma_roundtrip_tagged(None, limit);
    }
}

impl Container {
    /// What the value carries besides the fields of its kind.
    pub fn base(&self) -> (r: BaseFields)
        ensures
            r@ == self@.base(),
    {
        BaseFields {
            id: clone_opt_text(&self.id),
            separator: self.separator,
            spacing: self.spacing,
            height: self.height,
            is_visible: self.is_visible,
        }
    }

    /// Whether the value, and whatever it holds, is one that the wire format
    /// can express.
    pub fn is_well_formed(&self) -> (r: bool)
        ensures
            r == self@.well_formed(),
        decreases self,
    {
        CardElement::all_well_formed(&self.items)
            && (match &self.select_action {
                Some(x) => x.is_well_formed(),
                None => true,
            })
    }

    /// Whether elements and actions are nested in the value no deeper than
    /// `limit`.
    pub fn is_within(&self, limit: usize) -> (r: bool)
        ensures
            r == self@.within(limit as nat),
        decreases self,
    {
        CardElement::all_within(&self.items, limit)
            && (match &self.select_action {
                Some(x) => x.is_within(limit),
                None => true,
            })
    }

    /// The fields of the JSON object that stands for the value.
    pub fn encode_fields(&self) -> (m: Object)
        ensures
            object_fields(m) == self@.encode_fields(),
        decreases self, 0nat,
    {
        let mut m = new_object();
        put(&mut m, "items", array_value(CardElement::encode_all(&self.items)));
        put_opt_token(&mut m, "style", self.style);
        put_opt_token(&mut m, "spacing", self.spacing);
        put_opt(&mut m, "selectAction", Action::encode_opt_boxed(&self.select_action));
        put_opt_token(&mut m, "verticalContentAlignment", self.vertical_content_alignment);
        put_opt_bool(&mut m, "bleed", self.bleed);
        put_opt_text(&mut m, "minHeight", &self.min_height);
        put_opt_text(&mut m, "id", &self.id);
        put_opt_bool(&mut m, "separator", self.separator);
        put_opt_token(&mut m, "height", self.height);
        put_opt_bool(&mut m, "isVisible", self.is_visible);
        m
    }

    /// The JSON object that stands for the value.
    pub fn encode(&self) -> (v: Value)
        ensures
            value_json(v) == self@.encode_spec(),
        decreases self, 1nat,
    {
        object_value(self.encode_fields())
    }

    /// The value that the fields `m` stand for, with elements and actions
    /// nested no deeper than `limit`.
    pub fn decode_fields(m: &Object, limit: usize) -> (r: Result<Container, DecodeError>)
        ensures
            decoded(r) == ContainerView::decode_fields(object_fields(*m), limit as nat),
            r matches Ok(x) ==> x@.well_formed() && x@.within(limit as nat),
        decreases limit, 4nat, 0nat,
    {
        proof {
            ContainerView::lemma_decoded(object_fields(*m), limit as nat);
        }
        let items = CardElement::get_all(m, "items", limit)?;
        let style = get_opt_token::<ContainerStyle>(m, "style")?;
        let spacing = get_opt_token::<Spacing>(m, "spacing")?;
        let select_action = Action::get_opt_boxed(m, "selectAction", limit)?;
        let vertical_content_alignment =
            get_opt_token::<VerticalContentAlignment>(m, "verticalContentAlignment")?;
        let bleed = get_opt_bool(m, "bleed")?;
        let min_height = get_opt_text(m, "minHeight")?;
        let id = get_opt_text(m, "id")?;
        let separator = get_opt_bool(m, "separator")?;
        let height = get_opt_token::<Height>(m, "height")?;
        let is_visible = get_opt_bool(m, "isVisible")?;
        Ok(
            Container {
                items,
                style,
                spacing,
                select_action,
                vertical_content_alignment,
                bleed,
                min_height,
                id,
                separator,
                height,
                is_visible,
            },
        )
    }

    /// The value that the JSON value `v` stands for, with elements and
    /// actions nested no deeper than `limit`.
    pub fn decode_within(v: &Value, limit: usize) -> (r: Result<Container, DecodeError>)
        ensures
            decoded(r) == ContainerView::decode_spec(value_json(*v), limit as nat),
            r matches Ok(x) ==> x@.well_formed() && x@.within(limit as nat),
        decreases limit, 4nat, 1nat,
    {
        let m = read_object(v)?;
        Container::decode_fields(m, limit)
    }

    /// The value that the JSON value `v` stands for, with elements and
    /// actions nested no deeper than [`MAX_DEPTH`].
    pub fn decode(v: &Value) -> (r: Result<Container, DecodeError>)
        ensures
            decoded(r) == ContainerView::decode_spec(value_json(*v), MAX_DEPTH as nat),
            r matches Ok(x) ==> x@.well_formed() && x@.within(MAX_DEPTH as nat),
    {
        Container::decode_within(v, MAX_DEPTH)
    }
}

/// The widths that Microsoft Teams offers for a card.
#[derive(Debug, Clone, Copy, PartialEq, Eq, Structural)]
pub enum MsTeamsWidth {
    Full,
}

impl Literal for MsTeamsWidth {
    open spec fn token_spec(self) -> Seq<char> {
        match self {
            MsTeamsWidth::Full => "full"@,
        }
    }

    open spec fn parse_spec(s: Seq<char>) -> Option<Self> {
        if s == MsTeamsWidth::Full.token_spec() {
            Some(MsTeamsWidth::Full)
        } else {
            None
        }
    }

    fn token(&self) -> (r: &'static str) {
        match self {
            MsTeamsWidth::Full => "full",
        }
    }

    fn from_token(s: &str) -> (r: Option<Self>) {
        if s.eq(MsTeamsWidth::Full.token()) {
            Some(MsTeamsWidth::Full)
        } else {
            None
        }
    }

    proof fn lemma_token_parses(self) {
    }

    proof fn lemma_parsed_token(s: Seq<char>) {
    }
}

/// What only Microsoft Teams reads of a card.
#[derive(Debug, PartialEq)]
pub struct MsTeams {
    /// The width of the card in Microsoft Teams.
    pub width: Option<MsTeamsWidth>,
}

/// The mathematical model of a [`MsTeams`].
pub struct MsTeamsView {
    pub width: Option<MsTeamsWidth>,
}

impl View for MsTeams {
    type V = MsTeamsView;

    open spec fn view(&self) -> MsTeamsView {
        MsTeamsView {
            width: self.width,
        }
    }
}

impl Clone for MsTeams {
    fn clone(&self) -> (r: Self)
        ensures
            r@ == self@,
    {
        MsTeams {
            width: self.width,
        }
    }
}

impl MsTeamsView {
    /// Whether `key` is the key of one of the fields.
    pub open spec fn is_key(key: Seq<char>) -> bool {
        key == "width"@
    }

    /// The fields that the value is written as.
    pub open spec fn encode_fields(self) -> Fields {
        let m = no_fields();
        let m = with_opt(m, "width"@, opt_token_json(self.width));
        m
    }

    /// The JSON value that the value is written as: an object of its fields.
    pub open spec fn encode_spec(self) -> Json {
        Json::Object(self.encode_fields())
    }

    /// What the fields `m` are read as: the fields are read in their order,
    /// and the first that cannot be read decides the error.
    pub open spec fn decode_fields(m: Fields) -> Result<MsTeamsView, DecodeErrorView> {
        let width = optional_token::<MsTeamsWidth>(m, "width"@);
        if width is Err {
            Err(width->Err_0)
        } else {
            Ok(
                MsTeamsView {
                    width: width->Ok_0,
                },
            )
        }
    }

    /// What the JSON value `j` is read as: it must be an object, and its
    /// fields are read.
    pub open spec fn decode_spec(j: Json) -> Result<MsTeamsView, DecodeErrorView> {
        match j {
            Json::Object(m) => Self::decode_fields(m),
            _ => Err(mismatch(j)),
        }
    }

    /// What is written: every field that must be there, every other field
    /// exactly where it has a value, and each with its value.
    pub proof fn lemma_written(self)
        ensures
            self.encode_fields().contains_key("width"@) <==> self.width is Some,
            self.width matches Some(x) ==> self.encode_fields()["width"@] == token_json(x),
    {
        lemma_with_opt();
        lemma_key_shapes();
    }

    /// Nothing else is written: every key is that of a field, and none holds
    /// `null`.
    pub proof fn lemma_written_keys(self, key: Seq<char>)
        requires
            self.encode_fields().contains_key(key),
        ensures
            Self::is_key(key),
            !(self.encode_fields()[key] is Null),
    {
        lemma_with_opt();
    }

    /// Reading what was written gives the value back.
    pub proof fn lemma_roundtrip(self)
        ensures
            gives(Self::decode_fields(self.encode_fields()), self),
            gives(Self::decode_spec(self.encode_spec()), self),
    {
        self.lemma_written();
        lemma_key_shapes();
        let m = self.encode_fields();
        lemma_reads_opt_token(m, "width"@, self.width);
    }
}

impl MsTeams {
    /// The fields of the JSON object that stands for the value.
    pub fn encode_fields(&self) -> (m: Object)
        ensures
            object_fields(m) == self@.encode_fields(),
    {
        let mut m = new_object();
        put_opt_token(&mut m, "width", self.width);
        m
    }

    /// The JSON object that stands for the value.
    pub fn encode(&self) -> (v: Value)
        ensures
            value_json(v) == self@.encode_spec(),
    {
        object_value(self.encode_fields())
    }

    /// The value that the fields `m` stand for.
    pub fn decode_fields(m: &Object) -> (r: Result<MsTeams, DecodeError>)
        ensures
            decoded(r) == MsTeamsView::decode_fields(object_fields(*m)),
    {
        let width = get_opt_token::<MsTeamsWidth>(m, "width")?;
        Ok(MsTeams { width })
    }

    /// The value that the JSON value `v` stands for.
    pub fn decode(v: &Value) -> (r: Result<MsTeams, DecodeError>)
        ensures
            decoded(r) == MsTeamsView::decode_spec(value_json(*v)),
    {
        let m = read_object(v)?;
        MsTeams::decode_fields(m)
    }
}

impl MsTeamsView {
    /// The value of the field `key`, if the field has a value.
    pub open spec fn optional(
        m: Fields,
        key: Seq<char>,
    ) -> Result<Option<MsTeamsView>, DecodeErrorView> {
        match field(m, key) {
            Some(j) => in_key(some(Self::decode_spec(j)), key),
            None => Ok(None),
        }
    }

    /// An optional value as an optional JSON value.
    pub open spec fn opt_json(v: Option<MsTeamsView>) -> Option<Json> {
        match v {
            Some(v) => Some(v.encode_spec()),
            None => None,
        }
    }
}

impl MsTeams {
    /// The model of an optional value.
    pub open spec fn opt_view(v: Option<MsTeams>) -> Option<MsTeamsView> {
        match v {
            Some(v) => Some(v@),
            None => None,
        }
    }

    /// A copy of the value, where there is one.
    pub(crate) fn clone_opt(v: &Option<MsTeams>) -> (r: Option<MsTeams>)
        ensures
            MsTeams::opt_view(r) == MsTeams::opt_view(*v),
    {
        match v {
            Some(v) => Some(v.clone()),
            None => None,
        }
    }

    /// The JSON value that stands for the value, where there is one.
    pub(crate) fn encode_opt(v: &Option<MsTeams>) -> (r: Option<Value>)
        ensures
            opt_value(r) == MsTeamsView::opt_json(MsTeams::opt_view(*v)),
    {
        match v {
            Some(v) => Some(v.encode()),
            None => None,
        }
    }

    /// The value of the field `key`, if the field has a value.
    pub(crate) fn get_opt(
        m: &Object,
        key: &'static str,
    ) -> (r: Result<Option<MsTeams>, DecodeError>)
        ensures
            match r {
                Ok(v) => gives(
                    MsTeamsView::optional(object_fields(*m), key@),
                    MsTeams::opt_view(v),
                ),
                Err(e) => fails_with(MsTeamsView::optional(object_fields(*m), key@), e@),
            },
    {
        match find(m, key) {
            Some(v) => match MsTeams::decode(v) {
                Ok(v) => Ok(Some(v)),
                Err(e) => Err(e.under_key(key)),
            },
            None => Ok(None),
        }
    }
}

/// Columns side by side.
#[derive(Debug, PartialEq)]
pub struct ColumnSet {
    /// The columns, from the first to the last.
    pub columns: Vec<Column>,
}

/// The mathematical model of a [`ColumnSet`].
pub struct ColumnSetView {
    pub columns: Seq<ColumnView>,
}

impl ColumnSet {
    /// The mathematical model of the value.
    pub open spec fn model(&self) -> ColumnSetView
        decreases self,
    {
        ColumnSetView {
            columns: Column::views(self.columns@),
        }
    }
}

impl View for ColumnSet {
    type V = ColumnSetView;

    open spec fn view(&self) -> ColumnSetView {
        self.model()
    }
}

impl ColumnSet {
    /// A copy of the value.
    pub fn duplicate(&self) -> (r: ColumnSet)
        ensures
            r@ == self@,
        decreases self,
    {
        ColumnSet {
            columns: Column::clone_all(&self.columns),
        }
    }
}

impl Clone for ColumnSet {
    fn clone(&self) -> (r: Self)
        ensures
            r@ == self@,
    {
        self.duplicate()
    }
}

impl ColumnSetView {
    /// Whether the value, and whatever it holds, is one that the wire format
    /// can express.
    pub open spec fn well_formed(self) -> bool
        decreases self,
    {
        &&& ColumnView::all_well_formed(self.columns)
    }

    /// Whether elements and actions are nested in the value no deeper than
    /// `limit`.
    pub open spec fn within(self, limit: nat) -> bool
        decreases self,
    {
        &&& ColumnView::all_within(self.columns, limit)
    }

    /// Whether `key` is the key of one of the fields.
    pub open spec fn is_key(key: Seq<char>) -> bool {
        ||| key == type_key()
        ||| key == "columns"@
    }

    /// The fields that the value is written as.
    pub open spec fn encode_fields(self) -> Fields
        decreases self, 0nat,
    {
        let m = no_fields();
        let m = with(m, type_key(), Json::Str("ColumnSet"@));
        let m = with(m, "columns"@, Json::Array(ColumnView::encode_all(self.columns)));
        m
    }

    /// The JSON value that the value is written as: an object of its fields.
    pub open spec fn encode_spec(self) -> Json
        decreases self, 1nat,
    {
        Json::Object(self.encode_fields())
    }

    /// What the fields `m` are read as: the fields are read in their order,
    /// and the first that cannot be read decides the error.
    pub open spec fn decode_fields(m: Fields, limit: nat) -> Result<ColumnSetView, DecodeErrorView>
        decreases limit, 4nat, 0nat,
    {
        let tag = tagged(m, "ColumnSet"@);
        let columns = ColumnView::required_all(m, "columns"@, limit);
        if tag is Err {
            Err(tag->Err_0)
        } else if columns is Err {
            Err(columns->Err_0)
        } else {
            Ok(
                ColumnSetView {
                    columns: columns->Ok_0,
                },
            )
        }
    }

    /// What the JSON value `j` is read as: it must be an object, and its
    /// fields are read.
    pub open spec fn decode_spec(j: Json, limit: nat) -> Result<ColumnSetView, DecodeErrorView>
        decreases limit, 4nat, 1nat,
    {
        match j {
            Json::Object(m) => Self::decode_fields(m, limit),
            _ => Err(mismatch(j)),
        }
    }

    /// What is written: every field that must be there, every other field
    /// exactly where it has a value, and each with its value.
    pub proof fn lemma_written(self)
        ensures
            self.encode_fields().contains_key(type_key()),
            self.encode_fields()[type_key()] == Json::Str("ColumnSet"@),
            self.encode_fields().contains_key("columns"@),
            self.encode_fields()["columns"@] == Json::Array(ColumnView::encode_all(self.columns)),
    {
        lemma_with_opt();
        lemma_key_shapes();
    }

    /// Nothing else is written: every key is that of a field, and none holds
    /// `null`.
    pub proof fn lemma_written_keys(self, key: Seq<char>)
        requires
            self.encode_fields().contains_key(key),
        ensures
            Self::is_key(key),
            !(self.encode_fields()[key] is Null),
    {
        lemma_with_opt();
    }

    /// What is read is well formed, and nested no deeper than `limit`.
    pub proof fn lemma_decoded(m: Fields, limit: nat)
        ensures
            Self::decode_fields(m, limit) matches Ok(v) ==> v.well_formed() && v.within(limit),
        decreases limit, 4nat, 0nat,
    {
        ColumnView::lemma_decoded_field(m, "columns"@, limit);
    }

    /// What is read of a JSON value is well formed, and nested no deeper than
    /// `limit`.
    pub proof fn lemma_decoded_value(j: Json, limit: nat)
        ensures
            Self::decode_spec(j, limit) matches Ok(v) ==> v.well_formed() && v.within(limit),
        decreases limit, 4nat, 1nat,
    {
        match j {
            Json::Object(m) => Self::lemma_decoded(m, limit),
            _ => {},
        }
    }

    /// How deep elements and actions are nested in the value.
    pub open spec fn nesting(self) -> nat
        decreases self, 0nat,
    {
        ColumnView::nesting_all(self.columns)
    }

    /// A value that is within a limit is within every greater limit.
    pub proof fn lemma_within_more(self, limit: nat, more: nat)
        requires
            self.within(limit),
            limit <= more,
        ensures
            self.within(more),
        decreases self, 0nat,
    {
        ColumnView::lemma_all_within_more(self.columns, limit, more);
    }

    /// A value is within its nesting.
    pub proof fn lemma_within_nesting(self)
        ensures
            self.within(self.nesting()),
        decreases self, 1nat,
    {
        let limit = self.nesting();
        ColumnView::lemma_all_within_nesting(self.columns);
        ColumnView::lemma_all_within_more(
            self.columns,
            ColumnView::nesting_all(self.columns),
            limit,
        );
    }

    /// Reading what was written gives the value back, also where the object
    /// says under `type` what it is.
    pub proof fn lemma_roundtrip_tagged(self, tag: Option<Json>, limit: nat)
        requires
            self.well_formed(),
            self.within(limit),
            tag matches Some(j) ==> j == Json::Str("ColumnSet"@),
        ensures
            gives(
                Self::decode_fields(with_opt(self.encode_fields(), type_key(), tag), limit),
                self,
            ),
        decreases self, 0nat,
    {
        self.lemma_written();
        lemma_key_shapes();
        lemma_tag_keeps(self.encode_fields(), tag);
        lemma_with_none(self.encode_fields(), type_key());
        ColumnView::lemma_roundtrip_all(self.columns, limit);
        let m = with_opt(self.encode_fields(), type_key(), tag);
        lemma_reads_tag(m, "ColumnSet"@);
        lemma_reads_array(m, "columns"@, ColumnView::encode_all(self.columns));
        assert(gives(ColumnView::required_all(m, "columns"@, limit), self.columns));
    }

    /// Reading what was written gives the value back.
    pub proof fn lemma_roundtrip(self, limit: nat)
        requires
            self.well_formed(),
            self.within(limit),
        ensures
            gives(Self::decode_fields(self.encode_fields(), limit), self),
            gives(Self::decode_spec(self.encode_spec(), limit), self),
        decreases self, 1nat,
    {
        lemma_with_none(self.encode_fields(), type_key());
        self.lemma_roundtrip_tagged(None, limit);
    }
}

impl ColumnSet {
    /// Whether the value, and whatever it holds, is one that the wire format
    /// can express.
    pub fn is_well_formed(&self) -> (r: bool)
        ensures
            r == self@.well_formed(),
        decreases self,
    {
        Column::all_well_formed(&self.columns)
    }

    /// Whether elements and actions are nested in the value no deeper than
    /// `limit`.
    pub fn is_within(&self, limit: usize) -> (r: bool)
        ensures
            r == self@.within(limit as nat),
        decreases self,
    {
        Column::all_within(&self.columns, limit)
    }

    /// The fields of the JSON object that stands for the value.
    pub fn encode_fields(&self) -> (m: Object)
        ensures
            object_fields(m) == self@.encode_fields(),
        decreases self, 0nat,
    {
        let mut m = new_object();
        put_text(&mut m, "type", "ColumnSet");
        put(&mut m, "columns", array_value(Column::encode_all(&self.columns)));
        m
    }

    /// The JSON object that stands for the value.
    pub fn encode(&self) -> (v: Value)
        ensures
            value_json(v) == self@.encode_spec(),
        decreases self, 1nat,
    {
        object_value(self.encode_fields())
    }

    /// The value that the fields `m` stand for, with elements and actions
    /// nested no deeper than `limit`.
    pub fn decode_fields(m: &Object, limit: usize) -> (r: Result<ColumnSet, DecodeError>)
        ensures
            decoded(r) == ColumnSetView::decode_fields(object_fields(*m), limit as nat),
            r matches Ok(x) ==> x@.well_formed() && x@.within(limit as nat),
        decreases limit, 4nat, 0nat,
    {
        proof {
            ColumnSetView::lemma_decoded(object_fields(*m), limit as nat);
        }
        get_tag(m, "ColumnSet")?;
        let columns = Column::get_all(m, "columns", limit)?;
        Ok(ColumnSet { columns })
    }

    /// The value that the JSON value `v` stands for, with elements and
    /// actions nested no deeper than `limit`.
    pub fn decode_within(v: &Value, limit: usize) -> (r: Result<ColumnSet, DecodeError>)
        ensures
            decoded(r) == ColumnSetView::decode_spec(value_json(*v), limit as nat),
            r matches Ok(x) ==> x@.well_formed() && x@.within(limit as nat),
        decreases limit, 4nat, 1nat,
    {
        let m = read_object(v)?;
        ColumnSet::decode_fields(m, limit)
    }

    /// The value that the JSON value `v` stands for, with elements and
    /// actions nested no deeper than [`MAX_DEPTH`].
    pub fn decode(v: &Value) -> (r: Result<ColumnSet, DecodeError>)
        ensures
            decoded(r) == ColumnSetView::decode_spec(value_json(*v), MAX_DEPTH as nat),
            r matches Ok(x) ==> x@.well_formed() && x@.within(MAX_DEPTH as nat),
    {
        ColumnSet::decode_within(v, MAX_DEPTH)
    }
}

/// One column of a column set.
#[derive(Debug, PartialEq)]
pub struct Column {
    /// The width of the column.
    pub width: ColumnWidth,
    /// The elements in the column.
    pub items: Vec<CardElement>,
}

/// The mathematical model of a [`Column`].
pub struct ColumnView {
    pub width: ColumnWidthKind,
    pub items: Seq<CardElementView>,
}

impl Column {
    /// The mathematical model of the value.
    pub open spec fn model(&self) -> ColumnView
        decreases self,
    {
        ColumnView {
            width: self.width@,
            items: CardElement::views(self.items@),
        }
    }
}

impl View for Column {
    type V = ColumnView;

    open spec fn view(&self) -> ColumnView {
        self.model()
    }
}

impl Column {
    /// A copy of the value.
    pub fn duplicate(&self) -> (r: Column)
        ensures
            r@ == self@,
        decreases self,
    {
        Column {
            width: self.width,
            items: CardElement::clone_all(&self.items),
        }
    }
}

impl Clone for Column {
    fn clone(&self) -> (r: Self)
        ensures
            r@ == self@,
    {
        self.duplicate()
    }
}

impl ColumnView {
    /// Whether the value, and whatever it holds, is one that the wire format
    /// can express.
    pub open spec fn well_formed(self) -> bool
        decreases self,
    {
        &&& CardElementView::all_well_formed(self.items)
    }

    /// Whether elements and actions are nested in the value no deeper than
    /// `limit`.
    pub open spec fn within(self, limit: nat) -> bool
        decreases self,
    {
        &&& CardElementView::all_within(self.items, limit)
    }

    /// Whether `key` is the key of one of the fields.
    pub open spec fn is_key(key: Seq<char>) -> bool {
        ||| key == type_key()
        ||| key == "width"@
        ||| key == "items"@
    }

    /// The fields that the value is written as.
    pub open spec fn encode_fields(self) -> Fields
        decreases self, 0nat,
    {
        let m = no_fields();
        let m = with(m, type_key(), Json::Str("Column"@));
        let m = with(m, "width"@, self.width.encode_spec());
        let m = with(m, "items"@, Json::Array(CardElementView::encode_all(self.items)));
        m
    }

    /// The JSON value that the value is written as: an object of its fields.
    pub open spec fn encode_spec(self) -> Json
        decreases self, 1nat,
    {
        Json::Object(self.encode_fields())
    }

    /// What the fields `m` are read as: the fields are read in their order,
    /// and the first that cannot be read decides the error.
    pub open spec fn decode_fields(m: Fields, limit: nat) -> Result<ColumnView, DecodeErrorView>
        decreases limit, 2nat, 0nat,
    {
        let tag = tagged(m, "Column"@);
        let width = ColumnWidthKind::required(m, "width"@);
        let items = CardElementView::required_all(m, "items"@, limit);
        if tag is Err {
            Err(tag->Err_0)
        } else if width is Err {
            Err(width->Err_0)
        } else if items is Err {
            Err(items->Err_0)
        } else {
            Ok(
                ColumnView {
                    width: width->Ok_0,
                    items: items->Ok_0,
                },
            )
        }
    }

    /// What the JSON value `j` is read as: it must be an object, and its
    /// fields are read.
    pub open spec fn decode_spec(j: Json, limit: nat) -> Result<ColumnView, DecodeErrorView>
        decreases limit, 2nat, 1nat,
    {
        match j {
            Json::Object(m) => Self::decode_fields(m, limit),
            _ => Err(mismatch(j)),
        }
    }

    /// What is written: every field that must be there, every other field
    /// exactly where it has a value, and each with its value.
    pub proof fn lemma_written(self)
        ensures
            self.encode_fields().contains_key(type_key()),
            self.encode_fields()[type_key()] == Json::Str("Column"@),
            self.encode_fields().contains_key("width"@),
            self.encode_fields()["width"@] == self.width.encode_spec(),
            self.encode_fields().contains_key("items"@),
            self.encode_fields()["items"@] == Json::Array(CardElementView::encode_all(self.items)),
    {
        lemma_with_opt();
        lemma_key_shapes();
    }

    /// Nothing else is written: every key is that of a field, and none holds
    /// `null`.
    pub proof fn lemma_written_keys(self, key: Seq<char>)
        requires
            self.encode_fields().contains_key(key),
        ensures
            Self::is_key(key),
            !(self.encode_fields()[key] is Null),
    {
        lemma_with_opt();
    }

    /// What is read is well formed, and nested no deeper than `limit`.
    pub proof fn lemma_decoded(m: Fields, limit: nat)
        ensures
            Self::decode_fields(m, limit) matches Ok(v) ==> v.well_formed() && v.within(limit),
        decreases limit, 2nat, 0nat,
    {
        CardElementView::lemma_decoded_field(m, "items"@, limit);
    }

    /// What is read of a JSON value is well formed, and nested no deeper than
    /// `limit`.
    pub proof fn lemma_decoded_value(j: Json, limit: nat)
        ensures
            Self::decode_spec(j, limit) matches Ok(v) ==> v.well_formed() && v.within(limit),
        decreases limit, 2nat, 1nat,
    {
        match j {
            Json::Object(m) => Self::lemma_decoded(m, limit),
            _ => {},
        }
    }

    /// How deep elements and actions are nested in the value.
    pub open spec fn nesting(self) -> nat
        decreases self, 0nat,
    {
        CardElementView::nesting_all(self.items)
    }

    /// A value that is within a limit is within every greater limit.
    pub proof fn lemma_within_more(self, limit: nat, more: nat)
        requires
            self.within(limit),
            limit <= more,
        ensures
            self.within(more),
        decreases self, 0nat,
    {
        CardElementView::lemma_all_within_more(self.items, limit, more);
    }

    /// A value is within its nesting.
    pub proof fn lemma_within_nesting(self)
        ensures
            self.within(self.nesting()),
        decreases self, 1nat,
    {
        let limit = self.nesting();
        CardElementView::lemma_all_within_nesting(self.items);
        CardElementView::lemma_all_within_more(
            self.items,
            CardElementView::nesting_all(self.items),
            limit,
        );
    }

    /// Reading what was written gives the value back.
    pub proof fn lemma_roundtrip(self, limit: nat)
        requires
            self.well_formed(),
            self.within(limit),
        ensures
            gives(Self::decode_fields(self.encode_fields(), limit), self),
            gives(Self::decode_spec(self.encode_spec(), limit), self),
        decreases self, 0nat,
    {
        self.lemma_written();
        lemma_key_shapes();
        self.width.lemma_roundtrip();
        CardElementView::lemma_roundtrip_all(self.items, limit);
        let m = self.encode_fields();
        lemma_reads_tag(m, "Column"@);
        lemma_reads_value(m, "width"@, self.width.encode_spec());
        assert(gives(ColumnWidthKind::required(m, "width"@), self.width));
        lemma_reads_array(m, "items"@, CardElementView::encode_all(self.items));
        assert(gives(CardElementView::required_all(m, "items"@, limit), self.items));
    }
}

impl Column {
    /// Whether the value, and whatever it holds, is one that the wire format
    /// can express.
    pub fn is_well_formed(&self) -> (r: bool)
        ensures
            r == self@.well_formed(),
        decreases self,
    {
        CardElement::all_well_formed(&self.items)
    }

    /// Whether elements and actions are nested in the value no deeper than
    /// `limit`.
    pub fn is_within(&self, limit: usize) -> (r: bool)
        ensures
            r == self@.within(limit as nat),
        decreases self,
    {
        CardElement::all_within(&self.items, limit)
    }

    /// The fields of the JSON object that stands for the value.
    pub fn encode_fields(&self) -> (m: Object)
        ensures
            object_fields(m) == self@.encode_fields(),
        decreases self, 0nat,
    {
        let mut m = new_object();
        put_text(&mut m, "type", "Column");
        put(&mut m, "width", self.width.encode());
        put(&mut m, "items", array_value(CardElement::encode_all(&self.items)));
        m
    }

    /// The JSON object that stands for the value.
    pub fn encode(&self) -> (v: Value)
        ensures
            value_json(v) == self@.encode_spec(),
        decreases self, 1nat,
    {
        object_value(self.encode_fields())
    }

    /// The value that the fields `m` stand for, with elements and actions
    /// nested no deeper than `limit`.
    pub fn decode_fields(m: &Object, limit: usize) -> (r: Result<Column, DecodeError>)
        ensures
            decoded(r) == ColumnView::decode_fields(object_fields(*m), limit as nat),
            r matches Ok(x) ==> x@.well_formed() && x@.within(limit as nat),
        decreases limit, 2nat, 0nat,
    {
        proof {
            ColumnView::lemma_decoded(object_fields(*m), limit as nat);
        }
        get_tag(m, "Column")?;
        let width = ColumnWidth::get(m, "width")?;
        let items = CardElement::get_all(m, "items", limit)?;
        Ok(Column { width, items })
    }

    /// The value that the JSON value `v` stands for, with elements and
    /// actions nested no deeper than `limit`.
    pub fn decode_within(v: &Value, limit: usize) -> (r: Result<Column, DecodeError>)
        ensures
            decoded(r) == ColumnView::decode_spec(value_json(*v), limit as nat),
            r matches Ok(x) ==> x@.well_formed() && x@.within(limit as nat),
        decreases limit, 2nat, 1nat,
    {
        let m = read_object(v)?;
        Column::decode_fields(m, limit)
    }

    /// The value that the JSON value `v` stands for, with elements and
    /// actions nested no deeper than [`MAX_DEPTH`].
    pub fn decode(v: &Value) -> (r: Result<Column, DecodeError>)
        ensures
            decoded(r) == ColumnView::decode_spec(value_json(*v), MAX_DEPTH as nat),
            r matches Ok(x) ==> x@.well_formed() && x@.within(MAX_DEPTH as nat),
    {
        Column::decode_within(v, MAX_DEPTH)
    }
}

impl ColumnView {
    /// Whether every one of the columns is one that the wire format can
    /// express.
    pub open spec fn all_well_formed(items: Seq<ColumnView>) -> bool
        decreases items,
    {
        forall|i: int| 0 <= i < items.len() ==> (#[trigger] items[i]).well_formed()
    }

    /// Whether elements and actions are nested in every one of the columns no
    /// deeper than `limit`.
    pub open spec fn all_within(items: Seq<ColumnView>, limit: nat) -> bool
        decreases items,
    {
        forall|i: int| 0 <= i < items.len() ==> (#[trigger] items[i]).within(limit)
    }

    /// The decoder of one column.
    pub open spec fn decoder(limit: nat) -> spec_fn(Json) -> Result<ColumnView, DecodeErrorView>
        decreases limit, 2nat, 2nat,
    {
        |j: Json| Self::decode_spec(j, limit)
    }

    /// The JSON values that the columns are written as, in their order.
    pub open spec fn encode_all(items: Seq<ColumnView>) -> Seq<Json>
        decreases items, 0nat,
    {
        Seq::new(
            items.len(),
            |i: int|
                if 0 <= i < items.len() {
                    items[i].encode_spec()
                } else {
                    Json::Null
                },
        )
    }

    /// What the JSON values `items` are read as: one column each, in their
    /// order.
    pub open spec fn decode_all(
        items: Seq<Json>,
        limit: nat,
    ) -> Result<Seq<ColumnView>, DecodeErrorView>
        decreases limit, 2nat, 3nat,
    {
        decode_seq(items, Self::decoder(limit))
    }

    /// The columns of the field `key`, which must be there.
    pub open spec fn required_all(
        m: Fields,
        key: Seq<char>,
        limit: nat,
    ) -> Result<Seq<ColumnView>, DecodeErrorView>
        decreases limit, 2nat, 4nat,
    {
        match required_array(m, key) {
            Ok(items) => in_key(Self::decode_all(items, limit), key),
            Err(e) => Err(e),
        }
    }

    /// How deep elements and actions are nested in the first `n` of the
    /// columns.
    pub open spec fn nesting_upto(items: Seq<ColumnView>, n: nat) -> nat
        decreases items, n,
    {
        if n == 0 || n > items.len() {
            0
        } else {
            larger(Self::nesting_upto(items, (n - 1) as nat), items[n - 1].nesting())
        }
    }

    /// How deep elements and actions are nested in the columns.
    pub open spec fn nesting_all(items: Seq<ColumnView>) -> nat
        decreases items, items.len() + 1,
    {
        Self::nesting_upto(items, items.len())
    }

    /// Each of the first `n` of the columns is nested no deeper than they are
    /// together.
    pub proof fn lemma_nesting_upto(items: Seq<ColumnView>, n: nat, i: int)
        requires
            0 <= i < n <= items.len(),
        ensures
            items[i].nesting() <= Self::nesting_upto(items, n),
        decreases n,
    {
        if i < n - 1 {
            Self::lemma_nesting_upto(items, (n - 1) as nat, i);
        }
    }

    /// Columns that are within a limit are within every greater limit.
    pub proof fn lemma_all_within_more(items: Seq<ColumnView>, limit: nat, more: nat)
        requires
            Self::all_within(items, limit),
            limit <= more,
        ensures
            Self::all_within(items, more),
        decreases items, 0nat,
    {
        assert forall|i: int| 0 <= i < items.len() implies (#[trigger] items[i]).within(more) by {
            items[i].lemma_within_more(limit, more);
        }
    }

    /// Columns are within their nesting.
    pub proof fn lemma_all_within_nesting(items: Seq<ColumnView>)
        ensures
            Self::all_within(items, Self::nesting_all(items)),
        decreases items, 0nat,
    {
        let limit = Self::nesting_all(items);
        assert forall|i: int| 0 <= i < items.len() implies (#[trigger] items[i]).within(limit) by {
            Self::lemma_nesting_upto(items, items.len(), i);
            items[i].lemma_within_nesting();
            items[i].lemma_within_more(items[i].nesting(), limit);
        }
    }

    /// The columns that are read are well formed, and nested no deeper than
    /// `limit`.
    pub proof fn lemma_decoded_all(items: Seq<Json>, limit: nat)
        ensures
            Self::decode_all(items, limit) matches Ok(values)
                ==> Self::all_well_formed(values) && Self::all_within(values, limit),
        decreases limit, 2nat, 3nat,
    {
        lemma_decode_seq_each(items, Self::decoder(limit));
        match Self::decode_all(items, limit) {
            Ok(values) => {
                assert forall|i: int| 0 <= i < values.len() implies
                    (#[trigger] values[i]).well_formed() && values[i].within(limit) by {
                    Self::lemma_decoded_value(items[i], limit);
                }
            },
            Err(_) => {},
        }
    }

    /// The columns that are read of a field are well formed, and nested no
    /// deeper than `limit`.
    pub proof fn lemma_decoded_field(m: Fields, key: Seq<char>, limit: nat)
        ensures
            Self::required_all(m, key, limit) matches Ok(items)
                ==> Self::all_well_formed(items) && Self::all_within(items, limit),
        decreases limit, 2nat, 4nat,
    {
        match required_array(m, key) {
            Ok(items) => Self::lemma_decoded_all(items, limit),
            Err(_) => {},
        }
    }

    /// Reading what was written for a sequence of columns gives the sequence
    /// back.
    pub proof fn lemma_roundtrip_all(items: Seq<ColumnView>, limit: nat)
        requires
            Self::all_well_formed(items),
            Self::all_within(items, limit),
        ensures
            gives(Self::decode_all(Self::encode_all(items), limit), items),
        decreases items, 0nat,
    {
        let written = Self::encode_all(items);
        assert forall|i: int| 0 <= i < items.len() implies gives(
            Self::decoder(limit)(#[trigger] written[i]),
            items[i],
        ) by {
            items[i].lemma_roundtrip(limit);
        }
        lemma_decode_seq_all(items, written, Self::decoder(limit));
    }
}

impl Column {
    /// The models of a sequence of columns.
    pub open spec fn views(items: Seq<Column>) -> Seq<ColumnView>
        decreases items,
    {
        Seq::new(
            items.len(),
            |i: int|
                if 0 <= i < items.len() {
                    items[i].model()
                } else {
                    arbitrary()
                },
        )
    }

    /// Whether every one of the columns is one that the wire format can
    /// express.
    #[verifier::loop_isolation(false)]
    pub fn all_well_formed(items: &Vec<Column>) -> (r: bool)
        ensures
            r == ColumnView::all_well_formed(Column::views(items@)),
        decreases items,
    {
        let mut i: usize = 0;
        while i < items.len()
            invariant
                i <= items.len(),
                forall|k: int| 0 <= k < i ==> (#[trigger] Column::views(items@)[k]).well_formed(),
            decreases items.len() - i,
        {
            if !items[i].is_well_formed() {
                assert(!Column::views(items@)[i as int].well_formed());
                return false;
            }
            i += 1;
        }
        true
    }

    /// Whether elements and actions are nested in every one of the columns no
    /// deeper than `limit`.
    #[verifier::loop_isolation(false)]
    pub fn all_within(items: &Vec<Column>, limit: usize) -> (r: bool)
        ensures
            r == ColumnView::all_within(Column::views(items@), limit as nat),
        decreases items,
    {
        let mut i: usize = 0;
        while i < items.len()
            invariant
                i <= items.len(),
                forall|k: int|
                    0 <= k < i ==> (#[trigger] Column::views(items@)[k]).within(limit as nat),
            decreases items.len() - i,
        {
            if !items[i].is_within(limit) {
                assert(!Column::views(items@)[i as int].within(limit as nat));
                return false;
            }
            i += 1;
        }
        true
    }

    /// Copies of the columns, in their order.
    #[verifier::loop_isolation(false)]
    pub fn clone_all(items: &Vec<Column>) -> (out: Vec<Column>)
        ensures
            Column::views(out@) == Column::views(items@),
        decreases items,
    {
        let mut out: Vec<Column> = Vec::new();
        let mut i: usize = 0;
        while i < items.len()
            invariant
                i <= items.len(),
                out@.len() == i,
                forall|k: int| 0 <= k < i ==> (#[trigger] out@[k])@ == items@[k]@,
            decreases items.len() - i,
        {
            out.push(items[i].duplicate());
            i += 1;
        }
        assert(Column::views(out@) =~= Column::views(items@));
        out
    }

    /// The JSON values that stand for the columns, in their order.
    #[verifier::loop_isolation(false)]
    pub fn encode_all(items: &Vec<Column>) -> (out: Vec<Value>)
        ensures
            values_json(out@) == ColumnView::encode_all(Column::views(items@)),
        decreases items, 0nat,
    {
        let mut out: Vec<Value> = Vec::new();
        let mut i: usize = 0;
        while i < items.len()
            invariant
                i <= items.len(),
                out@.len() == i,
                forall|k: int|
                    0 <= k < i ==> value_json(#[trigger] out@[k]) == items@[k]@.encode_spec(),
            decreases items.len() - i,
        {
            out.push(items[i].encode());
            i += 1;
        }
        assert(values_json(out@) =~= ColumnView::encode_all(Column::views(items@)));
        out
    }

    /// The columns that the JSON values `items` stand for, in their order,
    /// nested no deeper than `limit`.
    #[verifier::loop_isolation(false)]
    pub fn decode_all(items: &Vec<Value>, limit: usize) -> (r: Result<Vec<Column>, DecodeError>)
        ensures
            match r {
                Ok(out) => gives(
                    ColumnView::decode_all(values_json(items@), limit as nat),
                    Column::views(out@),
                ),
                Err(e) => fails_with(ColumnView::decode_all(values_json(items@), limit as nat), e@),
            },
        decreases limit, 2nat, 3nat,
    {
        let ghost all = values_json(items@);
        let ghost each = ColumnView::decoder(limit as nat);
        let mut out: Vec<Column> = Vec::new();
        let mut i: usize = 0;
        proof {
            lemma_decode_seq_empty(each);
            assert(Column::views(out@) =~= Seq::empty());
            assert(all.take(0) =~= Seq::empty());
        }
        while i < items.len()
            invariant
                i <= items.len(),
                gives(decode_seq(all.take(i as int), each), Column::views(out@)),
            decreases items.len() - i,
        {
            proof {
                lemma_decode_seq_next(all, i as int, each);
            }
            match Column::decode_within(&items[i], limit) {
                Ok(item) => {
                    proof {
                        assert(Column::views(out@.push(item))
                            =~= Column::views(out@).push(item@));
                    }
                    out.push(item);
                },
                Err(e) => {
                    proof {
                        lemma_decode_seq_fails(all, i + 1, each);
                    }
                    return Err(e.under_index(i));
                },
            }
            i += 1;
        }
        assert(all.take(items.len() as int) =~= all);
        Ok(out)
    }

    /// The columns of the field `key`, which must be there.
    pub(crate) fn get_all(
        m: &Object,
        key: &'static str,
        limit: usize,
    ) -> (r: Result<Vec<Column>, DecodeError>)
        ensures
            match r {
                Ok(out) => gives(
                    ColumnView::required_all(object_fields(*m), key@, limit as nat),
                    Column::views(out@),
                ),
                Err(e) => fails_with(
                    ColumnView::required_all(object_fields(*m), key@, limit as nat),
                    e@,
                ),
            },
        decreases limit, 2nat, 4nat,
    {
        let items = get_array(m, key)?;
        match Column::decode_all(items, limit) {
            Ok(out) => Ok(out),
            Err(e) => Err(e.under_key(key)),
        }
    }
}

/// An image.
#[derive(Debug, PartialEq)]
pub struct Image {
    /// The address of the image.
    pub url: String,
    /// The size of the image.
    pub size: Option<ImageSize>,
    /// A text that describes the image.
    pub alt_text: Option<String>,
    /// The background put behind a transparent image.
    pub background_color: Option<String>,
    /// The horizontal alignment of the image.
    pub horizontal_alignment: Option<HorizontalAlignment>,
    /// The action invoked when the image is clicked. Every kind of action is
    /// accepted here, one that shows a card too.
    pub select_action: Option<Box<Action>>,
    /// The width wished for the image.
    pub width: Option<String>,
    /// A unique identifier of the element.
    pub id: Option<String>,
    /// Whether a separating line is drawn at the top of the element.
    pub separator: Option<bool>,
    /// The amount of space between this element and the one before it.
    pub spacing: Option<Spacing>,
    /// The height of the element.
    pub height: Option<Height>,
    /// Whether the element is shown.
    pub is_visible: Option<bool>,
}

/// The mathematical model of an [`Image`].
pub struct ImageView {
    pub url: Seq<char>,
    pub size: Option<ImageSize>,
    pub alt_text: Option<Seq<char>>,
    pub background_color: Option<Seq<char>>,
    pub horizontal_alignment: Option<HorizontalAlignment>,
    pub select_action: Option<ActionView>,
    pub width: Option<Seq<char>>,
    pub id: Option<Seq<char>>,
    pub separator: Option<bool>,
    pub spacing: Option<Spacing>,
    pub height: Option<Height>,
    pub is_visible: Option<bool>,
}

impl Image {
    /// The mathematical model of the value.
    pub open spec fn model(&self) -> ImageView
        decreases self,
    {
        ImageView {
            url: self.url@,
            size: self.size,
            alt_text: self.alt_text.deep_view(),
            background_color: self.background_color.deep_view(),
            horizontal_alignment: self.horizontal_alignment,
            select_action: Action::opt_view(self.select_action),
            width: self.width.deep_view(),
            id: self.id.deep_view(),
            separator: self.separator,
            spacing: self.spacing,
            height: self.height,
            is_visible: self.is_visible,
        }
    }
}

impl View for Image {
    type V = ImageView;

    open spec fn view(&self) -> ImageView {
        self.model()
    }
}

impl Image {
    /// A copy of the value.
    pub fn duplicate(&self) -> (r: Image)
        ensures
            r@ == self@,
        decreases self,
    {
        Image {
            url: self.url.clone(),
            size: self.size,
            alt_text: clone_opt_text(&self.alt_text),
            background_color: clone_opt_text(&self.background_color),
            horizontal_alignment: self.horizontal_alignment,
            select_action: Action::clone_opt_boxed(&self.select_action),
            width: clone_opt_text(&self.width),
            id: clone_opt_text(&self.id),
            separator: self.separator,
            spacing: self.spacing,
            height: self.height,
            is_visible: self.is_visible,
        }
    }
}

impl Clone for Image {
    fn clone(&self) -> (r: Self)
        ensures
            r@ == self@,
    {
        self.duplicate()
    }
}

impl Default for Image {
    /// The value without content: every text and sequence empty, every other
    /// field without a value.
    fn default() -> (r: Image)
        ensures
            r@ == ImageView::empty(),
    {
        let r = Image {
            url: String::new(),
            size: None,
            alt_text: None,
            background_color: None,
            horizontal_alignment: None,
            select_action: None,
            width: None,
            id: None,
            separator: None,
            spacing: None,
            height: None,
            is_visible: None,
        };
        assert(r@.url =~= Seq::empty());
        r
    }
}

impl ImageView {
    /// The value without content.
    pub open spec fn empty() -> ImageView {
        ImageView {
            url: Seq::empty(),
            size: None,
            alt_text: None,
            background_color: None,
            horizontal_alignment: None,
            select_action: None,
            width: None,
            id: None,
            separator: None,
            spacing: None,
            height: None,
            is_visible: None,
        }
    }
}

impl ImageView {
    /// Whether the value, and whatever it holds, is one that the wire format
    /// can express.
    pub open spec fn well_formed(self) -> bool
        decreases self,
    {
        &&& (self.select_action matches Some(x) ==> x.well_formed())
    }

    /// Whether elements and actions are nested in the value no deeper than
    /// `limit`.
    pub open spec fn within(self, limit: nat) -> bool
        decreases self,
    {
        &&& (self.select_action matches Some(x) ==> x.within(limit))
    }

    /// Whether `key` is the key of one of the fields.
    pub open spec fn is_key(key: Seq<char>) -> bool {
        ||| key == "url"@
        ||| key == "size"@
        ||| key == "altText"@
        ||| key == "backgroundColor"@
        ||| key == "horizontalAlignment"@
        ||| key == "selectAction"@
        ||| key == "width"@
        ||| key == "id"@
        ||| key == "separator"@
        ||| key == "spacing"@
        ||| key == "height"@
        ||| key == "isVisible"@
    }

    /// The fields that the value is written as.
    pub open spec fn encode_fields(self) -> Fields
        decreases self, 0nat,
    {
        let m = no_fields();
        let m = with(m, "url"@, Json::Str(self.url));
        let m = with_opt(m, "size"@, opt_token_json(self.size));
        let m = with_opt(m, "altText"@, opt_text_json(self.alt_text));
        let m = with_opt(m, "backgroundColor"@, opt_text_json(self.background_color));
        let m = with_opt(m, "horizontalAlignment"@, opt_token_json(self.horizontal_alignment));
        let m = with_opt(m, "selectAction"@, ActionView::opt_json(self.select_action));
        let m = with_opt(m, "width"@, opt_text_json(self.width));
        let m = with_opt(m, "id"@, opt_text_json(self.id));
        let m = with_opt(m, "separator"@, opt_bool_json(self.separator));
        let m = with_opt(m, "spacing"@, opt_token_json(self.spacing));
        let m = with_opt(m, "height"@, opt_token_json(self.height));
        let m = with_opt(m, "isVisible"@, opt_bool_json(self.is_visible));
        m
    }

    /// The JSON value that the value is written as: an object of its fields.
    pub open spec fn encode_spec(self) -> Json
        decreases self, 1nat,
    {
        Json::Object(self.encode_fields())
    }

    /// What the fields `m` are read as: the fields are read in their order,
    /// and the first that cannot be read decides the error.
    pub open spec fn decode_fields(m: Fields, limit: nat) -> Result<ImageView, DecodeErrorView>
        decreases limit, 4nat, 0nat,
    {
        let url = required_text(m, "url"@);
        let size = optional_token::<ImageSize>(m, "size"@);
        let alt_text = optional_text(m, "altText"@);
        let background_color = optional_text(m, "backgroundColor"@);
        let horizontal_alignment = optional_token::<HorizontalAlignment>(m, "horizontalAlignment"@);
        let select_action = ActionView::optional(m, "selectAction"@, limit);
        let width = optional_text(m, "width"@);
        let id = optional_text(m, "id"@);
        let separator = optional_bool(m, "separator"@);
        let spacing = optional_token::<Spacing>(m, "spacing"@);
        let height = optional_token::<Height>(m, "height"@);
        let is_visible = optional_bool(m, "isVisible"@);
        if url is Err {
            Err(url->Err_0)
        } else if size is Err {
            Err(size->Err_0)
        } else if alt_text is Err {
            Err(alt_text->Err_0)
        } else if background_color is Err {
            Err(background_color->Err_0)
        } else if horizontal_alignment is Err {
            Err(horizontal_alignment->Err_0)
        } else if select_action is Err {
            Err(select_action->Err_0)
        } else if width is Err {
            Err(width->Err_0)
        } else if id is Err {
            Err(id->Err_0)
        } else if separator is Err {
            Err(separator->Err_0)
        } else if spacing is Err {
            Err(spacing->Err_0)
        } else if height is Err {
            Err(height->Err_0)
        } else if is_visible is Err {
            Err(is_visible->Err_0)
        } else {
            Ok(
                ImageView {
                    url: url->Ok_0,
                    size: size->Ok_0,
                    alt_text: alt_text->Ok_0,
                    background_color: background_color->Ok_0,
                    horizontal_alignment: horizontal_alignment->Ok_0,
                    select_action: select_action->Ok_0,
                    width: width->Ok_0,
                    id: id->Ok_0,
                    separator: separator->Ok_0,
                    spacing: spacing->Ok_0,
                    height: height->Ok_0,
                    is_visible: is_visible->Ok_0,
                },
            )
        }
    }

    /// What the JSON value `j` is read as: it must be an object, and its
    /// fields are read.
    pub open spec fn decode_spec(j: Json, limit: nat) -> Result<ImageView, DecodeErrorView>
        decreases limit, 4nat, 1nat,
    {
        match j {
            Json::Object(m) => Self::decode_fields(m, limit),
            _ => Err(mismatch(j)),
        }
    }

    /// What is written: every field that must be there, every other field
    /// exactly where it has a value, and each with its value.
    pub proof fn lemma_written(self)
        ensures
            self.encode_fields().contains_key("url"@),
            self.encode_fields()["url"@] == Json::Str(self.url),
            self.encode_fields().contains_key("size"@) <==> self.size is Some,
            self.size matches Some(x) ==> self.encode_fields()["size"@] == token_json(x),
            self.encode_fields().contains_key("altText"@) <==> self.alt_text is Some,
            self.alt_text matches Some(x) ==> self.encode_fields()["altText"@] == Json::Str(x),
            self.encode_fields().contains_key("backgroundColor"@)
                <==> self.background_color is Some,
            self.background_color matches Some(x)
                ==> self.encode_fields()["backgroundColor"@] == Json::Str(x),
            self.encode_fields().contains_key("horizontalAlignment"@)
                <==> self.horizontal_alignment is Some,
            self.horizontal_alignment matches Some(x)
                ==> self.encode_fields()["horizontalAlignment"@] == token_json(x),
            self.encode_fields().contains_key("selectAction"@) <==> self.select_action is Some,
            self.select_action matches Some(x)
                ==> self.encode_fields()["selectAction"@] == x.encode_spec(),
            self.encode_fields().contains_key("width"@) <==> self.width is Some,
            self.width matches Some(x) ==> self.encode_fields()["width"@] == Json::Str(x),
            self.encode_fields().contains_key("id"@) <==> self.id is Some,
            self.id matches Some(x) ==> self.encode_fields()["id"@] == Json::Str(x),
            self.encode_fields().contains_key("separator"@) <==> self.separator is Some,
            self.separator matches Some(x) ==> self.encode_fields()["separator"@] == Json::Bool(x),
            self.encode_fields().contains_key("spacing"@) <==> self.spacing is Some,
            self.spacing matches Some(x) ==> self.encode_fields()["spacing"@] == token_json(x),
            self.encode_fields().contains_key("height"@) <==> self.height is Some,
            self.height matches Some(x) ==> self.encode_fields()["height"@] == token_json(x),
            self.encode_fields().contains_key("isVisible"@) <==> self.is_visible is Some,
            self.is_visible matches Some(x) ==> self.encode_fields()["isVisible"@] == Json::Bool(x),
    {
        lemma_with_opt();
        lemma_key_shapes();
    }

    /// Nothing else is written: every key is that of a field, and none holds
    /// `null`.
    pub proof fn lemma_written_keys(self, key: Seq<char>)
        requires
            self.encode_fields().contains_key(key),
        ensures
            Self::is_key(key),
            !(self.encode_fields()[key] is Null),
    {
        lemma_with_opt();
    }

    /// What the value carries besides the fields of its kind.
    pub open spec fn base(self) -> BaseFieldsView {
        BaseFieldsView {
            id: self.id,
            separator: self.separator,
            spacing: self.spacing,
            height: self.height,
            is_visible: self.is_visible,
        }
    }

    /// The base fields are written among the fields of the value, each under
    /// its own key and as it is written on its own.
    pub proof fn lemma_base_is_flat(self, key: Seq<char>)
        requires
            self.base().encode_fields().contains_key(key),
        ensures
            self.encode_fields().contains_key(key),
            self.encode_fields()[key] == self.base().encode_fields()[key],
    {
        self.base().lemma_written_keys(key);
        self.base().lemma_written();
        self.lemma_written();
    }

    /// What is read is well formed, and nested no deeper than `limit`.
    pub proof fn lemma_decoded(m: Fields, limit: nat)
        ensures
            Self::decode_fields(m, limit) matches Ok(v) ==> v.well_formed() && v.within(limit),
        decreases limit, 4nat, 0nat,
    {
        ActionView::lemma_decoded_optional(m, "selectAction"@, limit);
    }

    /// What is read of a JSON value is well formed, and nested no deeper than
    /// `limit`.
    pub proof fn lemma_decoded_value(j: Json, limit: nat)
        ensures
            Self::decode_spec(j, limit) matches Ok(v) ==> v.well_formed() && v.within(limit),
        decreases limit, 4nat, 1nat,
    {
        match j {
            Json::Object(m) => Self::lemma_decoded(m, limit),
            _ => {},
        }
    }

    /// How deep elements and actions are nested in the value.
    pub open spec fn nesting(self) -> nat
        decreases self, 0nat,
    {
        ActionView::nesting_opt(self.select_action)
    }

    /// A value that is within a limit is within every greater limit.
    pub proof fn lemma_within_more(self, limit: nat, more: nat)
        requires
            self.within(limit),
            limit <= more,
        ensures
            self.within(more),
        decreases self, 0nat,
    {
        match self.select_action {
            Some(x) => x.lemma_within_more(limit, more),
            None => {},
        }
    }

    /// A value is within its nesting.
    pub proof fn lemma_within_nesting(self)
        ensures
            self.within(self.nesting()),
        decreases self, 1nat,
    {
        let limit = self.nesting();
        match self.select_action {
            Some(x) => {
                x.lemma_within_nesting();
                x.lemma_within_more(x.nesting(), limit);
            },
            None => {},
        }
    }

    /// Reading what was written gives the value back, also where the object
    /// says under `type` what it is.
    pub proof fn lemma_roundtrip_tagged(self, tag: Option<Json>, limit: nat)
        requires
            self.well_formed(),
            self.within(limit),
        ensures
            gives(
                Self::decode_fields(with_opt(self.encode_fields(), type_key(), tag), limit),
                self,
            ),
        decreases self, 0nat,
    {
        self.lemma_written();
        lemma_key_shapes();
        lemma_tag_keeps(self.encode_fields(), tag);
        match self.select_action {
            Some(x) => x.lemma_roundtrip(limit),
            None => {},
        }
        let m = with_opt(self.encode_fields(), type_key(), tag);
        lemma_reads_text(m, "url"@, self.url);
        lemma_reads_opt_token(m, "size"@, self.size);
        lemma_reads_opt_text(m, "altText"@, self.alt_text);
        lemma_reads_opt_text(m, "backgroundColor"@, self.background_color);
        lemma_reads_opt_token(m, "horizontalAlignment"@, self.horizontal_alignment);
        assert(gives(ActionView::optional(m, "selectAction"@, limit), self.select_action));
        lemma_reads_opt_text(m, "width"@, self.width);
        lemma_reads_opt_text(m, "id"@, self.id);
        lemma_reads_opt_bool(m, "separator"@, self.separator);
        lemma_reads_opt_token(m, "spacing"@, self.spacing);
        lemma_reads_opt_token(m, "height"@, self.height);
        lemma_reads_opt_bool(m, "isVisible"@, self.is_visible);
    }

    /// Reading what was written gives the value back.
    pub proof fn lemma_roundtrip(self, limit: nat)
        requires
            self.well_formed(),
            self.within(limit),
        ensures
            gives(Self::decode_fields(self.encode_fields(), limit), self),
            gives(Self::decode_spec(self.encode_spec(), limit), self),
        decreases self, 1nat,
    {
        lemma_with_none(self.encode_fields(), type_key());
        self.lemma_roundtrip_tagged(None, limit);
    }
}

impl Image {
    /// What the value carries besides the fields of its kind.
    pub fn base(&self) -> (r: BaseFields)
        ensures
            r@ == self@.base(),
    {
        BaseFields {
            id: clone_opt_text(&self.id),
            separator: self.separator,
            spacing: self.spacing,
            height: self.height,
            is_visible: self.is_visible,
        }
    }

    /// Whether the value, and whatever it holds, is one that the wire format
    /// can express.
    pub fn is_well_formed(&self) -> (r: bool)
        ensures
            r == self@.well_formed(),
        decreases self,
    {
        (match &self.select_action {
            Some(x) => x.is_well_formed(),
            None => true,
        })
    }

    /// Whether elements and actions are nested in the value no deeper than
    /// `limit`.
    pub fn is_within(&self, limit: usize) -> (r: bool)
        ensures
            r == self@.within(limit as nat),
        decreases self,
    {
        (match &self.select_action {
            Some(x) => x.is_within(limit),
            None => true,
        })
    }

    /// The fields of the JSON object that stands for the value.
    pub fn encode_fields(&self) -> (m: Object)
        ensures
            object_fields(m) == self@.encode_fields(),
        decreases self, 0nat,
    {
        let mut m = new_object();
        put_text(&mut m, "url", self.url.as_str());
        put_opt_token(&mut m, "size", self.size);
        put_opt_text(&mut m, "altText", &self.alt_text);
        put_opt_text(&mut m, "backgroundColor", &self.background_color);
        put_opt_token(&mut m, "horizontalAlignment", self.horizontal_alignment);
        put_opt(&mut m, "selectAction", Action::encode_opt_boxed(&self.select_action));
        put_opt_text(&mut m, "width", &self.width);
        put_opt_text(&mut m, "id", &self.id);
        put_opt_bool(&mut m, "separator", self.separator);
        put_opt_token(&mut m, "spacing", self.spacing);
        put_opt_token(&mut m, "height", self.height);
        put_opt_bool(&mut m, "isVisible", self.is_visible);
        m
    }

    /// The JSON object that stands for the value.
    pub fn encode(&self) -> (v: Value)
        ensures
            value_json(v) == self@.encode_spec(),
        decreases self, 1nat,
    {
        object_value(self.encode_fields())
    }

    /// The value that the fields `m` stand for, with elements and actions
    /// nested no deeper than `limit`.
    pub fn decode_fields(m: &Object, limit: usize) -> (r: Result<Image, DecodeError>)
        ensures
            decoded(r) == ImageView::decode_fields(object_fields(*m), limit as nat),
            r matches Ok(x) ==> x@.well_formed() && x@.within(limit as nat),
        decreases limit, 4nat, 0nat,
    {
        proof {
            ImageView::lemma_decoded(object_fields(*m), limit as nat);
        }
        let url = get_text(m, "url")?;
        let size = get_opt_token::<ImageSize>(m, "size")?;
        let alt_text = get_opt_text(m, "altText")?;
        let background_color = get_opt_text(m, "backgroundColor")?;
        let horizontal_alignment = get_opt_token::<HorizontalAlignment>(m, "horizontalAlignment")?;
        let select_action = Action::get_opt_boxed(m, "selectAction", limit)?;
        let width = get_opt_text(m, "width")?;
        let id = get_opt_text(m, "id")?;
        let separator = get_opt_bool(m, "separator")?;
        let spacing = get_opt_token::<Spacing>(m, "spacing")?;
        let height = get_opt_token::<Height>(m, "height")?;
        let is_visible = get_opt_bool(m, "isVisible")?;
        Ok(
            Image {
                url,
                size,
                alt_text,
                background_color,
                horizontal_alignment,
                select_action,
                width,
                id,
                separator,
                spacing,
                height,
                is_visible,
            },
        )
    }

    /// The value that the JSON value `v` stands for, with elements and
    /// actions nested no deeper than `limit`.
    pub fn decode_within(v: &Value, limit: usize) -> (r: Result<Image, DecodeError>)
        ensures
            decoded(r) == ImageView::decode_spec(value_json(*v), limit as nat),
            r matches Ok(x) ==> x@.well_formed() && x@.within(limit as nat),
        decreases limit, 4nat, 1nat,
    {
        let m = read_object(v)?;
        Image::decode_fields(m, limit)
    }

    /// The value that the JSON value `v` stands for, with elements and
    /// actions nested no deeper than [`MAX_DEPTH`].
    pub fn decode(v: &Value) -> (r: Result<Image, DecodeError>)
        ensures
            decoded(r) == ImageView::decode_spec(value_json(*v), MAX_DEPTH as nat),
            r matches Ok(x) ==> x@.well_formed() && x@.within(MAX_DEPTH as nat),
    {
        Image::decode_within(v, MAX_DEPTH)
    }
}

/// A series of facts, shown as pairs of a title and a value.
#[derive(Debug, PartialEq)]
pub struct FactSet {
    /// The facts, from the first to the last.
    pub facts: Vec<Fact>,
}

/// The mathematical model of a [`FactSet`].
pub struct FactSetView {
    pub facts: Seq<FactView>,
}

impl View for FactSet {
    type V = FactSetView;

    open spec fn view(&self) -> FactSetView {
        FactSetView {
            facts: Fact::views(self.facts@),
        }
    }
}

impl Clone for FactSet {
    fn clone(&self) -> (r: Self)
        ensures
            r@ == self@,
    {
        FactSet {
            facts: Fact::clone_all(&self.facts),
        }
    }
}

impl FactSetView {
    /// Whether `key` is the key of one of the fields.
    pub open spec fn is_key(key: Seq<char>) -> bool {
        key == "facts"@
    }

    /// The fields that the value is written as.
    pub open spec fn encode_fields(self) -> Fields {
        let m = no_fields();
        let m = with(m, "facts"@, Json::Array(FactView::encode_all(self.facts)));
        m
    }

    /// The JSON value that the value is written as: an object of its fields.
    pub open spec fn encode_spec(self) -> Json {
        Json::Object(self.encode_fields())
    }

    /// What the fields `m` are read as: the fields are read in their order,
    /// and the first that cannot be read decides the error.
    pub open spec fn decode_fields(m: Fields) -> Result<FactSetView, DecodeErrorView> {
        let facts = FactView::required_all(m, "facts"@);
        if facts is Err {
            Err(facts->Err_0)
        } else {
            Ok(
                FactSetView {
                    facts: facts->Ok_0,
                },
            )
        }
    }

    /// What the JSON value `j` is read as: it must be an object, and its
    /// fields are read.
    pub open spec fn decode_spec(j: Json) -> Result<FactSetView, DecodeErrorView> {
        match j {
            Json::Object(m) => Self::decode_fields(m),
            _ => Err(mismatch(j)),
        }
    }

    /// What is written: every field that must be there, every other field
    /// exactly where it has a value, and each with its value.
    pub proof fn lemma_written(self)
        ensures
            self.encode_fields().contains_key("facts"@),
            self.encode_fields()["facts"@] == Json::Array(FactView::encode_all(self.facts)),
    {
        lemma_with_opt();
        lemma_key_shapes();
    }

    /// Nothing else is written: every key is that of a field, and none holds
    /// `null`.
    pub proof fn lemma_written_keys(self, key: Seq<char>)
        requires
            self.encode_fields().contains_key(key),
        ensures
            Self::is_key(key),
            !(self.encode_fields()[key] is Null),
    {
        lemma_with_opt();
    }

    /// Reading what was written gives the value back, also where the object
    /// says under `type` what it is.
    pub proof fn lemma_roundtrip_tagged(self, tag: Option<Json>)
        ensures
            gives(Self::decode_fields(with_opt(self.encode_fields(), type_key(), tag)), self),
    {
        self.lemma_written();
        lemma_key_shapes();
        lemma_tag_keeps(self.encode_fields(), tag);
        FactView::lemma_roundtrip_all(self.facts);
        let m = with_opt(self.encode_fields(), type_key(), tag);
        lemma_reads_array(m, "facts"@, FactView::encode_all(self.facts));
        assert(gives(FactView::required_all(m, "facts"@), self.facts));
    }

    /// Reading what was written gives the value back.
    pub proof fn lemma_roundtrip(self)
        ensures
            gives(Self::decode_fields(self.encode_fields()), self),
            gives(Self::decode_spec(self.encode_spec()), self),
    {
        lemma_with_none(self.encode_fields(), type_key());
        self.lemma_roundtrip_tagged(None);
    }
}

impl FactSet {
    /// The fields of the JSON object that stands for the value.
    pub fn encode_fields(&self) -> (m: Object)
        ensures
            object_fields(m) == self@.encode_fields(),
    {
        let mut m = new_object();
        put(&mut m, "facts", array_value(Fact::encode_all(&self.facts)));
        m
    }

    /// The JSON object that stands for the value.
    pub fn encode(&self) -> (v: Value)
        ensures
            value_json(v) == self@.encode_spec(),
    {
        object_value(self.encode_fields())
    }

    /// The value that the fields `m` stand for.
    pub fn decode_fields(m: &Object) -> (r: Result<FactSet, DecodeError>)
        ensures
            decoded(r) == FactSetView::decode_fields(object_fields(*m)),
    {
        let facts = Fact::get_all(m, "facts")?;
        Ok(FactSet { facts })
    }

    /// The value that the JSON value `v` stands for.
    pub fn decode(v: &Value) -> (r: Result<FactSet, DecodeError>)
        ensures
            decoded(r) == FactSetView::decode_spec(value_json(*v)),
    {
        let m = read_object(v)?;
        FactSet::decode_fields(m)
    }
}

/// One fact of a fact set.
#[derive(Debug, PartialEq)]
pub struct Fact {
    /// The title of the fact.
    pub title: String,
    /// The value of the fact.
    pub value: String,
}

/// The mathematical model of a [`Fact`].
pub struct FactView {
    pub title: Seq<char>,
    pub value: Seq<char>,
}

impl View for Fact {
    type V = FactView;

    open spec fn view(&self) -> FactView {
        FactView {
            title: self.title@,
            value: self.value@,
        }
    }
}

impl Clone for Fact {
    fn clone(&self) -> (r: Self)
        ensures
            r@ == self@,
    {
        Fact {
            title: self.title.clone(),
            value: self.value.clone(),
        }
    }
}

impl FactView {
    /// Whether `key` is the key of one of the fields.
    pub open spec fn is_key(key: Seq<char>) -> bool {
        ||| key == "title"@
        ||| key == "value"@
    }

    /// The fields that the value is written as.
    pub open spec fn encode_fields(self) -> Fields {
        let m = no_fields();
        let m = with(m, "title"@, Json::Str(self.title));
        let m = with(m, "value"@, Json::Str(self.value));
        m
    }

    /// The JSON value that the value is written as: an object of its fields.
    pub open spec fn encode_spec(self) -> Json {
        Json::Object(self.encode_fields())
    }

    /// What the fields `m` are read as: the fields are read in their order,
    /// and the first that cannot be read decides the error.
    pub open spec fn decode_fields(m: Fields) -> Result<FactView, DecodeErrorView> {
        let title = required_text(m, "title"@);
        let value = required_text(m, "value"@);
        if title is Err {
            Err(title->Err_0)
        } else if value is Err {
            Err(value->Err_0)
        } else {
            Ok(
                FactView {
                    title: title->Ok_0,
                    value: value->Ok_0,
                },
            )
        }
    }

    /// What the JSON value `j` is read as: it must be an object, and its
    /// fields are read.
    pub open spec fn decode_spec(j: Json) -> Result<FactView, DecodeErrorView> {
        match j {
            Json::Object(m) => Self::decode_fields(m),
            _ => Err(mismatch(j)),
        }
    }

    /// What is written: every field that must be there, every other field
    /// exactly where it has a value, and each with its value.
    pub proof fn lemma_written(self)
        ensures
            self.encode_fields().contains_key("title"@),
            self.encode_fields()["title"@] == Json::Str(self.title),
            self.encode_fields().contains_key("value"@),
            self.encode_fields()["value"@] == Json::Str(self.value),
    {
        lemma_with_opt();
        lemma_key_shapes();
    }

    /// Nothing else is written: every key is that of a field, and none holds
    /// `null`.
    pub proof fn lemma_written_keys(self, key: Seq<char>)
        requires
            self.encode_fields().contains_key(key),
        ensures
            Self::is_key(key),
            !(self.encode_fields()[key] is Null),
    {
        lemma_with_opt();
    }

    /// Reading what was written gives the value back.
    pub proof fn lemma_roundtrip(self)
        ensures
            gives(Self::decode_fields(self.encode_fields()), self),
            gives(Self::decode_spec(self.encode_spec()), self),
    {
        self.lemma_written();
        lemma_key_shapes();
        let m = self.encode_fields();
        lemma_reads_text(m, "title"@, self.title);
        lemma_reads_text(m, "value"@, self.value);
    }
}

impl Fact {
    /// The fields of the JSON object that stands for the value.
    pub fn encode_fields(&self) -> (m: Object)
        ensures
            object_fields(m) == self@.encode_fields(),
    {
        let mut m = new_object();
        put_text(&mut m, "title", self.title.as_str());
        put_text(&mut m, "value", self.value.as_str());
        m
    }

    /// The JSON object that stands for the value.
    pub fn encode(&self) -> (v: Value)
        ensures
            value_json(v) == self@.encode_spec(),
    {
        object_value(self.encode_fields())
    }

    /// The value that the fields `m` stand for.
    pub fn decode_fields(m: &Object) -> (r: Result<Fact, DecodeError>)
        ensures
            decoded(r) == FactView::decode_fields(object_fields(*m)),
    {
        let title = get_text(m, "title")?;
        let value = get_text(m, "value")?;
        Ok(Fact { title, value })
    }

    /// The value that the JSON value `v` stands for.
    pub fn decode(v: &Value) -> (r: Result<Fact, DecodeError>)
        ensures
            decoded(r) == FactView::decode_spec(value_json(*v)),
    {
        let m = read_object(v)?;
        Fact::decode_fields(m)
    }
}

impl FactView {
    /// The decoder of one fact.
    pub open spec fn decoder() -> spec_fn(Json) -> Result<FactView, DecodeErrorView> {
        |j: Json| Self::decode_spec(j)
    }

    /// The JSON values that the facts are written as, in their order.
    pub open spec fn encode_all(items: Seq<FactView>) -> Seq<Json> {
        items.map_values(|x: FactView| x.encode_spec())
    }

    /// What the JSON values `items` are read as: one fact each, in their
    /// order.
    pub open spec fn decode_all(items: Seq<Json>) -> Result<Seq<FactView>, DecodeErrorView> {
        decode_seq(items, Self::decoder())
    }

    /// The facts of the field `key`, which must be there.
    pub open spec fn required_all(
        m: Fields,
        key: Seq<char>,
    ) -> Result<Seq<FactView>, DecodeErrorView> {
        match required_array(m, key) {
            Ok(items) => in_key(Self::decode_all(items), key),
            Err(e) => Err(e),
        }
    }

    /// Reading what was written for a sequence of facts gives the sequence
    /// back.
    pub proof fn lemma_roundtrip_all(items: Seq<FactView>)
        ensures
            gives(Self::decode_all(Self::encode_all(items)), items),
    {
        let written = Self::encode_all(items);
        assert forall|i: int| 0 <= i < items.len() implies gives(
            Self::decoder()(#[trigger] written[i]),
            items[i],
        ) by {
            items[i].lemma_roundtrip();
        }
        lemma_decode_seq_all(items, written, Self::decoder());
    }
}

impl Fact {
    /// The models of a sequence of facts.
    pub open spec fn views(items: Seq<Fact>) -> Seq<FactView> {
        items.map_values(|x: Fact| x@)
    }

    /// Copies of the facts, in their order.
    #[verifier::loop_isolation(false)]
    pub fn clone_all(items: &Vec<Fact>) -> (out: Vec<Fact>)
        ensures
            Fact::views(out@) == Fact::views(items@),
    {
        let mut out: Vec<Fact> = Vec::new();
        let mut i: usize = 0;
        while i < items.len()
            invariant
                i <= items.len(),
                out@.len() == i,
                forall|k: int| 0 <= k < i ==> (#[trigger] out@[k])@ == items@[k]@,
            decreases items.len() - i,
        {
            out.push(items[i].clone());
            i += 1;
        }
        assert(Fact::views(out@) =~= Fact::views(items@));
        out
    }

    /// The JSON values that stand for the facts, in their order.
    #[verifier::loop_isolation(false)]
    pub fn encode_all(items: &Vec<Fact>) -> (out: Vec<Value>)
        ensures
            values_json(out@) == FactView::encode_all(Fact::views(items@)),
    {
        let mut out: Vec<Value> = Vec::new();
        let mut i: usize = 0;
        while i < items.len()
            invariant
                i <= items.len(),
                out@.len() == i,
                forall|k: int|
                    0 <= k < i ==> value_json(#[trigger] out@[k]) == items@[k]@.encode_spec(),
            decreases items.len() - i,
        {
            out.push(items[i].encode());
            i += 1;
        }
        assert(values_json(out@) =~= FactView::encode_all(Fact::views(items@)));
        out
    }

    /// The facts that the JSON values `items` stand for, in their order.
    #[verifier::loop_isolation(false)]
    pub fn decode_all(items: &Vec<Value>) -> (r: Result<Vec<Fact>, DecodeError>)
        ensures
            match r {
                Ok(out) => gives(FactView::decode_all(values_json(items@)), Fact::views(out@)),
                Err(e) => fails_with(FactView::decode_all(values_json(items@)), e@),
            },
    {
        let ghost all = values_json(items@);
        let ghost each = FactView::decoder();
        let mut out: Vec<Fact> = Vec::new();
        let mut i: usize = 0;
        proof {
            lemma_decode_seq_empty(each);
            assert(Fact::views(out@) =~= Seq::empty());
            assert(all.take(0) =~= Seq::empty());
        }
        while i < items.len()
            invariant
                i <= items.len(),
                gives(decode_seq(all.take(i as int), each), Fact::views(out@)),
            decreases items.len() - i,
        {
            proof {
                lemma_decode_seq_next(all, i as int, each);
            }
            match Fact::decode(&items[i]) {
                Ok(item) => {
                    proof {
                        assert(Fact::views(out@.push(item))
                            =~= Fact::views(out@).push(item@));
                    }
                    out.push(item);
                },
                Err(e) => {
                    proof {
                        lemma_decode_seq_fails(all, i + 1, each);
                    }
                    return Err(e.under_index(i));
                },
            }
            i += 1;
        }
        assert(all.take(items.len() as int) =~= all);
        Ok(out)
    }

    /// The facts of the field `key`, which must be there.
    pub(crate) fn get_all(m: &Object, key: &'static str) -> (r: Result<Vec<Fact>, DecodeError>)
        ensures
            match r {
                Ok(out) => gives(
                    FactView::required_all(object_fields(*m), key@),
                    Fact::views(out@),
                ),
                Err(e) => fails_with(FactView::required_all(object_fields(*m), key@), e@),
            },
    {
        let items = get_array(m, key)?;
        match Fact::decode_all(items) {
            Ok(out) => Ok(out),
            Err(e) => Err(e.under_key(key)),
        }
    }
}

/// Text made of inlines, each with its own formatting.
#[derive(Debug, PartialEq)]
pub struct RichTextBlock {
    /// The inlines, from the first to the last.
    pub inlines: Vec<Inline>,
    /// The horizontal alignment of the text.
    pub horizontal_alignment: Option<HorizontalAlignment>,
    /// A unique identifier of the element.
    pub id: Option<String>,
    /// Whether a separating line is drawn at the top of the element.
    pub separator: Option<bool>,
    /// The amount of space between this element and the one before it.
    pub spacing: Option<Spacing>,
    /// The height of the element.
    pub height: Option<Height>,
    /// Whether the element is shown.
    pub is_visible: Option<bool>,
}

/// The mathematical model of a [`RichTextBlock`].
pub struct RichTextBlockView {
    pub inlines: Seq<InlineView>,
    pub horizontal_alignment: Option<HorizontalAlignment>,
    pub id: Option<Seq<char>>,
    pub separator: Option<bool>,
    pub spacing: Option<Spacing>,
    pub height: Option<Height>,
    pub is_visible: Option<bool>,
}

impl View for RichTextBlock {
    type V = RichTextBlockView;

    open spec fn view(&self) -> RichTextBlockView {
        RichTextBlockView {
            inlines: Inline::views(self.inlines@),
            horizontal_alignment: self.horizontal_alignment,
            id: self.id.deep_view(),
            separator: self.separator,
            spacing: self.spacing,
            height: self.height,
            is_visible: self.is_visible,
        }
    }
}

impl Clone for RichTextBlock {
    fn clone(&self) -> (r: Self)
        ensures
            r@ == self@,
    {
        RichTextBlock {
            inlines: Inline::clone_all(&self.inlines),
            horizontal_alignment: self.horizontal_alignment,
            id: clone_opt_text(&self.id),
            separator: self.separator,
            spacing: self.spacing,
            height: self.height,
            is_visible: self.is_visible,
        }
    }
}

impl RichTextBlockView {
    /// Whether the value, and whatever it holds, is one that the wire format
    /// can express.
    pub open spec fn well_formed(self) -> bool
        decreases self,
    {
        &&& InlineView::all_well_formed(self.inlines)
    }

    /// Whether `key` is the key of one of the fields.
    pub open spec fn is_key(key: Seq<char>) -> bool {
        ||| key == "inlines"@
        ||| key == "horizontalAlignment"@
        ||| key == "id"@
        ||| key == "separator"@
        ||| key == "spacing"@
        ||| key == "height"@
        ||| key == "isVisible"@
    }

    /// The fields that the value is written as.
    pub open spec fn encode_fields(self) -> Fields {
        let m = no_fields();
        let m = with(m, "inlines"@, Json::Array(InlineView::encode_all(self.inlines)));
        let m = with_opt(m, "horizontalAlignment"@, opt_token_json(self.horizontal_alignment));
        let m = with_opt(m, "id"@, opt_text_json(self.id));
        let m = with_opt(m, "separator"@, opt_bool_json(self.separator));
        let m = with_opt(m, "spacing"@, opt_token_json(self.spacing));
        let m = with_opt(m, "height"@, opt_token_json(self.height));
        let m = with_opt(m, "isVisible"@, opt_bool_json(self.is_visible));
        m
    }

    /// The JSON value that the value is written as: an object of its fields.
    pub open spec fn encode_spec(self) -> Json {
        Json::Object(self.encode_fields())
    }

    /// What the fields `m` are read as: the fields are read in their order,
    /// and the first that cannot be read decides the error.
    pub open spec fn decode_fields(m: Fields) -> Result<RichTextBlockView, DecodeErrorView> {
        let inlines = InlineView::required_all(m, "inlines"@);
        let horizontal_alignment = optional_token::<HorizontalAlignment>(m, "horizontalAlignment"@);
        let id = optional_text(m, "id"@);
        let separator = optional_bool(m, "separator"@);
        let spacing = optional_token::<Spacing>(m, "spacing"@);
        let height = optional_token::<Height>(m, "height"@);
        let is_visible = optional_bool(m, "isVisible"@);
        if inlines is Err {
            Err(inlines->Err_0)
        } else if horizontal_alignment is Err {
            Err(horizontal_alignment->Err_0)
        } else if id is Err {
            Err(id->Err_0)
        } else if separator is Err {
            Err(separator->Err_0)
        } else if spacing is Err {
            Err(spacing->Err_0)
        } else if height is Err {
            Err(height->Err_0)
        } else if is_visible is Err {
            Err(is_visible->Err_0)
        } else {
            Ok(
                RichTextBlockView {
                    inlines: inlines->Ok_0,
                    horizontal_alignment: horizontal_alignment->Ok_0,
                    id: id->Ok_0,
                    separator: separator->Ok_0,
                    spacing: spacing->Ok_0,
                    height: height->Ok_0,
                    is_visible: is_visible->Ok_0,
                },
            )
        }
    }

    /// What the JSON value `j` is read as: it must be an object, and its
    /// fields are read.
    pub open spec fn decode_spec(j: Json) -> Result<RichTextBlockView, DecodeErrorView> {
        match j {
            Json::Object(m) => Self::decode_fields(m),
            _ => Err(mismatch(j)),
        }
    }

    /// What is written: every field that must be there, every other field
    /// exactly where it has a value, and each with its value.
    pub proof fn lemma_written(self)
        ensures
            self.encode_fields().contains_key("inlines"@),
            self.encode_fields()["inlines"@] == Json::Array(InlineView::encode_all(self.inlines)),
            self.encode_fields().contains_key("horizontalAlignment"@)
                <==> self.horizontal_alignment is Some,
            self.horizontal_alignment matches Some(x)
                ==> self.encode_fields()["horizontalAlignment"@] == token_json(x),
            self.encode_fields().contains_key("id"@) <==> self.id is Some,
            self.id matches Some(x) ==> self.encode_fields()["id"@] == Json::Str(x),
            self.encode_fields().contains_key("separator"@) <==> self.separator is Some,
            self.separator matches Some(x) ==> self.encode_fields()["separator"@] == Json::Bool(x),
            self.encode_fields().contains_key("spacing"@) <==> self.spacing is Some,
            self.spacing matches Some(x) ==> self.encode_fields()["spacing"@] == token_json(x),
            self.encode_fields().contains_key("height"@) <==> self.height is Some,
            self.height matches Some(x) ==> self.encode_fields()["height"@] == token_json(x),
            self.encode_fields().contains_key("isVisible"@) <==> self.is_visible is Some,
            self.is_visible matches Some(x) ==> self.encode_fields()["isVisible"@] == Json::Bool(x),
    {
        lemma_with_opt();
        lemma_key_shapes();
    }

    /// Nothing else is written: every key is that of a field, and none holds
    /// `null`.
    pub proof fn lemma_written_keys(self, key: Seq<char>)
        requires
            self.encode_fields().contains_key(key),
        ensures
            Self::is_key(key),
            !(self.encode_fields()[key] is Null),
    {
        lemma_with_opt();
    }

    /// What the value carries besides the fields of its kind.
    pub open spec fn base(self) -> BaseFieldsView {
        BaseFieldsView {
            id: self.id,
            separator: self.separator,
            spacing: self.spacing,
            height: self.height,
            is_visible: self.is_visible,
        }
    }

    /// The base fields are written among the fields of the value, each under
    /// its own key and as it is written on its own.
    pub proof fn lemma_base_is_flat(self, key: Seq<char>)
        requires
            self.base().encode_fields().contains_key(key),
        ensures
            self.encode_fields().contains_key(key),
            self.encode_fields()[key] == self.base().encode_fields()[key],
    {
        self.base().lemma_written_keys(key);
        self.base().lemma_written();
        self.lemma_written();
    }

    /// What is read is well formed.
    pub proof fn lemma_decoded(m: Fields)
        ensures
            Self::decode_fields(m) matches Ok(v) ==> v.well_formed(),
    {
        InlineView::lemma_decoded_field(m, "inlines"@);
    }

    /// What is read of a JSON value is well formed.
    pub proof fn lemma_decoded_value(j: Json)
        ensures
            Self::decode_spec(j) matches Ok(v) ==> v.well_formed(),
    {
        match j {
            Json::Object(m) => Self::lemma_decoded(m),
            _ => {},
        }
    }

    /// Reading what was written gives the value back, also where the object
    /// says under `type` what it is.
    pub proof fn lemma_roundtrip_tagged(self, tag: Option<Json>)
        requires
            self.well_formed(),
        ensures
            gives(Self::decode_fields(with_opt(self.encode_fields(), type_key(), tag)), self),
    {
        self.lemma_written();
        lemma_key_shapes();
        lemma_tag_keeps(self.encode_fields(), tag);
        InlineView::lemma_roundtrip_all(self.inlines);
        let m = with_opt(self.encode_fields(), type_key(), tag);
        lemma_reads_array(m, "inlines"@, InlineView::encode_all(self.inlines));
        assert(gives(InlineView::required_all(m, "inlines"@), self.inlines));
        lemma_reads_opt_token(m, "horizontalAlignment"@, self.horizontal_alignment);
        lemma_reads_opt_text(m, "id"@, self.id);
        lemma_reads_opt_bool(m, "separator"@, self.separator);
        lemma_reads_opt_token(m, "spacing"@, self.spacing);
        lemma_reads_opt_token(m, "height"@, self.height);
        lemma_reads_opt_bool(m, "isVisible"@, self.is_visible);
    }

    /// Reading what was written gives the value back.
    pub proof fn lemma_roundtrip(self)
        requires
            self.well_formed(),
        ensures
            gives(Self::decode_fields(self.encode_fields()), self),
            gives(Self::decode_spec(self.encode_spec()), self),
    {
        lemma_with_none(self.encode_fields(), type_key());
        self.lemma_roundtrip_tagged(None);
    }
}

impl RichTextBlock {
    /// What the value carries besides the fields of its kind.
    pub fn base(&self) -> (r: BaseFields)
        ensures
            r@ == self@.base(),
    {
        BaseFields {
            id: clone_opt_text(&self.id),
            separator: self.separator,
            spacing: self.spacing,
            height: self.height,
            is_visible: self.is_visible,
        }
    }

    /// Whether the value, and whatever it holds, is one that the wire format
    /// can express.
    pub fn is_well_formed(&self) -> (r: bool)
        ensures
            r == self@.well_formed(),
    {
        Inline::all_well_formed(&self.inlines)
    }

    /// The fields of the JSON object that stands for the value.
    pub fn encode_fields(&self) -> (m: Object)
        ensures
            object_fields(m) == self@.encode_fields(),
    {
        let mut m = new_object();
        put(&mut m, "inlines", array_value(Inline::encode_all(&self.inlines)));
        put_opt_token(&mut m, "horizontalAlignment", self.horizontal_alignment);
        put_opt_text(&mut m, "id", &self.id);
        put_opt_bool(&mut m, "separator", self.separator);
        put_opt_token(&mut m, "spacing", self.spacing);
        put_opt_token(&mut m, "height", self.height);
        put_opt_bool(&mut m, "isVisible", self.is_visible);
        m
    }

    /// The JSON object that stands for the value.
    pub fn encode(&self) -> (v: Value)
        ensures
            value_json(v) == self@.encode_spec(),
    {
        object_value(self.encode_fields())
    }

    /// The value that the fields `m` stand for.
    pub fn decode_fields(m: &Object) -> (r: Result<RichTextBlock, DecodeError>)
        ensures
            decoded(r) == RichTextBlockView::decode_fields(object_fields(*m)),
            r matches Ok(x) ==> x@.well_formed(),
    {
        proof {
            RichTextBlockView::lemma_decoded(object_fields(*m));
        }
        let inlines = Inline::get_all(m, "inlines")?;
        let horizontal_alignment = get_opt_token::<HorizontalAlignment>(m, "horizontalAlignment")?;
        let id = get_opt_text(m, "id")?;
        let separator = get_opt_bool(m, "separator")?;
        let spacing = get_opt_token::<Spacing>(m, "spacing")?;
        let height = get_opt_token::<Height>(m, "height")?;
        let is_visible = get_opt_bool(m, "isVisible")?;
        Ok(
            RichTextBlock {
                inlines,
                horizontal_alignment,
                id,
                separator,
                spacing,
                height,
                is_visible,
            },
        )
    }

    /// The value that the JSON value `v` stands for.
    pub fn decode(v: &Value) -> (r: Result<RichTextBlock, DecodeError>)
        ensures
            decoded(r) == RichTextBlockView::decode_spec(value_json(*v)),
            r matches Ok(x) ==> x@.well_formed(),
    {
        let m = read_object(v)?;
        RichTextBlock::decode_fields(m)
    }
}

/// One inline of a rich text block: plain text, or a run of text with its
/// formatting. On the wire the two are told apart by the kind of the JSON
/// value, a string or an object.
#[derive(Debug, PartialEq)]
pub enum Inline {
    /// Plain text.
    Text(String),
    /// A run of text with its formatting.
    TextRun(TextRun),
}

impl Clone for Inline {
    fn clone(&self) -> (r: Self)
        ensures
            r@ == self@,
    {
        match self {
            Inline::Text(s) => Inline::Text(s.clone()),
            Inline::TextRun(x) => Inline::TextRun(x.clone()),
        }
    }
}

/// The mathematical model of an [`Inline`].
pub enum InlineView {
    Text(Seq<char>),
    TextRun(TextRunView),
}

impl View for Inline {
    type V = InlineView;

    open spec fn view(&self) -> InlineView {
        match self {
            Inline::Text(s) => InlineView::Text(s@),
            Inline::TextRun(x) => InlineView::TextRun(x@),
        }
    }
}

impl InlineView {
    /// Whether the inline is one that the wire format can express.
    pub open spec fn well_formed(self) -> bool {
        match self {
            InlineView::Text(_) => true,
            InlineView::TextRun(x) => x.well_formed(),
        }
    }

    /// The JSON value that the inline is written as: a string for plain
    /// text, an object for a text run.
    pub open spec fn encode_spec(self) -> Json {
        match self {
            InlineView::Text(s) => Json::Str(s),
            InlineView::TextRun(x) => x.encode_spec(),
        }
    }

    /// What the JSON value `j` is read as: a string is plain text, an object
    /// is a text run, and nothing else is an inline.
    pub open spec fn decode_spec(j: Json) -> Result<InlineView, DecodeErrorView> {
        match j {
            Json::Str(s) => Ok(InlineView::Text(s)),
            Json::Object(m) => match TextRunView::decode_fields(m) {
                Ok(x) => Ok(InlineView::TextRun(x)),
                Err(e) => Err(e),
            },
            _ => Err(mismatch(j)),
        }
    }

    /// What is read is well formed.
    pub proof fn lemma_decoded_value(j: Json)
        ensures
            Self::decode_spec(j) matches Ok(v) ==> v.well_formed(),
    {
        match j {
            Json::Object(m) => TextRunView::lemma_decoded(m),
            _ => {},
        }
    }

    /// Reading what was written gives the inline back.
    pub proof fn lemma_roundtrip(self)
        requires
            self.well_formed(),
        ensures
            gives(Self::decode_spec(self.encode_spec()), self),
    {
        match self {
            InlineView::Text(_) => {},
            InlineView::TextRun(x) => x.lemma_roundtrip(),
        }
    }
}

impl Inline {
    /// Whether the inline is one that the wire format can express.
    pub fn is_well_formed(&self) -> (r: bool)
        ensures
            r == self@.well_formed(),
    {
        match self {
            Inline::Text(_) => true,
            Inline::TextRun(x) => x.is_well_formed(),
        }
    }

    /// The JSON value that stands for the inline.
    pub fn encode(&self) -> (v: Value)
        ensures
            value_json(v) == self@.encode_spec(),
    {
        match self {
            Inline::Text(s) => string_value(s.clone()),
            Inline::TextRun(x) => x.encode(),
        }
    }

    /// The inline that the JSON value `v` stands for.
    pub fn decode(v: &Value) -> (r: Result<Inline, DecodeError>)
        ensures
            decoded(r) == InlineView::decode_spec(value_json(*v)),
            r matches Ok(x) ==> x@.well_formed(),
    {
        match as_text(v) {
            Some(s) => Ok(Inline::Text(s.to_string())),
            None => {
                let m = read_object(v)?;
                Ok(Inline::TextRun(TextRun::decode_fields(m)?))
            },
        }
    }
}

impl InlineView {
    /// Whether every one of the inlines is one that the wire format can
    /// express.
    pub open spec fn all_well_formed(items: Seq<InlineView>) -> bool {
        forall|i: int| 0 <= i < items.len() ==> (#[trigger] items[i]).well_formed()
    }

    /// The decoder of one inline.
    pub open spec fn decoder() -> spec_fn(Json) -> Result<InlineView, DecodeErrorView> {
        |j: Json| Self::decode_spec(j)
    }

    /// The JSON values that the inlines are written as, in their order.
    pub open spec fn encode_all(items: Seq<InlineView>) -> Seq<Json> {
        items.map_values(|x: InlineView| x.encode_spec())
    }

    /// What the JSON values `items` are read as: one inline each, in their
    /// order.
    pub open spec fn decode_all(items: Seq<Json>) -> Result<Seq<InlineView>, DecodeErrorView> {
        decode_seq(items, Self::decoder())
    }

    /// The inlines of the field `key`, which must be there.
    pub open spec fn required_all(
        m: Fields,
        key: Seq<char>,
    ) -> Result<Seq<InlineView>, DecodeErrorView> {
        match required_array(m, key) {
            Ok(items) => in_key(Self::decode_all(items), key),
            Err(e) => Err(e),
        }
    }

    /// The inlines that are read are well formed.
    pub proof fn lemma_decoded_all(items: Seq<Json>)
        ensures
            Self::decode_all(items) matches Ok(values) ==> Self::all_well_formed(values),
    {
        lemma_decode_seq_each(items, Self::decoder());
        match Self::decode_all(items) {
            Ok(values) => {
                assert forall|i: int| 0 <= i < values.len() implies
                    (#[trigger] values[i]).well_formed() by {
                    Self::lemma_decoded_value(items[i]);
                }
            },
            Err(_) => {},
        }
    }

    /// The inlines that are read of a field are well formed.
    pub proof fn lemma_decoded_field(m: Fields, key: Seq<char>)
        ensures
            Self::required_all(m, key) matches Ok(items) ==> Self::all_well_formed(items),
    {
        match required_array(m, key) {
            Ok(items) => Self::lemma_decoded_all(items),
            Err(_) => {},
        }
    }

    /// Reading what was written for a sequence of inlines gives the sequence
    /// back.
    pub proof fn lemma_roundtrip_all(items: Seq<InlineView>)
        requires
            Self::all_well_formed(items),
        ensures
            gives(Self::decode_all(Self::encode_all(items)), items),
    {
        let written = Self::encode_all(items);
        assert forall|i: int| 0 <= i < items.len() implies gives(
            Self::decoder()(#[trigger] written[i]),
            items[i],
        ) by {
            items[i].lemma_roundtrip();
        }
        lemma_decode_seq_all(items, written, Self::decoder());
    }
}

impl Inline {
    /// The models of a sequence of inlines.
    pub open spec fn views(items: Seq<Inline>) -> Seq<InlineView> {
        items.map_values(|x: Inline| x@)
    }

    /// Whether every one of the inlines is one that the wire format can
    /// express.
    #[verifier::loop_isolation(false)]
    pub fn all_well_formed(items: &Vec<Inline>) -> (r: bool)
        ensures
            r == InlineView::all_well_formed(Inline::views(items@)),
    {
        let mut i: usize = 0;
        while i < items.len()
            invariant
                i <= items.len(),
                forall|k: int| 0 <= k < i ==> (#[trigger] Inline::views(items@)[k]).well_formed(),
            decreases items.len() - i,
        {
            if !items[i].is_well_formed() {
                assert(!Inline::views(items@)[i as int].well_formed());
                return false;
            }
            i += 1;
        }
        true
    }

    /// Copies of the inlines, in their order.
    #[verifier::loop_isolation(false)]
    pub fn clone_all(items: &Vec<Inline>) -> (out: Vec<Inline>)
        ensures
            Inline::views(out@) == Inline::views(items@),
    {
        let mut out: Vec<Inline> = Vec::new();
        let mut i: usize = 0;
        while i < items.len()
            invariant
                i <= items.len(),
                out@.len() == i,
                forall|k: int| 0 <= k < i ==> (#[trigger] out@[k])@ == items@[k]@,
            decreases items.len() - i,
        {
            out.push(items[i].clone());
            i += 1;
        }
        assert(Inline::views(out@) =~= Inline::views(items@));
        out
    }

    /// The JSON values that stand for the inlines, in their order.
    #[verifier::loop_isolation(false)]
    pub fn encode_all(items: &Vec<Inline>) -> (out: Vec<Value>)
        ensures
            values_json(out@) == InlineView::encode_all(Inline::views(items@)),
    {
        let mut out: Vec<Value> = Vec::new();
        let mut i: usize = 0;
        while i < items.len()
            invariant
                i <= items.len(),
                out@.len() == i,
                forall|k: int|
                    0 <= k < i ==> value_json(#[trigger] out@[k]) == items@[k]@.encode_spec(),
            decreases items.len() - i,
        {
            out.push(items[i].encode());
            i += 1;
        }
        assert(values_json(out@) =~= InlineView::encode_all(Inline::views(items@)));
        out
    }

    /// The inlines that the JSON values `items` stand for, in their order.
    #[verifier::loop_isolation(false)]
    pub fn decode_all(items: &Vec<Value>) -> (r: Result<Vec<Inline>, DecodeError>)
        ensures
            match r {
                Ok(out) => gives(InlineView::decode_all(values_json(items@)), Inline::views(out@)),
                Err(e) => fails_with(InlineView::decode_all(values_json(items@)), e@),
            },
    {
        let ghost all = values_json(items@);
        let ghost each = InlineView::decoder();
        let mut out: Vec<Inline> = Vec::new();
        let mut i: usize = 0;
        proof {
            lemma_decode_seq_empty(each);
            assert(Inline::views(out@) =~= Seq::empty());
            assert(all.take(0) =~= Seq::empty());
        }
        while i < items.len()
            invariant
                i <= items.len(),
                gives(decode_seq(all.take(i as int), each), Inline::views(out@)),
            decreases items.len() - i,
        {
            proof {
                lemma_decode_seq_next(all, i as int, each);
            }
            match Inline::decode(&items[i]) {
                Ok(item) => {
                    proof {
                        assert(Inline::views(out@.push(item))
                            =~= Inline::views(out@).push(item@));
                    }
                    out.push(item);
                },
                Err(e) => {
                    proof {
                        lemma_decode_seq_fails(all, i + 1, each);
                    }
                    return Err(e.under_index(i));
                },
            }
            i += 1;
        }
        assert(all.take(items.len() as int) =~= all);
        Ok(out)
    }

    /// The inlines of the field `key`, which must be there.
    pub(crate) fn get_all(m: &Object, key: &'static str) -> (r: Result<Vec<Inline>, DecodeError>)
        ensures
            match r {
                Ok(out) => gives(
                    InlineView::required_all(object_fields(*m), key@),
                    Inline::views(out@),
                ),
                Err(e) => fails_with(InlineView::required_all(object_fields(*m), key@), e@),
            },
    {
        let items = get_array(m, key)?;
        match Inline::decode_all(items) {
            Ok(out) => Ok(out),
            Err(e) => Err(e.under_key(key)),
        }
    }
}

/// A run of text with its formatting.
#[derive(Debug, PartialEq)]
pub struct TextRun {
    /// What the object is: always `TextRun`.
    pub type_field: String,
    /// The text to display.
    pub text: String,
    /// The color of the text.
    pub color: Option<Color>,
    /// The type of font to render the text in.
    pub font_type: Option<FontType>,
    /// Whether the text is highlighted.
    pub highlight: Option<bool>,
    /// Whether the text is toned down.
    pub is_subtle: Option<bool>,
    /// Whether the text is set in italics.
    pub italic: Option<bool>,
    /// The size of the text.
    pub size: Option<TextSize>,
    /// Whether the text is struck through.
    pub strikethrough: Option<bool>,
    /// The weight of the text.
    pub weight: Option<TextWeight>,
}

/// The mathematical model of a [`TextRun`].
pub struct TextRunView {
    pub type_field: Seq<char>,
    pub text: Seq<char>,
    pub color: Option<Color>,
    pub font_type: Option<FontType>,
    pub highlight: Option<bool>,
    pub is_subtle: Option<bool>,
    pub italic: Option<bool>,
    pub size: Option<TextSize>,
    pub strikethrough: Option<bool>,
    pub weight: Option<TextWeight>,
}

impl View for TextRun {
    type V = TextRunView;

    open spec fn view(&self) -> TextRunView {
        TextRunView {
            type_field: self.type_field@,
            text: self.text@,
            color: self.color,
            font_type: self.font_type,
            highlight: self.highlight,
            is_subtle: self.is_subtle,
            italic: self.italic,
            size: self.size,
            strikethrough: self.strikethrough,
            weight: self.weight,
        }
    }
}

impl Clone for TextRun {
    fn clone(&self) -> (r: Self)
        ensures
            r@ == self@,
    {
        TextRun {
            type_field: self.type_field.clone(),
            text: self.text.clone(),
            color: self.color,
            font_type: self.font_type,
            highlight: self.highlight,
            is_subtle: self.is_subtle,
            italic: self.italic,
            size: self.size,
            strikethrough: self.strikethrough,
            weight: self.weight,
        }
    }
}

impl TextRunView {
    /// Whether the value, and whatever it holds, is one that the wire format
    /// can express: `type_field` is `TextRun`.
    pub open spec fn well_formed(self) -> bool
        decreases self,
    {
        &&& self.type_field == "TextRun"@
    }

    /// Whether `key` is the key of one of the fields.
    pub open spec fn is_key(key: Seq<char>) -> bool {
        ||| key == "type"@
        ||| key == "text"@
        ||| key == "color"@
        ||| key == "fontType"@
        ||| key == "highlight"@
        ||| key == "isSubtle"@
        ||| key == "italic"@
        ||| key == "size"@
        ||| key == "strikethrough"@
        ||| key == "weight"@
    }

    /// The fields that the value is written as.
    pub open spec fn encode_fields(self) -> Fields {
        let m = no_fields();
        let m = with(m, "type"@, Json::Str(self.type_field));
        let m = with(m, "text"@, Json::Str(self.text));
        let m = with_opt(m, "color"@, opt_token_json(self.color));
        let m = with_opt(m, "fontType"@, opt_token_json(self.font_type));
        let m = with_opt(m, "highlight"@, opt_bool_json(self.highlight));
        let m = with_opt(m, "isSubtle"@, opt_bool_json(self.is_subtle));
        let m = with_opt(m, "italic"@, opt_bool_json(self.italic));
        let m = with_opt(m, "size"@, opt_token_json(self.size));
        let m = with_opt(m, "strikethrough"@, opt_bool_json(self.strikethrough));
        let m = with_opt(m, "weight"@, opt_token_json(self.weight));
        m
    }

    /// The JSON value that the value is written as: an object of its fields.
    pub open spec fn encode_spec(self) -> Json {
        Json::Object(self.encode_fields())
    }

    /// What the fields `m` are read as: the fields are read in their order,
    /// and the first that cannot be read decides the error.
    pub open spec fn decode_fields(m: Fields) -> Result<TextRunView, DecodeErrorView> {
        let type_field = tagged(m, "TextRun"@);
        let text = required_text(m, "text"@);
        let color = optional_token::<Color>(m, "color"@);
        let font_type = optional_token::<FontType>(m, "fontType"@);
        let highlight = optional_bool(m, "highlight"@);
        let is_subtle = optional_bool(m, "isSubtle"@);
        let italic = optional_bool(m, "italic"@);
        let size = optional_token::<TextSize>(m, "size"@);
        let strikethrough = optional_bool(m, "strikethrough"@);
        let weight = optional_token::<TextWeight>(m, "weight"@);
        if type_field is Err {
            Err(type_field->Err_0)
        } else if text is Err {
            Err(text->Err_0)
        } else if color is Err {
            Err(color->Err_0)
        } else if font_type is Err {
            Err(font_type->Err_0)
        } else if highlight is Err {
            Err(highlight->Err_0)
        } else if is_subtle is Err {
            Err(is_subtle->Err_0)
        } else if italic is Err {
            Err(italic->Err_0)
        } else if size is Err {
            Err(size->Err_0)
        } else if strikethrough is Err {
            Err(strikethrough->Err_0)
        } else if weight is Err {
            Err(weight->Err_0)
        } else {
            Ok(
                TextRunView {
                    type_field: type_field->Ok_0,
                    text: text->Ok_0,
                    color: color->Ok_0,
                    font_type: font_type->Ok_0,
                    highlight: highlight->Ok_0,
                    is_subtle: is_subtle->Ok_0,
                    italic: italic->Ok_0,
                    size: size->Ok_0,
                    strikethrough: strikethrough->Ok_0,
                    weight: weight->Ok_0,
                },
            )
        }
    }

    /// What the JSON value `j` is read as: it must be an object, and its
    /// fields are read.
    pub open spec fn decode_spec(j: Json) -> Result<TextRunView, DecodeErrorView> {
        match j {
            Json::Object(m) => Self::decode_fields(m),
            _ => Err(mismatch(j)),
        }
    }

    /// What is written: every field that must be there, every other field
    /// exactly where it has a value, and each with its value.
    pub proof fn lemma_written(self)
        ensures
            self.encode_fields().contains_key("type"@),
            self.encode_fields()["type"@] == Json::Str(self.type_field),
            self.encode_fields().contains_key("text"@),
            self.encode_fields()["text"@] == Json::Str(self.text),
            self.encode_fields().contains_key("color"@) <==> self.color is Some,
            self.color matches Some(x) ==> self.encode_fields()["color"@] == token_json(x),
            self.encode_fields().contains_key("fontType"@) <==> self.font_type is Some,
            self.font_type matches Some(x) ==> self.encode_fields()["fontType"@] == token_json(x),
            self.encode_fields().contains_key("highlight"@) <==> self.highlight is Some,
            self.highlight matches Some(x) ==> self.encode_fields()["highlight"@] == Json::Bool(x),
            self.encode_fields().contains_key("isSubtle"@) <==> self.is_subtle is Some,
            self.is_subtle matches Some(x) ==> self.encode_fields()["isSubtle"@] == Json::Bool(x),
            self.encode_fields().contains_key("italic"@) <==> self.italic is Some,
            self.italic matches Some(x) ==> self.encode_fields()["italic"@] == Json::Bool(x),
            self.encode_fields().contains_key("size"@) <==> self.size is Some,
            self.size matches Some(x) ==> self.encode_fields()["size"@] == token_json(x),
            self.encode_fields().contains_key("strikethrough"@) <==> self.strikethrough is Some,
            self.strikethrough matches Some(x)
                ==> self.encode_fields()["strikethrough"@] == Json::Bool(x),
            self.encode_fields().contains_key("weight"@) <==> self.weight is Some,
            self.weight matches Some(x) ==> self.encode_fields()["weight"@] == token_json(x),
    {
        lemma_with_opt();
        lemma_key_shapes();
    }

    /// Nothing else is written: every key is that of a field, and none holds
    /// `null`.
    pub proof fn lemma_written_keys(self, key: Seq<char>)
        requires
            self.encode_fields().contains_key(key),
        ensures
            Self::is_key(key),
            !(self.encode_fields()[key] is Null),
    {
        lemma_with_opt();
    }

    /// What is read is well formed.
    pub proof fn lemma_decoded(m: Fields)
        ensures
            Self::decode_fields(m) matches Ok(v) ==> v.well_formed(),
    {
        lemma_tagged_is(m, "TextRun"@);
    }

    /// What is read of a JSON value is well formed.
    pub proof fn lemma_decoded_value(j: Json)
        ensures
            Self::decode_spec(j) matches Ok(v) ==> v.well_formed(),
    {
        match j {
            Json::Object(m) => Self::lemma_decoded(m),
            _ => {},
        }
    }

    /// Reading what was written gives the value back.
    pub proof fn lemma_roundtrip(self)
        requires
            self.well_formed(),
        ensures
            gives(Self::decode_fields(self.encode_fields()), self),
            gives(Self::decode_spec(self.encode_spec()), self),
    {
        self.lemma_written();
        lemma_key_shapes();
        let m = self.encode_fields();
        lemma_reads_tag(m, "TextRun"@);
        lemma_reads_text(m, "text"@, self.text);
        lemma_reads_opt_token(m, "color"@, self.color);
        lemma_reads_opt_token(m, "fontType"@, self.font_type);
        lemma_reads_opt_bool(m, "highlight"@, self.highlight);
        lemma_reads_opt_bool(m, "isSubtle"@, self.is_subtle);
        lemma_reads_opt_bool(m, "italic"@, self.italic);
        lemma_reads_opt_token(m, "size"@, self.size);
        lemma_reads_opt_bool(m, "strikethrough"@, self.strikethrough);
        lemma_reads_opt_token(m, "weight"@, self.weight);
    }
}

impl TextRun {
    /// Whether the value, and whatever it holds, is one that the wire format
    /// can express.
    pub fn is_well_formed(&self) -> (r: bool)
        ensures
            r == self@.well_formed(),
    {
        self.type_field.as_str().eq("TextRun")
    }

    /// The fields of the JSON object that stands for the value.
    pub fn encode_fields(&self) -> (m: Object)
        ensures
            object_fields(m) == self@.encode_fields(),
    {
        let mut m = new_object();
        put_text(&mut m, "type", self.type_field.as_str());
        put_text(&mut m, "text", self.text.as_str());
        put_opt_token(&mut m, "color", self.color);
        put_opt_token(&mut m, "fontType", self.font_type);
        put_opt_bool(&mut m, "highlight", self.highlight);
        put_opt_bool(&mut m, "isSubtle", self.is_subtle);
        put_opt_bool(&mut m, "italic", self.italic);
        put_opt_token(&mut m, "size", self.size);
        put_opt_bool(&mut m, "strikethrough", self.strikethrough);
        put_opt_token(&mut m, "weight", self.weight);
        m
    }

    /// The JSON object that stands for the value.
    pub fn encode(&self) -> (v: Value)
        ensures
            value_json(v) == self@.encode_spec(),
    {
        object_value(self.encode_fields())
    }

    /// The value that the fields `m` stand for.
    pub fn decode_fields(m: &Object) -> (r: Result<TextRun, DecodeError>)
        ensures
            decoded(r) == TextRunView::decode_fields(object_fields(*m)),
            r matches Ok(x) ==> x@.well_formed(),
    {
        proof {
            TextRunView::lemma_decoded(object_fields(*m));
        }
        let type_field = get_tag(m, "TextRun")?;
        let text = get_text(m, "text")?;
        let color = get_opt_token::<Color>(m, "color")?;
        let font_type = get_opt_token::<FontType>(m, "fontType")?;
        let highlight = get_opt_bool(m, "highlight")?;
        let is_subtle = get_opt_bool(m, "isSubtle")?;
        let italic = get_opt_bool(m, "italic")?;
        let size = get_opt_token::<TextSize>(m, "size")?;
        let strikethrough = get_opt_bool(m, "strikethrough")?;
        let weight = get_opt_token::<TextWeight>(m, "weight")?;
        Ok(
            TextRun {
                type_field,
                text,
                color,
                font_type,
                highlight,
                is_subtle,
                italic,
                size,
                strikethrough,
                weight,
            },
        )
    }

    /// The value that the JSON value `v` stands for.
    pub fn decode(v: &Value) -> (r: Result<TextRun, DecodeError>)
        ensures
            decoded(r) == TextRunView::decode_spec(value_json(*v)),
            r matches Ok(x) ==> x@.well_formed(),
    {
        let m = read_object(v)?;
        TextRun::decode_fields(m)
    }
}

/// The size of text.
#[derive(Debug, Clone, Copy, PartialEq, Eq, Structural)]
pub enum TextSize {
    Small,
    Default,
    Medium,
    Large,
    ExtraLarge,
}

impl Literal for TextSize {
    open spec fn token_spec(self) -> Seq<char> {
        match self {
            TextSize::Small => "small"@,
            TextSize::Default => "default"@,
            TextSize::Medium => "medium"@,
            TextSize::Large => "large"@,
            TextSize::ExtraLarge => "extraLarge"@,
        }
    }

    open spec fn parse_spec(s: Seq<char>) -> Option<Self> {
        if s == TextSize::Small.token_spec() {
            Some(TextSize::Small)
        } else if s == TextSize::Default.token_spec() {
            Some(TextSize::Default)
        } else if s == TextSize::Medium.token_spec() {
            Some(TextSize::Medium)
        } else if s == TextSize::Large.token_spec() {
            Some(TextSize::Large)
        } else if s == TextSize::ExtraLarge.token_spec() {
            Some(TextSize::ExtraLarge)
        } else {
            None
        }
    }

    fn token(&self) -> (r: &'static str) {
        match self {
            TextSize::Small => "small",
            TextSize::Default => "default",
            TextSize::Medium => "medium",
            TextSize::Large => "large",
            TextSize::ExtraLarge => "extraLarge",
        }
    }

    fn from_token(s: &str) -> (r: Option<Self>) {
        if s.eq(TextSize::Small.token()) {
            Some(TextSize::Small)
        } else if s.eq(TextSize::Default.token()) {
            Some(TextSize::Default)
        } else if s.eq(TextSize::Medium.token()) {
            Some(TextSize::Medium)
        } else if s.eq(TextSize::Large.token()) {
            Some(TextSize::Large)
        } else if s.eq(TextSize::ExtraLarge.token()) {
            Some(TextSize::ExtraLarge)
        } else {
            None
        }
    }

    proof fn lemma_token_parses(self) {
        reveal_strlit("small");
        reveal_strlit("default");
        reveal_strlit("medium");
        reveal_strlit("large");
        reveal_strlit("extraLarge");
        assert(shape("small"@) == (5nat, 's', 'l'));
        assert(shape("default"@) == (7nat, 'd', 't'));
        assert(shape("medium"@) == (6nat, 'm', 'm'));
        assert(shape("large"@) == (5nat, 'l', 'e'));
        assert(shape("extraLarge"@) == (10nat, 'e', 'e'));
    }

    proof fn lemma_parsed_token(s: Seq<char>) {
    }
}

/// The weight of text.
#[derive(Debug, Clone, Copy, PartialEq, Eq, Structural)]
pub enum TextWeight {
    Lighter,
    Default,
    Bolder,
}

impl Literal for TextWeight {
    open spec fn token_spec(self) -> Seq<char> {
        match self {
            TextWeight::Lighter => "lighter"@,
            TextWeight::Default => "default"@,
            TextWeight::Bolder => "bolder"@,
        }
    }

    open spec fn parse_spec(s: Seq<char>) -> Option<Self> {
        if s == TextWeight::Lighter.token_spec() {
            Some(TextWeight::Lighter)
        } else if s == TextWeight::Default.token_spec() {
            Some(TextWeight::Default)
        } else if s == TextWeight::Bolder.token_spec() {
            Some(TextWeight::Bolder)
        } else {
            None
        }
    }

    fn token(&self) -> (r: &'static str) {
        match self {
            TextWeight::Lighter => "lighter",
            TextWeight::Default => "default",
            TextWeight::Bolder => "bolder",
        }
    }

    fn from_token(s: &str) -> (r: Option<Self>) {
        if s.eq(TextWeight::Lighter.token()) {
            Some(TextWeight::Lighter)
        } else if s.eq(TextWeight::Default.token()) {
            Some(TextWeight::Default)
        } else if s.eq(TextWeight::Bolder.token()) {
            Some(TextWeight::Bolder)
        } else {
            None
        }
    }

    proof fn lemma_token_parses(self) {
        reveal_strlit("lighter");
        reveal_strlit("default");
        reveal_strlit("bolder");
        assert(shape("lighter"@) == (7nat, 'l', 'r'));
        assert(shape("default"@) == (7nat, 'd', 't'));
        assert(shape("bolder"@) == (6nat, 'b', 'r'));
    }

    proof fn lemma_parsed_token(s: Seq<char>) {
    }
}

/// The style of a container.
#[derive(Debug, Clone, Copy, PartialEq, Eq, Structural)]
pub enum ContainerStyle {
    Default,
    Emphasis,
    Good,
    Attention,
    Warning,
    Accent,
}

impl Literal for ContainerStyle {
    open spec fn token_spec(self) -> Seq<char> {
        match self {
            ContainerStyle::Default => "default"@,
            ContainerStyle::Emphasis => "emphasis"@,
            ContainerStyle::Good => "good"@,
            ContainerStyle::Attention => "attention"@,
            ContainerStyle::Warning => "warning"@,
            ContainerStyle::Accent => "accent"@,
        }
    }

    open spec fn parse_spec(s: Seq<char>) -> Option<Self> {
        if s == ContainerStyle::Default.token_spec() {
            Some(ContainerStyle::Default)
        } else if s == ContainerStyle::Emphasis.token_spec() {
            Some(ContainerStyle::Emphasis)
        } else if s == ContainerStyle::Good.token_spec() {
            Some(ContainerStyle::Good)
        } else if s == ContainerStyle::Attention.token_spec() {
            Some(ContainerStyle::Attention)
        } else if s == ContainerStyle::Warning.token_spec() {
            Some(ContainerStyle::Warning)
        } else if s == ContainerStyle::Accent.token_spec() {
            Some(ContainerStyle::Accent)
        } else {
            None
        }
    }

    fn token(&self) -> (r: &'static str) {
        match self {
            ContainerStyle::Default => "default",
            ContainerStyle::Emphasis => "emphasis",
            ContainerStyle::Good => "good",
            ContainerStyle::Attention => "attention",
            ContainerStyle::Warning => "warning",
            ContainerStyle::Accent => "accent",
        }
    }

    fn from_token(s: &str) -> (r: Option<Self>) {
        if s.eq(ContainerStyle::Default.token()) {
            Some(ContainerStyle::Default)
        } else if s.eq(ContainerStyle::Emphasis.token()) {
            Some(ContainerStyle::Emphasis)
        } else if s.eq(ContainerStyle::Good.token()) {
            Some(ContainerStyle::Good)
        } else if s.eq(ContainerStyle::Attention.token()) {
            Some(ContainerStyle::Attention)
        } else if s.eq(ContainerStyle::Warning.token()) {
            Some(ContainerStyle::Warning)
        } else if s.eq(ContainerStyle::Accent.token()) {
            Some(ContainerStyle::Accent)
        } else {
            None
        }
    }

    proof fn lemma_token_parses(self) {
        reveal_strlit("default");
        reveal_strlit("emphasis");
        reveal_strlit("good");
        reveal_strlit("attention");
        reveal_strlit("warning");
        reveal_strlit("accent");
        assert(shape("default"@) == (7nat, 'd', 't'));
        assert(shape("emphasis"@) == (8nat, 'e', 's'));
        assert(shape("good"@) == (4nat, 'g', 'd'));
        assert(shape("attention"@) == (9nat, 'a', 'n'));
        assert(shape("warning"@) == (7nat, 'w', 'g'));
        assert(shape("accent"@) == (6nat, 'a', 't'));
    }

    proof fn lemma_parsed_token(s: Seq<char>) {
    }
}

/// The amount of space between an element and the one before it.
#[derive(Debug, Clone, Copy, PartialEq, Eq, Structural)]
pub enum Spacing {
    NoSpacing,
    Small,
    Default,
    Medium,
    Large,
    ExtraLarge,
    Padding,
}

impl Literal for Spacing {
    open spec fn token_spec(self) -> Seq<char> {
        match self {
            Spacing::NoSpacing => "none"@,
            Spacing::Small => "small"@,
            Spacing::Default => "default"@,
            Spacing::Medium => "medium"@,
            Spacing::Large => "large"@,
            Spacing::ExtraLarge => "extraLarge"@,
            Spacing::Padding => "padding"@,
        }
    }

    open spec fn parse_spec(s: Seq<char>) -> Option<Self> {
        if s == Spacing::NoSpacing.token_spec() {
            Some(Spacing::NoSpacing)
        } else if s == Spacing::Small.token_spec() {
            Some(Spacing::Small)
        } else if s == Spacing::Default.token_spec() {
            Some(Spacing::Default)
        } else if s == Spacing::Medium.token_spec() {
            Some(Spacing::Medium)
        } else if s == Spacing::Large.token_spec() {
            Some(Spacing::Large)
        } else if s == Spacing::ExtraLarge.token_spec() {
            Some(Spacing::ExtraLarge)
        } else if s == Spacing::Padding.token_spec() {
            Some(Spacing::Padding)
        } else {
            None
        }
    }

    fn token(&self) -> (r: &'static str) {
        match self {
            Spacing::NoSpacing => "none",
            Spacing::Small => "small",
            Spacing::Default => "default",
            Spacing::Medium => "medium",
            Spacing::Large => "large",
            Spacing::ExtraLarge => "extraLarge",
            Spacing::Padding => "padding",
        }
    }

    fn from_token(s: &str) -> (r: Option<Self>) {
        if s.eq(Spacing::NoSpacing.token()) {
            Some(Spacing::NoSpacing)
        } else if s.eq(Spacing::Small.token()) {
            Some(Spacing::Small)
        } else if s.eq(Spacing::Default.token()) {
            Some(Spacing::Default)
        } else if s.eq(Spacing::Medium.token()) {
            Some(Spacing::Medium)
        } else if s.eq(Spacing::Large.token()) {
            Some(Spacing::Large)
        } else if s.eq(Spacing::ExtraLarge.token()) {
            Some(Spacing::ExtraLarge)
        } else if s.eq(Spacing::Padding.token()) {
            Some(Spacing::Padding)
        } else {
            None
        }
    }

    proof fn lemma_token_parses(self) {
        reveal_strlit("none");
        reveal_strlit("small");
        reveal_strlit("default");
        reveal_strlit("medium");
        reveal_strlit("large");
        reveal_strlit("extraLarge");
        reveal_strlit("padding");
        assert(shape("none"@) == (4nat, 'n', 'e'));
        assert(shape("small"@) == (5nat, 's', 'l'));
        assert(shape("default"@) == (7nat, 'd', 't'));
        assert(shape("medium"@) == (6nat, 'm', 'm'));
        assert(shape("large"@) == (5nat, 'l', 'e'));
        assert(shape("extraLarge"@) == (10nat, 'e', 'e'));
        assert(shape("padding"@) == (7nat, 'p', 'g'));
    }

    proof fn lemma_parsed_token(s: Seq<char>) {
    }
}

/// What the width of a column is.
#[derive(Debug, Clone, Copy, PartialEq, Eq)]
pub enum ColumnWidthKind {
    /// As wide as the content needs: `"auto"` on the wire.
    Auto,
    /// The width that is left: `"stretch"` on the wire.
    Stretch,
    /// A number of pixels: the digits and `px` on the wire, as in `"200px"`.
    Pixel(u32),
    /// A weight relative to the other columns: a bare number on the wire.
    Relative(u32),
}

/// The width of a column. It is made by [`ColumnWidth::auto`],
/// [`ColumnWidth::stretch`], [`ColumnWidth::pixels`] and
/// [`ColumnWidth::weight`], so that every width can be written.
#[derive(Debug, Clone, Copy, PartialEq, Eq)]
pub struct ColumnWidth {
    kind: ColumnWidthKind,
}

impl View for ColumnWidth {
    type V = ColumnWidthKind;

    closed spec fn view(&self) -> ColumnWidthKind {
        self.kind
    }
}

impl ColumnWidthKind {
    /// The JSON value that the width is written as.
    pub open spec fn encode_spec(self) -> Json {
        match self {
            ColumnWidthKind::Auto => Json::Str("auto"@),
            ColumnWidthKind::Stretch => Json::Str("stretch"@),
            ColumnWidthKind::Pixel(n) => Json::Str(pixels(n as nat)),
            ColumnWidthKind::Relative(n) => u32_json(n),
        }
    }

    /// The width that the text `s` spells, if it spells one.
    pub open spec fn parse_spec(s: Seq<char>) -> Option<ColumnWidthKind> {
        if s == "auto"@ {
            Some(ColumnWidthKind::Auto)
        } else if s == "stretch"@ {
            Some(ColumnWidthKind::Stretch)
        } else {
            match parse_pixels(s) {
                Some(n) => Some(ColumnWidthKind::Pixel(n)),
                None => None,
            }
        }
    }

    /// The value `j` is no column width.
    pub open spec fn invalid(j: Json) -> DecodeErrorView {
        failure(ErrorKind::InvalidColumnWidth, Some(j))
    }

    /// What the JSON value `j` is read as: a number is a weight, a string is
    /// `auto`, `stretch` or pixels, and nothing else is a width.
    pub open spec fn decode_spec(j: Json) -> Result<ColumnWidthKind, DecodeErrorView> {
        match j {
            Json::Number(Num::Unsigned(u)) => if u <= u32::MAX {
                Ok(ColumnWidthKind::Relative(u as u32))
            } else {
                Err(Self::invalid(j))
            },
            Json::Str(s) => match Self::parse_spec(s) {
                Some(w) => Ok(w),
                None => Err(Self::invalid(j)),
            },
            _ => Err(Self::invalid(j)),
        }
    }

    /// The width of the field `key`, which must be there.
    pub open spec fn required(
        m: Fields,
        key: Seq<char>,
    ) -> Result<ColumnWidthKind, DecodeErrorView> {
        match required(m, key) {
            Ok(j) => in_key(Self::decode_spec(j), key),
            Err(e) => Err(e),
        }
    }

    /// Reading what was written gives the width back.
    pub proof fn lemma_roundtrip(self)
        ensures
            gives(Self::decode_spec(self.encode_spec()), self),
    {
        reveal_strlit("auto");
        reveal_strlit("stretch");
        assert("auto"@.len() == 4 && "stretch"@.len() == 7);
        assert("auto"@.last() == 'o' && "stretch"@.last() == 'h');
        match self {
            ColumnWidthKind::Pixel(n) => {
                lemma_pixels_parse(n);
                lemma_pixels_end(n as nat);
            },
            _ => {},
        }
    }
}

impl ColumnWidth {
    /// As wide as the content needs.
    pub fn auto() -> (w: ColumnWidth)
        ensures
            w@ == ColumnWidthKind::Auto,
    {
        ColumnWidth { kind: ColumnWidthKind::Auto }
    }

    /// The width that is left.
    pub fn stretch() -> (w: ColumnWidth)
        ensures
            w@ == ColumnWidthKind::Stretch,
    {
        ColumnWidth { kind: ColumnWidthKind::Stretch }
    }

    /// `px` pixels wide.
    pub fn pixels(px: u32) -> (w: ColumnWidth)
        ensures
            w@ == ColumnWidthKind::Pixel(px),
    {
        ColumnWidth { kind: ColumnWidthKind::Pixel(px) }
    }

    /// The weight `w`, relative to the other columns.
    pub fn weight(w: u32) -> (width: ColumnWidth)
        ensures
            width@ == ColumnWidthKind::Relative(w),
    {
        ColumnWidth { kind: ColumnWidthKind::Relative(w) }
    }

    /// What the width is.
    pub fn kind(&self) -> (kind: ColumnWidthKind)
        ensures
            kind == self@,
    {
        self.kind
    }

    /// The JSON value that stands for the width.
    pub fn encode(&self) -> (v: Value)
        ensures
            value_json(v) == self@.encode_spec(),
    {
        match self.kind {
            ColumnWidthKind::Auto => string_value("auto".to_string()),
            ColumnWidthKind::Stretch => string_value("stretch".to_string()),
            ColumnWidthKind::Pixel(n) => string_value(pixels_text(n)),
            ColumnWidthKind::Relative(n) => u32_value(n),
        }
    }

    /// The width that the text `s` spells, if it spells one.
    pub fn parse(s: &str) -> (r: Option<ColumnWidth>)
        ensures
            match r {
                Some(w) => ColumnWidthKind::parse_spec(s@) == Some(w@),
                None => ColumnWidthKind::parse_spec(s@) is None,
            },
    {
        if s.eq("auto") {
            Some(ColumnWidth::auto())
        } else if s.eq("stretch") {
            Some(ColumnWidth::stretch())
        } else {
            match parse_pixels_text(s) {
                Some(n) => Some(ColumnWidth::pixels(n)),
                None => None,
            }
        }
    }

    /// The width that the JSON value `v` stands for.
    pub fn decode(v: &Value) -> (r: Result<ColumnWidth, DecodeError>)
        ensures
            decoded(r) == ColumnWidthKind::decode_spec(value_json(*v)),
    {
        match as_text(v) {
            Some(s) => match ColumnWidth::parse(s) {
                Some(w) => Ok(w),
                None => Err(DecodeError::about(ErrorKind::InvalidColumnWidth, v)),
            },
            None => match read_u32(v) {
                Ok(n) => Ok(ColumnWidth::weight(n)),
                Err(_) => Err(DecodeError::about(ErrorKind::InvalidColumnWidth, v)),
            },
        }
    }

    /// The width of the field `key`, which must be there.
    pub(crate) fn get(m: &Object, key: &'static str) -> (r: Result<ColumnWidth, DecodeError>)
        ensures
            decoded(r) == ColumnWidthKind::required(object_fields(*m), key@),
    {
        let v = get(m, key)?;
        match ColumnWidth::decode(v) {
            Ok(w) => Ok(w),
            Err(e) => Err(e.under_key(key)),
        }
    }
}

/// The size of an image.
#[derive(Debug, Clone, Copy, PartialEq, Eq, Structural)]
pub enum ImageSize {
    Auto,
    Stretch,
    Small,
    Medium,
    Large,
}

impl Literal for ImageSize {
    open spec fn token_spec(self) -> Seq<char> {
        match self {
            ImageSize::Auto => "auto"@,
            ImageSize::Stretch => "stretch"@,
            ImageSize::Small => "small"@,
            ImageSize::Medium => "medium"@,
            ImageSize::Large => "large"@,
        }
    }

    open spec fn parse_spec(s: Seq<char>) -> Option<Self> {
        if s == ImageSize::Auto.token_spec() {
            Some(ImageSize::Auto)
        } else if s == ImageSize::Stretch.token_spec() {
            Some(ImageSize::Stretch)
        } else if s == ImageSize::Small.token_spec() {
            Some(ImageSize::Small)
        } else if s == ImageSize::Medium.token_spec() {
            Some(ImageSize::Medium)
        } else if s == ImageSize::Large.token_spec() {
            Some(ImageSize::Large)
        } else {
            None
        }
    }

    fn token(&self) -> (r: &'static str) {
        match self {
            ImageSize::Auto => "auto",
            ImageSize::Stretch => "stretch",
            ImageSize::Small => "small",
            ImageSize::Medium => "medium",
            ImageSize::Large => "large",
        }
    }

    fn from_token(s: &str) -> (r: Option<Self>) {
        if s.eq(ImageSize::Auto.token()) {
            Some(ImageSize::Auto)
        } else if s.eq(ImageSize::Stretch.token()) {
            Some(ImageSize::Stretch)
        } else if s.eq(ImageSize::Small.token()) {
            Some(ImageSize::Small)
        } else if s.eq(ImageSize::Medium.token()) {
            Some(ImageSize::Medium)
        } else if s.eq(ImageSize::Large.token()) {
            Some(ImageSize::Large)
        } else {
            None
        }
    }

    proof fn lemma_token_parses(self) {
        reveal_strlit("auto");
        reveal_strlit("stretch");
        reveal_strlit("small");
        reveal_strlit("medium");
        reveal_strlit("large");
        assert(shape("auto"@) == (4nat, 'a', 'o'));
        assert(shape("stretch"@) == (7nat, 's', 'h'));
        assert(shape("small"@) == (5nat, 's', 'l'));
        assert(shape("medium"@) == (6nat, 'm', 'm'));
        assert(shape("large"@) == (5nat, 'l', 'e'));
    }

    proof fn lemma_parsed_token(s: Seq<char>) {
    }
}

} // verus!

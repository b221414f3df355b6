//! The actions of a card.

use crate::card::{AdaptiveCard, AdaptiveCardView, MAX_DEPTH};
use crate::common::{ActionMode, ActionStyle, AssociatedInputs};
use crate::error::{decoded, failure, DecodeError, DecodeErrorView, ErrorKind};
use crate::field::{
    decode_seq, fails_with, gives, in_key, kind_of, lemma_decode_seq_all, lemma_decode_seq_each,
    lemma_decode_seq_empty, lemma_decode_seq_fails, lemma_decode_seq_next, lemma_json_is_not_null,
    lemma_reads_array, lemma_reads_kind, lemma_reads_opt_bool, lemma_reads_opt_json,
    lemma_reads_opt_text, lemma_reads_opt_token, lemma_reads_text, lemma_reads_texts,
    lemma_reads_value, lemma_tag_keeps, lemma_with_none, lemma_with_opt, mismatch, opt_bool_json,
    opt_json, opt_text_json, opt_token_json, opt_value, optional_array, optional_bool,
    optional_json, optional_text, optional_token, required_array, required_text, required_texts,
    some, texts_json, texts_view, token_json, type_key, unknown_tag, with, with_opt,
};
use crate::json::{
    array_value, field, is_null, new_object, no_fields, object_fields, object_value, value_json,
    values_json, Fields, Json, Object,
};
use crate::keys::lemma_key_shapes;
use crate::literal::Literal;
use crate::object::{
    clone_opt_json, clone_opt_text, clone_texts, find, get_array, get_kind, get_opt_array,
    get_opt_bool, get_opt_json, get_opt_text, get_opt_token, get_text, get_texts, put,
    put_opt_bool, put_opt_json, put_opt_text, put_opt_token, put_text, put_texts, put_token,
    read_object,
};
use crate::text::{larger, shape};
use serde_json::Value;
use vstd::prelude::*;

verus! {

/// The kinds of action, each with the `type` that announces it.
#[derive(Debug, Clone, Copy, PartialEq, Eq, Structural)]
pub enum ActionKind {
    OpenUrl,
    Submit,
    ShowCard,
    ToggleVisibility,
}

impl Literal for ActionKind {
    open spec fn token_spec(self) -> Seq<char> {
        match self {
            ActionKind::OpenUrl => "Action.OpenUrl"@,
            ActionKind::Submit => "Action.Submit"@,
            ActionKind::ShowCard => "Action.ShowCard"@,
            ActionKind::ToggleVisibility => "Action.ToggleVisibility"@,
        }
    }

    open spec fn parse_spec(s: Seq<char>) -> Option<Self> {
        if s == ActionKind::OpenUrl.token_spec() {
            Some(ActionKind::OpenUrl)
        } else if s == ActionKind::Submit.token_spec() {
            Some(ActionKind::Submit)
        } else if s == ActionKind::ShowCard.token_spec() {
            Some(ActionKind::ShowCard)
        } else if s == ActionKind::ToggleVisibility.token_spec() {
            Some(ActionKind::ToggleVisibility)
        } else {
            None
        }
    }

    fn token(&self) -> (r: &'static str) {
        match self {
            ActionKind::OpenUrl => "Action.OpenUrl",
            ActionKind::Submit => "Action.Submit",
            ActionKind::ShowCard => "Action.ShowCard",
            ActionKind::ToggleVisibility => "Action.ToggleVisibility",
        }
    }

    fn from_token(s: &str) -> (r: Option<Self>) {
        if s.eq(ActionKind::OpenUrl.token()) {
            Some(ActionKind::OpenUrl)
        } else if s.eq(ActionKind::Submit.token()) {
            Some(ActionKind::Submit)
        } else if s.eq(ActionKind::ShowCard.token()) {
            Some(ActionKind::ShowCard)
        } else if s.eq(ActionKind::ToggleVisibility.token()) {
            Some(ActionKind::ToggleVisibility)
        } else {
            None
        }
    }

    proof fn lemma_token_parses(self) {
        reveal_strlit("Action.OpenUrl");
        reveal_strlit("Action.Submit");
        reveal_strlit("Action.ShowCard");
        reveal_strlit("Action.ToggleVisibility");
        assert(shape("Action.OpenUrl"@) == (14nat, 'A', 'l'));
        assert(shape("Action.Submit"@) == (13nat, 'A', 't'));
        assert(shape("Action.ShowCard"@) == (15nat, 'A', 'd'));
        assert(shape("Action.ToggleVisibility"@) == (23nat, 'A', 'y'));
    }

    proof fn lemma_parsed_token(s: Seq<char>) {
    }
}

/// A group of actions.
#[derive(Debug, PartialEq)]
pub struct ActionSet {
    /// The actions, from the first to the last.
    pub actions: Vec<Action>,
}

/// The mathematical model of an [`ActionSet`].
pub struct ActionSetView {
    pub actions: Seq<ActionView>,
}

impl ActionSet {
    /// The mathematical model of the value.
    pub open spec fn model(&self) -> ActionSetView
        decreases self,
    {
        ActionSetView {
            actions: Action::views(self.actions@),
        }
    }
}

impl View for ActionSet {
    type V = ActionSetView;

    open spec fn view(&self) -> ActionSetView {
        self.model()
    }
}

impl ActionSet {
    /// A copy of the value.
    pub fn duplicate(&self) -> (r: ActionSet)
        ensures
            r@ == self@,
        decreases self,
    {
        ActionSet {
            actions: Action::clone_all(&self.actions),
        }
    }
}

impl Clone for ActionSet {
    fn clone(&self) -> (r: Self)
        ensures
            r@ == self@,
    {
        self.duplicate()
    }
}

impl ActionSetView {
    /// Whether the value, and whatever it holds, is one that the wire format
    /// can express.
    pub open spec fn well_formed(self) -> bool
        decreases self,
    {
        &&& ActionView::all_well_formed(self.actions)
    }

    /// Whether elements and actions are nested in the value no deeper than
    /// `limit`.
    pub open spec fn within(self, limit: nat) -> bool
        decreases self,
    {
        &&& ActionView::all_within(self.actions, limit)
    }

    /// Whether `key` is the key of one of the fields.
    pub open spec fn is_key(key: Seq<char>) -> bool {
        key == "actions"@
    }

    /// The fields that the value is written as.
    pub open spec fn encode_fields(self) -> Fields
        decreases self, 0nat,
    {
        let m = no_fields();
        let m = with(m, "actions"@, Json::Array(ActionView::encode_all(self.actions)));
        m
    }

    /// The JSON value that the value is written as: an object of its fields.
    pub open spec fn encode_spec(self) -> Json
        decreases self, 1nat,
    {
        Json::Object(self.encode_fields())
    }

    /// What the fields `m` are read as: the fields are read in their order,
    /// and the first that cannot be read decides the error.
    pub open spec fn decode_fields(m: Fields, limit: nat) -> Result<ActionSetView, DecodeErrorView>
        decreases limit, 4nat, 0nat,
    {
        let actions = ActionView::required_all(m, "actions"@, limit);
        if actions is Err {
            Err(actions->Err_0)
        } else {
            Ok(
                ActionSetView {
                    actions: actions->Ok_0,
                },
            )
        }
    }

    /// What the JSON value `j` is read as: it must be an object, and its
    /// fields are read.
    pub open spec fn decode_spec(j: Json, limit: nat) -> Result<ActionSetView, DecodeErrorView>
        decreases limit, 4nat, 1nat,
    {
        match j {
            Json::Object(m) => Self::decode_fields(m, limit),
            _ => Err(mismatch(j)),
        }
    }

    /// What is written: every field that must be there, every other field
    /// exactly where it has a value, and each with its value.
    pub proof fn lemma_written(self)
        ensures
            self.encode_fields().contains_key("actions"@),
            self.encode_fields()["actions"@] == Json::Array(ActionView::encode_all(self.actions)),
    {
        lemma_with_opt();
        lemma_key_shapes();
    }

    /// Nothing else is written: every key is that of a field, and none holds
    /// `null`.
    pub proof fn lemma_written_keys(self, key: Seq<char>)
        requires
            self.encode_fields().contains_key(key),
        ensures
            Self::is_key(key),
            !(self.encode_fields()[key] is Null),
    {
        lemma_with_opt();
    }

    /// What is read is well formed, and nested no deeper than `limit`.
    pub proof fn lemma_decoded(m: Fields, limit: nat)
        ensures
            Self::decode_fields(m, limit) matches Ok(v) ==> v.well_formed() && v.within(limit),
        decreases limit, 4nat, 0nat,
    {
        ActionView::lemma_decoded_field(m, "actions"@, limit);
    }

    /// What is read of a JSON value is well formed, and nested no deeper than
    /// `limit`.
    pub proof fn lemma_decoded_value(j: Json, limit: nat)
        ensures
            Self::decode_spec(j, limit) matches Ok(v) ==> v.well_formed() && v.within(limit),
        decreases limit, 4nat, 1nat,
    {
        match j {
            Json::Object(m) => Self::lemma_decoded(m, limit),
            _ => {},
        }
    }

    /// How deep elements and actions are nested in the value.
    pub open spec fn nesting(self) -> nat
        decreases self, 0nat,
    {
        ActionView::nesting_all(self.actions)
    }

    /// A value that is within a limit is within every greater limit.
    pub proof fn lemma_within_more(self, limit: nat, more: nat)
        requires
            self.within(limit),
            limit <= more,
        ensures
            self.within(more),
        decreases self, 0nat,
    {
        ActionView::lemma_all_within_more(self.actions, limit, more);
    }

    /// A value is within its nesting.
    pub proof fn lemma_within_nesting(self)
        ensures
            self.within(self.nesting()),
        decreases self, 1nat,
    {
        let limit = self.nesting();
        ActionView::lemma_all_within_nesting(self.actions);
        ActionView::lemma_all_within_more(
            self.actions,
            ActionView::nesting_all(self.actions),
            limit,
        );
    }

    /// Reading what was written gives the value back, also where the object
    /// says under `type` what it is.
    pub proof fn lemma_roundtrip_tagged(self, tag: Option<Json>, limit: nat)
        requires
            self.well_formed(),
            self.within(limit),
        ensures
            gives(
                Self::decode_fields(with_opt(self.encode_fields(), type_key(), tag), limit),
                self,
            ),
        decreases self, 0nat,
    {
        self.lemma_written();
        lemma_key_shapes();
        lemma_tag_keeps(self.encode_fields(), tag);
        ActionView::lemma_roundtrip_all(self.actions, limit);
        let m = with_opt(self.encode_fields(), type_key(), tag);
        lemma_reads_array(m, "actions"@, ActionView::encode_all(self.actions));
        assert(gives(ActionView::required_all(m, "actions"@, limit), self.actions));
    }

    /// Reading what was written gives the value back.
    pub proof fn lemma_roundtrip(self, limit: nat)
        requires
            self.well_formed(),
            self.within(limit),
        ensures
            gives(Self::decode_fields(self.encode_fields(), limit), self),
            gives(Self::decode_spec(self.encode_spec(), limit), self),
        decreases self, 1nat,
    {
        lemma_with_none(self.encode_fields(), type_key());
        self.lemma_roundtrip_tagged(None, limit);
    }
}

impl ActionSet {
    /// Whether the value, and whatever it holds, is one that the wire format
    /// can express.
    pub fn is_well_formed(&self) -> (r: bool)
        ensures
            r == self@.well_formed(),
        decreases self,
    {
        Action::all_well_formed(&self.actions)
    }

    /// Whether elements and actions are nested in the value no deeper than
    /// `limit`.
    pub fn is_within(&self, limit: usize) -> (r: bool)
        ensures
            r == self@.within(limit as nat),
        decreases self,
    {
        Action::all_within(&self.actions, limit)
    }

    /// The fields of the JSON object that stands for the value.
    pub fn encode_fields(&self) -> (m: Object)
        ensures
            object_fields(m) == self@.encode_fields(),
        decreases self, 0nat,
    {
        let mut m = new_object();
        put(&mut m, "actions", array_value(Action::encode_all(&self.actions)));
        m
    }

    /// The JSON object that stands for the value.
    pub fn encode(&self) -> (v: Value)
        ensures
            value_json(v) == self@.encode_spec(),
        decreases self, 1nat,
    {
        object_value(self.encode_fields())
    }

    /// The value that the fields `m` stand for, with elements and actions
    /// nested no deeper than `limit`.
    pub fn decode_fields(m: &Object, limit: usize) -> (r: Result<ActionSet, DecodeError>)
        ensures
            decoded(r) == ActionSetView::decode_fields(object_fields(*m), limit as nat),
            r matches Ok(x) ==> x@.well_formed() && x@.within(limit as nat),
        decreases limit, 4nat, 0nat,
    {
        proof {
            ActionSetView::lemma_decoded(object_fields(*m), limit as nat);
        }
        let actions = Action::get_all(m, "actions", limit)?;
        Ok(ActionSet { actions })
    }

    /// The value that the JSON value `v` stands for, with elements and
    /// actions nested no deeper than `limit`.
    pub fn decode_within(v: &Value, limit: usize) -> (r: Result<ActionSet, DecodeError>)
        ensures
            decoded(r) == ActionSetView::decode_spec(value_json(*v), limit as nat),
            r matches Ok(x) ==> x@.well_formed() && x@.within(limit as nat),
        decreases limit, 4nat, 1nat,
    {
        let m = read_object(v)?;
        ActionSet::decode_fields(m, limit)
    }

    /// The value that the JSON value `v` stands for, with elements and
    /// actions nested no deeper than [`MAX_DEPTH`].
    pub fn decode(v: &Value) -> (r: Result<ActionSet, DecodeError>)
        ensures
            decoded(r) == ActionSetView::decode_spec(value_json(*v), MAX_DEPTH as nat),
            r matches Ok(x) ==> x@.well_formed() && x@.within(MAX_DEPTH as nat),
    {
        ActionSet::decode_within(v, MAX_DEPTH)
    }
}

/// An operation that the user of a card can invoke.
#[derive(Debug, PartialEq)]
pub enum Action {
    /// Opens an address.
    OpenUrl(OpenUrlAction),
    /// Submits the inputs.
    Submit(SubmitAction),
    /// Shows a card.
    ShowCard(ShowCardAction),
    /// Toggles the visibility of elements.
    ToggleVisibility(ToggleVisibilityAction),
}

/// The mathematical model of an [`Action`].
pub enum ActionView {
    OpenUrl(OpenUrlActionView),
    Submit(SubmitActionView),
    ShowCard(ShowCardActionView),
    ToggleVisibility(ToggleVisibilityActionView),
}

impl Action {
    /// The mathematical model of the action.
    pub open spec fn model(&self) -> ActionView
        decreases self,
    {
        match self {
            Action::OpenUrl(x) => ActionView::OpenUrl(x@),
            Action::Submit(x) => ActionView::Submit(x@),
            Action::ShowCard(x) => ActionView::ShowCard(x.model()),
            Action::ToggleVisibility(x) => ActionView::ToggleVisibility(x@),
        }
    }
}

impl View for Action {
    type V = ActionView;

    open spec fn view(&self) -> ActionView {
        self.model()
    }
}

impl Action {
    /// A copy of the action.
    pub fn duplicate(&self) -> (r: Action)
        ensures
            r@ == self@,
        decreases self,
    {
        match self {
            Action::OpenUrl(x) => Action::OpenUrl(x.clone()),
            Action::Submit(x) => Action::Submit(x.clone()),
            Action::ShowCard(x) => Action::ShowCard(x.duplicate()),
            Action::ToggleVisibility(x) => Action::ToggleVisibility(x.clone()),
        }
    }
}

impl Clone for Action {
    fn clone(&self) -> (r: Self)
        ensures
            r@ == self@,
    {
        self.duplicate()
    }
}

impl ActionView {
    /// The kind of the action, which its `type` announces.
    pub open spec fn kind(self) -> ActionKind {
        match self {
            ActionView::OpenUrl(_) => ActionKind::OpenUrl,
            ActionView::Submit(_) => ActionKind::Submit,
            ActionView::ShowCard(_) => ActionKind::ShowCard,
            ActionView::ToggleVisibility(_) => ActionKind::ToggleVisibility,
        }
    }

    /// Whether the action, and whatever it holds, is one that the wire format
    /// can express.
    pub open spec fn well_formed(self) -> bool
        decreases self,
    {
        match self {
            ActionView::Submit(x) => x.well_formed(),
            ActionView::ShowCard(x) => x.well_formed(),
            _ => true,
        }
    }

    /// Whether elements and actions are nested no deeper than `limit`, this
    /// action counted.
    pub open spec fn within(self, limit: nat) -> bool
        decreases self,
    {
        limit > 0 && match self {
            ActionView::ShowCard(x) => x.within((limit - 1) as nat),
            _ => true,
        }
    }

    /// The fields that the action is written as, but for its `type`.
    pub open spec fn fields(self) -> Fields
        decreases self, 2nat,
    {
        match self {
            ActionView::OpenUrl(x) => x.encode_fields(),
            ActionView::Submit(x) => x.encode_fields(),
            ActionView::ShowCard(x) => x.encode_fields(),
            ActionView::ToggleVisibility(x) => x.encode_fields(),
        }
    }

    /// The JSON value that the action is written as: an object of its fields,
    /// which says under `type` what it is.
    pub open spec fn encode_spec(self) -> Json
        decreases self, 3nat,
    {
        Json::Object(with(self.fields(), type_key(), token_json(self.kind())))
    }

    /// What the fields `m` are read as, for an action of the kind `kind`.
    pub open spec fn decode_variant(
        m: Fields,
        kind: ActionKind,
        limit: nat,
    ) -> Result<ActionView, DecodeErrorView>
        decreases limit, 7nat, 0nat,
    {
        match kind {
            ActionKind::OpenUrl => match OpenUrlActionView::decode_fields(m) {
                Ok(x) => Ok(ActionView::OpenUrl(x)),
                Err(e) => Err(e),
            },
            ActionKind::Submit => match SubmitActionView::decode_fields(m) {
                Ok(x) => Ok(ActionView::Submit(x)),
                Err(e) => Err(e),
            },
            ActionKind::ShowCard => match ShowCardActionView::decode_fields(m, limit) {
                Ok(x) => Ok(ActionView::ShowCard(x)),
                Err(e) => Err(e),
            },
            ActionKind::ToggleVisibility => match ToggleVisibilityActionView::decode_fields(m) {
                Ok(x) => Ok(ActionView::ToggleVisibility(x)),
                Err(e) => Err(e),
            },
        }
    }

    /// What the JSON value `j` is read as: it must be an object, its `type`
    /// says of which kind, and its fields are read for that kind. With a
    /// `limit` of 0 nothing is read.
    pub open spec fn decode_spec(j: Json, limit: nat) -> Result<ActionView, DecodeErrorView>
        decreases limit, 0nat, 1nat,
    {
        if limit == 0 {
            Err(failure(ErrorKind::RecursionTooDeep, None))
        } else {
            match j {
                Json::Object(m) => match kind_of::<ActionKind>(m) {
                    Ok(kind) => Self::decode_variant(m, kind, (limit - 1) as nat),
                    Err(e) => Err(e),
                },
                _ => Err(mismatch(j)),
            }
        }
    }

    /// How deep elements and actions are nested, this action counted.
    pub open spec fn nesting(self) -> nat
        decreases self, 0nat,
    {
        1 + match self {
            ActionView::ShowCard(x) => x.nesting(),
            _ => 0,
        }
    }

    /// An action that is within a limit is within every greater limit.
    pub proof fn lemma_within_more(self, limit: nat, more: nat)
        requires
            self.within(limit),
            limit <= more,
        ensures
            self.within(more),
        decreases self, 0nat,
    {
        let inner = (limit - 1) as nat;
        let outer = (more - 1) as nat;
        match self {
            ActionView::ShowCard(x) => x.lemma_within_more(inner, outer),
            _ => {},
        }
    }

    /// An action is within its nesting.
    pub proof fn lemma_within_nesting(self)
        ensures
            self.within(self.nesting()),
        decreases self, 1nat,
    {
        match self {
            ActionView::ShowCard(x) => x.lemma_within_nesting(),
            _ => {},
        }
    }

    /// What is read is well formed, and nested no deeper than `limit`.
    pub proof fn lemma_decoded_value(j: Json, limit: nat)
        ensures
            Self::decode_spec(j, limit) matches Ok(v) ==> v.well_formed() && v.within(limit),
        decreases limit, 0nat, 1nat,
    {
        let inner = (limit - 1) as nat;
        match j {
            Json::Object(m) => {
                if limit > 0 {
                    match kind_of::<ActionKind>(m) {
                        Ok(ActionKind::Submit) => SubmitActionView::lemma_decoded(m),
                        Ok(ActionKind::ShowCard) => ShowCardActionView::lemma_decoded(m, inner),
                        _ => {},
                    }
                }
            },
            _ => {},
        }
    }

    /// Reading what was written gives the action back.
    pub proof fn lemma_roundtrip(self, limit: nat)
        requires
            self.well_formed(),
            self.within(limit),
        ensures
            gives(Self::decode_spec(self.encode_spec(), limit), self),
        decreases self, 2nat,
    {
        let tag = Some(token_json(self.kind()));
        let inner = (limit - 1) as nat;
        lemma_tag_keeps(self.fields(), tag);
        lemma_reads_kind(with(self.fields(), type_key(), token_json(self.kind())), self.kind());
        match self {
            ActionView::OpenUrl(x) => x.lemma_roundtrip_tagged(tag),
            ActionView::Submit(x) => x.lemma_roundtrip_tagged(tag),
            ActionView::ShowCard(x) => x.lemma_roundtrip_tagged(tag, inner),
            ActionView::ToggleVisibility(x) => x.lemma_roundtrip_tagged(tag),
        }
    }

    /// A `type` that is none of the kinds is refused as an unknown tag,
    /// whatever else the object holds.
    pub proof fn lemma_unknown_tag(m: Fields, tag: Seq<char>, limit: nat)
        requires
            limit > 0,
            m.contains_key(type_key()),
            m[type_key()] == Json::Str(tag),
            ActionKind::parse_spec(tag) is None,
        ensures
            fails_with(Self::decode_spec(Json::Object(m), limit), unknown_tag(Json::Str(tag))),
    {
        reveal(kind_of);
    }
}

impl Action {
    /// Whether the action, and whatever it holds, is one that the wire format
    /// can express.
    pub fn is_well_formed(&self) -> (r: bool)
        ensures
            r == self@.well_formed(),
        decreases self,
    {
        match self {
            Action::Submit(x) => x.is_well_formed(),
            Action::ShowCard(x) => x.is_well_formed(),
            _ => true,
        }
    }

    /// Whether elements and actions are nested no deeper than `limit`, this
    /// action counted.
    pub fn is_within(&self, limit: usize) -> (r: bool)
        ensures
            r == self@.within(limit as nat),
        decreases self,
    {
        limit > 0 && match self {
            Action::ShowCard(x) => x.is_within(limit - 1),
            _ => true,
        }
    }

    /// The kind of the action, which its `type` announces.
    pub fn kind(&self) -> (kind: ActionKind)
        ensures
            kind == self@.kind(),
    {
        match self {
            Action::OpenUrl(_) => ActionKind::OpenUrl,
            Action::Submit(_) => ActionKind::Submit,
            Action::ShowCard(_) => ActionKind::ShowCard,
            Action::ToggleVisibility(_) => ActionKind::ToggleVisibility,
        }
    }

    /// The JSON object that stands for the action.
    pub fn encode(&self) -> (v: Value)
        ensures
            value_json(v) == self@.encode_spec(),
        decreases self, 3nat,
    {
        let mut m = match self {
            Action::OpenUrl(x) => x.encode_fields(),
            Action::Submit(x) => x.encode_fields(),
            Action::ShowCard(x) => x.encode_fields(),
            Action::ToggleVisibility(x) => x.encode_fields(),
        };
        put_token(&mut m, "type", self.kind());
        object_value(m)
    }

    /// The action that the JSON value `v` stands for, with elements and
    /// actions nested no deeper than `limit`, this one counted.
    pub fn decode_within(v: &Value, limit: usize) -> (r: Result<Action, DecodeError>)
        ensures
            decoded(r) == ActionView::decode_spec(value_json(*v), limit as nat),
            r matches Ok(x) ==> x@.well_formed() && x@.within(limit as nat),
        decreases limit, 0nat, 1nat,
    {
        proof {
            ActionView::lemma_decoded_value(value_json(*v), limit as nat);
        }
        if limit == 0 {
            return Err(DecodeError::bare(ErrorKind::RecursionTooDeep));
        }
        let m = read_object(v)?;
        let kind = get_kind::<ActionKind>(m)?;
        match kind {
            ActionKind::OpenUrl => Ok(Action::OpenUrl(OpenUrlAction::decode_fields(m)?)),
            ActionKind::Submit => Ok(Action::Submit(SubmitAction::decode_fields(m)?)),
            ActionKind::ShowCard => Ok(
                Action::ShowCard(ShowCardAction::decode_fields(m, limit - 1)?),
            ),
            ActionKind::ToggleVisibility => Ok(
                Action::ToggleVisibility(ToggleVisibilityAction::decode_fields(m)?),
            ),
        }
    }

    /// The action that the JSON value `v` stands for, with elements and
    /// actions nested no deeper than [`MAX_DEPTH`].
    pub fn decode(v: &Value) -> (r: Result<Action, DecodeError>)
        ensures
            decoded(r) == ActionView::decode_spec(value_json(*v), MAX_DEPTH as nat),
            r matches Ok(x) ==> x@.well_formed() && x@.within(MAX_DEPTH as nat),
    {
        Action::decode_within(v, MAX_DEPTH)
    }
}

impl ActionView {
    /// An action that shows a card holds under `card` what the card is
    /// written as on its own, and so does every card within that card.
    pub proof fn lemma_shown_card_is_written_whole(shown: ShowCardActionView)
        ensures
            ActionView::ShowCard(shown).encode_spec() is Object,
            ActionView::ShowCard(shown).encode_spec()->Object_0.contains_key("card"@),
            ActionView::ShowCard(shown).encode_spec()->Object_0["card"@]
                == shown.card.encode_spec(),
    {
        let action = ActionView::ShowCard(shown);
        shown.lemma_written();
        lemma_key_shapes();
        lemma_tag_keeps(action.fields(), Some(token_json(action.kind())));
    }
}

impl ActionView {
    /// Whether every one of the actions is one that the wire format can
    /// express.
    pub open spec fn all_well_formed(items: Seq<ActionView>) -> bool
        decreases items,
    {
        forall|i: int| 0 <= i < items.len() ==> (#[trigger] items[i]).well_formed()
    }

    /// Whether elements and actions are nested in every one of the actions no
    /// deeper than `limit`.
    pub open spec fn all_within(items: Seq<ActionView>, limit: nat) -> bool
        decreases items,
    {
        forall|i: int| 0 <= i < items.len() ==> (#[trigger] items[i]).within(limit)
    }

    /// The decoder of one action.
    pub open spec fn decoder(limit: nat) -> spec_fn(Json) -> Result<ActionView, DecodeErrorView>
        decreases limit, 0nat, 2nat,
    {
        |j: Json| Self::decode_spec(j, limit)
    }

    /// The JSON values that the actions are written as, in their order.
    pub open spec fn encode_all(items: Seq<ActionView>) -> Seq<Json>
        decreases items, 0nat,
    {
        Seq::new(
            items.len(),
            |i: int|
                if 0 <= i < items.len() {
                    items[i].encode_spec()
                } else {
                    Json::Null
                },
        )
    }

    /// What the JSON values `items` are read as: one action each, in their
    /// order.
    pub open spec fn decode_all(
        items: Seq<Json>,
        limit: nat,
    ) -> Result<Seq<ActionView>, DecodeErrorView>
        decreases limit, 0nat, 3nat,
    {
        decode_seq(items, Self::decoder(limit))
    }

    /// The actions of the field `key`, which must be there.
    pub open spec fn required_all(
        m: Fields,
        key: Seq<char>,
        limit: nat,
    ) -> Result<Seq<ActionView>, DecodeErrorView>
        decreases limit, 0nat, 4nat,
    {
        match required_array(m, key) {
            Ok(items) => in_key(Self::decode_all(items, limit), key),
            Err(e) => Err(e),
        }
    }

    /// The actions of the field `key`, if the field has a value.
    pub open spec fn optional_all(
        m: Fields,
        key: Seq<char>,
        limit: nat,
    ) -> Result<Option<Seq<ActionView>>, DecodeErrorView>
        decreases limit, 0nat, 4nat,
    {
        match optional_array(m, key) {
            Ok(Some(items)) => in_key(some(Self::decode_all(items, limit)), key),
            Ok(None) => Ok(None),
            Err(e) => Err(e),
        }
    }

    /// The JSON values that optional actions are written as.
    pub open spec fn opt_all(items: Option<Seq<ActionView>>) -> Option<Seq<Json>>
        decreases items, 0nat,
    {
        match items {
            Some(items) => Some(Self::encode_all(items)),
            None => None,
        }
    }

    /// Optional actions as an optional JSON array.
    pub open spec fn opt_all_json(items: Option<Seq<ActionView>>) -> Option<Json>
        decreases items, 1nat,
    {
        match Self::opt_all(items) {
            Some(items) => Some(Json::Array(items)),
            None => None,
        }
    }

    /// The action of the field `key`, if the field has a value.
    pub open spec fn optional(
        m: Fields,
        key: Seq<char>,
        limit: nat,
    ) -> Result<Option<ActionView>, DecodeErrorView>
        decreases limit, 0nat, 4nat,
    {
        match field(m, key) {
            Some(j) => in_key(some(Self::decode_spec(j, limit)), key),
            None => Ok(None),
        }
    }

    /// An optional action as an optional JSON value.
    pub open spec fn opt_json(v: Option<ActionView>) -> Option<Json>
        decreases v, 0nat,
    {
        match v {
            Some(v) => Some(v.encode_spec()),
            None => None,
        }
    }

    /// How deep elements and actions are nested in the first `n` of the
    /// actions.
    pub open spec fn nesting_upto(items: Seq<ActionView>, n: nat) -> nat
        decreases items, n,
    {
        if n == 0 || n > items.len() {
            0
        } else {
            larger(Self::nesting_upto(items, (n - 1) as nat), items[n - 1].nesting())
        }
    }

    /// How deep elements and actions are nested in the actions.
    pub open spec fn nesting_all(items: Seq<ActionView>) -> nat
        decreases items, items.len() + 1,
    {
        Self::nesting_upto(items, items.len())
    }

    /// Each of the first `n` of the actions is nested no deeper than they are
    /// together.
    pub proof fn lemma_nesting_upto(items: Seq<ActionView>, n: nat, i: int)
        requires
            0 <= i < n <= items.len(),
        ensures
            items[i].nesting() <= Self::nesting_upto(items, n),
        decreases n,
    {
        if i < n - 1 {
            Self::lemma_nesting_upto(items, (n - 1) as nat, i);
        }
    }

    /// Actions that are within a limit are within every greater limit.
    pub proof fn lemma_all_within_more(items: Seq<ActionView>, limit: nat, more: nat)
        requires
            Self::all_within(items, limit),
            limit <= more,
        ensures
            Self::all_within(items, more),
        decreases items, 0nat,
    {
        assert forall|i: int| 0 <= i < items.len() implies (#[trigger] items[i]).within(more) by {
            items[i].lemma_within_more(limit, more);
        }
    }

    /// Actions are within their nesting.
    pub proof fn lemma_all_within_nesting(items: Seq<ActionView>)
        ensures
            Self::all_within(items, Self::nesting_all(items)),
        decreases items, 0nat,
    {
        let limit = Self::nesting_all(items);
        assert forall|i: int| 0 <= i < items.len() implies (#[trigger] items[i]).within(limit) by {
            Self::lemma_nesting_upto(items, items.len(), i);
            items[i].lemma_within_nesting();
            items[i].lemma_within_more(items[i].nesting(), limit);
        }
    }

    /// How deep elements and actions are nested in optional actions.
    pub open spec fn nesting_opt_all(items: Option<Seq<ActionView>>) -> nat
        decreases items, 0nat,
    {
        match items {
            Some(items) => Self::nesting_all(items),
            None => 0,
        }
    }

    /// How deep elements and actions are nested in an optional action.
    pub open spec fn nesting_opt(v: Option<ActionView>) -> nat
        decreases v, 0nat,
    {
        match v {
            Some(v) => v.nesting(),
            None => 0,
        }
    }

    /// The actions that are read are well formed, and nested no deeper than
    /// `limit`.
    pub proof fn lemma_decoded_all(items: Seq<Json>, limit: nat)
        ensures
            Self::decode_all(items, limit) matches Ok(values)
                ==> Self::all_well_formed(values) && Self::all_within(values, limit),
        decreases limit, 0nat, 3nat,
    {
        lemma_decode_seq_each(items, Self::decoder(limit));
        match Self::decode_all(items, limit) {
            Ok(values) => {
                assert forall|i: int| 0 <= i < values.len() implies
                    (#[trigger] values[i]).well_formed() && values[i].within(limit) by {
                    Self::lemma_decoded_value(items[i], limit);
                }
            },
            Err(_) => {},
        }
    }

    /// The actions that are read of a field are well formed, and nested no
    /// deeper than `limit`.
    pub proof fn lemma_decoded_field(m: Fields, key: Seq<char>, limit: nat)
        ensures
            Self::required_all(m, key, limit) matches Ok(items)
                ==> Self::all_well_formed(items) && Self::all_within(items, limit),
        decreases limit, 0nat, 4nat,
    {
        match required_array(m, key) {
            Ok(items) => Self::lemma_decoded_all(items, limit),
            Err(_) => {},
        }
    }

    /// The actions that are read of an optional field are well formed, and
    /// nested no deeper than `limit`.
    pub proof fn lemma_decoded_opt_field(m: Fields, key: Seq<char>, limit: nat)
        ensures
            Self::optional_all(m, key, limit) matches Ok(Some(items))
                ==> Self::all_well_formed(items) && Self::all_within(items, limit),
        decreases limit, 0nat, 4nat,
    {
        match optional_array(m, key) {
            Ok(Some(items)) => Self::lemma_decoded_all(items, limit),
            _ => {},
        }
    }

    /// The action that is read of an optional field is well formed, and
    /// nested no deeper than `limit`.
    pub proof fn lemma_decoded_optional(m: Fields, key: Seq<char>, limit: nat)
        ensures
            Self::optional(m, key, limit) matches Ok(Some(v))
                ==> v.well_formed() && v.within(limit),
        decreases limit, 0nat, 4nat,
    {
        match field(m, key) {
            Some(j) => Self::lemma_decoded_value(j, limit),
            None => {},
        }
    }

    /// Reading what was written for a sequence of actions gives the sequence
    /// back.
    pub proof fn lemma_roundtrip_all(items: Seq<ActionView>, limit: nat)
        requires
            Self::all_well_formed(items),
            Self::all_within(items, limit),
        ensures
            gives(Self::decode_all(Self::encode_all(items), limit), items),
        decreases items, 0nat,
    {
        let written = Self::encode_all(items);
        assert forall|i: int| 0 <= i < items.len() implies gives(
            Self::decoder(limit)(#[trigger] written[i]),
            items[i],
        ) by {
            items[i].lemma_roundtrip(limit);
        }
        lemma_decode_seq_all(items, written, Self::decoder(limit));
    }
}

impl Action {
    /// The models of a sequence of actions.
    pub open spec fn views(items: Seq<Action>) -> Seq<ActionView>
        decreases items,
    {
        Seq::new(
            items.len(),
            |i: int|
                if 0 <= i < items.len() {
                    items[i].model()
                } else {
                    arbitrary()
                },
        )
    }

    /// The models of an optional sequence of actions.
    pub open spec fn opt_views(items: Option<Vec<Action>>) -> Option<Seq<ActionView>>
        decreases items,
    {
        match items {
            Some(items) => Some(Self::views(items@)),
            None => None,
        }
    }

    /// The model of an optional action.
    pub open spec fn opt_view(v: Option<Box<Action>>) -> Option<ActionView>
        decreases v,
    {
        match v {
            Some(v) => Some(v.model()),
            None => None,
        }
    }

    /// Whether every one of the actions is one that the wire format can
    /// express.
    #[verifier::loop_isolation(false)]
    pub fn all_well_formed(items: &Vec<Action>) -> (r: bool)
        ensures
            r == ActionView::all_well_formed(Action::views(items@)),
        decreases items,
    {
        let mut i: usize = 0;
        while i < items.len()
            invariant
                i <= items.len(),
                forall|k: int| 0 <= k < i ==> (#[trigger] Action::views(items@)[k]).well_formed(),
            decreases items.len() - i,
        {
            if !items[i].is_well_formed() {
                assert(!Action::views(items@)[i as int].well_formed());
                return false;
            }
            i += 1;
        }
        true
    }

    /// Whether elements and actions are nested in every one of the actions no
    /// deeper than `limit`.
    #[verifier::loop_isolation(false)]
    pub fn all_within(items: &Vec<Action>, limit: usize) -> (r: bool)
        ensures
            r == ActionView::all_within(Action::views(items@), limit as nat),
        decreases items,
    {
        let mut i: usize = 0;
        while i < items.len()
            invariant
                i <= items.len(),
                forall|k: int|
                    0 <= k < i ==> (#[trigger] Action::views(items@)[k]).within(limit as nat),
            decreases items.len() - i,
        {
            if !items[i].is_within(limit) {
                assert(!Action::views(items@)[i as int].within(limit as nat));
                return false;
            }
            i += 1;
        }
        true
    }

    /// Copies of the actions, in their order.
    #[verifier::loop_isolation(false)]
    pub fn clone_all(items: &Vec<Action>) -> (out: Vec<Action>)
        ensures
            Action::views(out@) == Action::views(items@),
        decreases items,
    {
        let mut out: Vec<Action> = Vec::new();
        let mut i: usize = 0;
        while i < items.len()
            invariant
                i <= items.len(),
                out@.len() == i,
                forall|k: int| 0 <= k < i ==> (#[trigger] out@[k])@ == items@[k]@,
            decreases items.len() - i,
        {
            out.push(items[i].duplicate());
            i += 1;
        }
        assert(Action::views(out@) =~= Action::views(items@));
        out
    }

    /// Copies of the actions, where there are any.
    pub(crate) fn clone_opt_all(items: &Option<Vec<Action>>) -> (out: Option<Vec<Action>>)
        ensures
            Action::opt_views(out) == Action::opt_views(*items),
        decreases items,
    {
        match items {
            Some(items) => Some(Action::clone_all(items)),
            None => None,
        }
    }

    /// A copy of the action, where there is one.
    pub(crate) fn clone_opt_boxed(v: &Option<Box<Action>>) -> (r: Option<Box<Action>>)
        ensures
            Action::opt_view(r) == Action::opt_view(*v),
        decreases v,
    {
        match v {
            Some(v) => Some(Box::new(v.duplicate())),
            None => None,
        }
    }

    /// The JSON values that stand for the actions, in their order.
    #[verifier::loop_isolation(false)]
    pub fn encode_all(items: &Vec<Action>) -> (out: Vec<Value>)
        ensures
            values_json(out@) == ActionView::encode_all(Action::views(items@)),
        decreases items, 0nat,
    {
        let mut out: Vec<Value> = Vec::new();
        let mut i: usize = 0;
        while i < items.len()
            invariant
                i <= items.len(),
                out@.len() == i,
                forall|k: int|
                    0 <= k < i ==> value_json(#[trigger] out@[k]) == items@[k]@.encode_spec(),
            decreases items.len() - i,
        {
            out.push(items[i].encode());
            i += 1;
        }
        assert(values_json(out@) =~= ActionView::encode_all(Action::views(items@)));
        out
    }

    /// The actions that the JSON values `items` stand for, in their order,
    /// nested no deeper than `limit`.
    #[verifier::loop_isolation(false)]
    pub fn decode_all(items: &Vec<Value>, limit: usize) -> (r: Result<Vec<Action>, DecodeError>)
        ensures
            match r {
                Ok(out) => gives(
                    ActionView::decode_all(values_json(items@), limit as nat),
                    Action::views(out@),
                ),
                Err(e) => fails_with(ActionView::decode_all(values_json(items@), limit as nat), e@),
            },
        decreases limit, 0nat, 3nat,
    {
        let ghost all = values_json(items@);
        let ghost each = ActionView::decoder(limit as nat);
        let mut out: Vec<Action> = Vec::new();
        let mut i: usize = 0;
        proof {
            lemma_decode_seq_empty(each);
            assert(Action::views(out@) =~= Seq::empty());
            assert(all.take(0) =~= Seq::empty());
        }
        while i < items.len()
            invariant
                i <= items.len(),
                gives(decode_seq(all.take(i as int), each), Action::views(out@)),
            decreases items.len() - i,
        {
            proof {
                lemma_decode_seq_next(all, i as int, each);
            }
            match Action::decode_within(&items[i], limit) {
                Ok(item) => {
                    proof {
                        assert(Action::views(out@.push(item))
                            =~= Action::views(out@).push(item@));
                    }
                    out.push(item);
                },
                Err(e) => {
                    proof {
                        lemma_decode_seq_fails(all, i + 1, each);
                    }
                    return Err(e.under_index(i));
                },
            }
            i += 1;
        }
        assert(all.take(items.len() as int) =~= all);
        Ok(out)
    }

    /// The actions of the field `key`, which must be there.
    pub(crate) fn get_all(
        m: &Object,
        key: &'static str,
        limit: usize,
    ) -> (r: Result<Vec<Action>, DecodeError>)
        ensures
            match r {
                Ok(out) => gives(
                    ActionView::required_all(object_fields(*m), key@, limit as nat),
                    Action::views(out@),
                ),
                Err(e) => fails_with(
                    ActionView::required_all(object_fields(*m), key@, limit as nat),
                    e@,
                ),
            },
        decreases limit, 0nat, 4nat,
    {
        let items = get_array(m, key)?;
        match Action::decode_all(items, limit) {
            Ok(out) => Ok(out),
            Err(e) => Err(e.under_key(key)),
        }
    }

    /// The actions of the field `key`, if the field has a value.
    pub(crate) fn get_opt_all(
        m: &Object,
        key: &'static str,
        limit: usize,
    ) -> (r: Result<Option<Vec<Action>>, DecodeError>)
        ensures
            match r {
                Ok(out) => gives(
                    ActionView::optional_all(object_fields(*m), key@, limit as nat),
                    Action::opt_views(out),
                ),
                Err(e) => fails_with(
                    ActionView::optional_all(object_fields(*m), key@, limit as nat),
                    e@,
                ),
            },
        decreases limit, 0nat, 4nat,
    {
        match get_opt_array(m, key)? {
            Some(items) => match Action::decode_all(items, limit) {
                Ok(out) => Ok(Some(out)),
                Err(e) => Err(e.under_key(key)),
            },
            None => Ok(None),
        }
    }

    /// The JSON array that stands for the actions, where there are any.
    pub(crate) fn encode_opt_all(items: &Option<Vec<Action>>) -> (r: Option<Value>)
        ensures
            opt_value(r) == ActionView::opt_all_json(Action::opt_views(*items)),
        decreases items, 1nat,
    {
        match items {
            Some(items) => Some(array_value(Action::encode_all(items))),
            None => None,
        }
    }

    /// The JSON value that stands for the action, where there is one.
    pub(crate) fn encode_opt_boxed(v: &Option<Box<Action>>) -> (r: Option<Value>)
        ensures
            opt_value(r) == ActionView::opt_json(Action::opt_view(*v)),
        decreases v, 0nat,
    {
        match v {
            Some(v) => Some(v.encode()),
            None => None,
        }
    }

    /// The action of the field `key`, if the field has a value.
    pub(crate) fn get_opt_boxed(
        m: &Object,
        key: &'static str,
        limit: usize,
    ) -> (r: Result<Option<Box<Action>>, DecodeError>)
        ensures
            match r {
                Ok(v) => gives(
                    ActionView::optional(object_fields(*m), key@, limit as nat),
                    Action::opt_view(v),
                ),
                Err(e) => fails_with(
                    ActionView::optional(object_fields(*m), key@, limit as nat),
                    e@,
                ),
            },
        decreases limit, 0nat, 4nat,
    {
        match find(m, key) {
            Some(v) => match Action::decode_within(v, limit) {
                Ok(v) => Ok(Some(Box::new(v))),
                Err(e) => Err(e.under_key(key)),
            },
            None => Ok(None),
        }
    }
}

/// Opens an address when invoked.
#[derive(Debug, PartialEq)]
pub struct OpenUrlAction {
    /// The label of the button or link that stands for the action.
    pub title: Option<String>,
    /// The address to open.
    pub url: String,
    /// A unique identifier of the action.
    pub id: Option<String>,
    /// The icon shown beside the title.
    pub icon_url: Option<String>,
    /// The style of the action.
    pub style: Option<ActionStyle>,
    /// The text shown while the pointer hovers over the action.
    pub tooltip: Option<String>,
    /// Whether the action is enabled.
    pub is_enabled: Option<bool>,
    /// Whether the action is a button or sits in the overflow menu.
    pub mode: Option<ActionMode>,
}

/// The mathematical model of an [`OpenUrlAction`].
pub struct OpenUrlActionView {
    pub title: Option<Seq<char>>,
    pub url: Seq<char>,
    pub id: Option<Seq<char>>,
    pub icon_url: Option<Seq<char>>,
    pub style: Option<ActionStyle>,
    pub tooltip: Option<Seq<char>>,
    pub is_enabled: Option<bool>,
    pub mode: Option<ActionMode>,
}

impl View for OpenUrlAction {
    type V = OpenUrlActionView;

    open spec fn view(&self) -> OpenUrlActionView {
        OpenUrlActionView {
            title: self.title.deep_view(),
            url: self.url@,
            id: self.id.deep_view(),
            icon_url: self.icon_url.deep_view(),
            style: self.style,
            tooltip: self.tooltip.deep_view(),
            is_enabled: self.is_enabled,
            mode: self.mode,
        }
    }
}

impl Clone for OpenUrlAction {
    fn clone(&self) -> (r: Self)
        ensures
            r@ == self@,
    {
        OpenUrlAction {
            title: clone_opt_text(&self.title),
            url: self.url.clone(),
            id: clone_opt_text(&self.id),
            icon_url: clone_opt_text(&self.icon_url),
            style: self.style,
            tooltip: clone_opt_text(&self.tooltip),
            is_enabled: self.is_enabled,
            mode: self.mode,
        }
    }
}

impl OpenUrlActionView {
    /// Whether `key` is the key of one of the fields.
    pub open spec fn is_key(key: Seq<char>) -> bool {
        ||| key == "title"@
        ||| key == "url"@
        ||| key == "id"@
        ||| key == "iconUrl"@
        ||| key == "style"@
        ||| key == "tooltip"@
        ||| key == "isEnabled"@
        ||| key == "mode"@
    }

    /// The fields that the value is written as.
    pub open spec fn encode_fields(self) -> Fields {
        let m = no_fields();
        let m = with_opt(m, "title"@, opt_text_json(self.title));
        let m = with(m, "url"@, Json::Str(self.url));
        let m = with_opt(m, "id"@, opt_text_json(self.id));
        let m = with_opt(m, "iconUrl"@, opt_text_json(self.icon_url));
        let m = with_opt(m, "style"@, opt_token_json(self.style));
        let m = with_opt(m, "tooltip"@, opt_text_json(self.tooltip));
        let m = with_opt(m, "isEnabled"@, opt_bool_json(self.is_enabled));
        let m = with_opt(m, "mode"@, opt_token_json(self.mode));
        m
    }

    /// The JSON value that the value is written as: an object of its fields.
    pub open spec fn encode_spec(self) -> Json {
        Json::Object(self.encode_fields())
    }

    /// What the fields `m` are read as: the fields are read in their order,
    /// and the first that cannot be read decides the error.
    pub open spec fn decode_fields(m: Fields) -> Result<OpenUrlActionView, DecodeErrorView> {
        let title = optional_text(m, "title"@);
        let url = required_text(m, "url"@);
        let id = optional_text(m, "id"@);
        let icon_url = optional_text(m, "iconUrl"@);
        let style = optional_token::<ActionStyle>(m, "style"@);
        let tooltip = optional_text(m, "tooltip"@);
        let is_enabled = optional_bool(m, "isEnabled"@);
        let mode = optional_token::<ActionMode>(m, "mode"@);
        if title is Err {
            Err(title->Err_0)
        } else if url is Err {
            Err(url->Err_0)
        } else if id is Err {
            Err(id->Err_0)
        } else if icon_url is Err {
            Err(icon_url->Err_0)
        } else if style is Err {
            Err(style->Err_0)
        } else if tooltip is Err {
            Err(tooltip->Err_0)
        } else if is_enabled is Err {
            Err(is_enabled->Err_0)
        } else if mode is Err {
            Err(mode->Err_0)
        } else {
            Ok(
                OpenUrlActionView {
                    title: title->Ok_0,
                    url: url->Ok_0,
                    id: id->Ok_0,
                    icon_url: icon_url->Ok_0,
                    style: style->Ok_0,
                    tooltip: tooltip->Ok_0,
                    is_enabled: is_enabled->Ok_0,
                    mode: mode->Ok_0,
                },
            )
        }
    }

    /// What the JSON value `j` is read as: it must be an object, and its
    /// fields are read.
    pub open spec fn decode_spec(j: Json) -> Result<OpenUrlActionView, DecodeErrorView> {
        match j {
            Json::Object(m) => Self::decode_fields(m),
            _ => Err(mismatch(j)),
        }
    }

    /// What is written: every field that must be there, every other field
    /// exactly where it has a value, and each with its value.
    pub proof fn lemma_written(self)
        ensures
            self.encode_fields().contains_key("title"@) <==> self.title is Some,
            self.title matches Some(x) ==> self.encode_fields()["title"@] == Json::Str(x),
            self.encode_fields().contains_key("url"@),
            self.encode_fields()["url"@] == Json::Str(self.url),
            self.encode_fields().contains_key("id"@) <==> self.id is Some,
            self.id matches Some(x) ==> self.encode_fields()["id"@] == Json::Str(x),
            self.encode_fields().contains_key("iconUrl"@) <==> self.icon_url is Some,
            self.icon_url matches Some(x) ==> self.encode_fields()["iconUrl"@] == Json::Str(x),
            self.encode_fields().contains_key("style"@) <==> self.style is Some,
            self.style matches Some(x) ==> self.encode_fields()["style"@] == token_json(x),
            self.encode_fields().contains_key("tooltip"@) <==> self.tooltip is Some,
            self.tooltip matches Some(x) ==> self.encode_fields()["tooltip"@] == Json::Str(x),
            self.encode_fields().contains_key("isEnabled"@) <==> self.is_enabled is Some,
            self.is_enabled matches Some(x) ==> self.encode_fields()["isEnabled"@] == Json::Bool(x),
            self.encode_fields().contains_key("mode"@) <==> self.mode is Some,
            self.mode matches Some(x) ==> self.encode_fields()["mode"@] == token_json(x),
    {
        lemma_with_opt();
        lemma_key_shapes();
    }

    /// Nothing else is written: every key is that of a field, and none holds
    /// `null`.
    pub proof fn lemma_written_keys(self, key: Seq<char>)
        requires
            self.encode_fields().contains_key(key),
        ensures
            Self::is_key(key),
            !(self.encode_fields()[key] is Null),
    {
        lemma_with_opt();
    }

    /// Reading what was written gives the value back, also where the object
    /// says under `type` what it is.
    pub proof fn lemma_roundtrip_tagged(self, tag: Option<Json>)
        ensures
            gives(Self::decode_fields(with_opt(self.encode_fields(), type_key(), tag)), self),
    {
        self.lemma_written();
        lemma_key_shapes();
        lemma_tag_keeps(self.encode_fields(), tag);
        let m = with_opt(self.encode_fields(), type_key(), tag);
        lemma_reads_opt_text(m, "title"@, self.title);
        lemma_reads_text(m, "url"@, self.url);
        lemma_reads_opt_text(m, "id"@, self.id);
        lemma_reads_opt_text(m, "iconUrl"@, self.icon_url);
        lemma_reads_opt_token(m, "style"@, self.style);
        lemma_reads_opt_text(m, "tooltip"@, self.tooltip);
        lemma_reads_opt_bool(m, "isEnabled"@, self.is_enabled);
        lemma_reads_opt_token(m, "mode"@, self.mode);
    }

    /// Reading what was written gives the value back.
    pub proof fn lemma_roundtrip(self)
        ensures
            gives(Self::decode_fields(self.encode_fields()), self),
            gives(Self::decode_spec(self.encode_spec()), self),
    {
        lemma_with_none(self.encode_fields(), type_key());
        self.lemma_roundtrip_tagged(None);
    }
}

impl OpenUrlAction {
    /// The fields of the JSON object that stands for the value.
    pub fn encode_fields(&self) -> (m: Object)
        ensures
            object_fields(m) == self@.encode_fields(),
    {
        let mut m = new_object();
        put_opt_text(&mut m, "title", &self.title);
        put_text(&mut m, "url", self.url.as_str());
        put_opt_text(&mut m, "id", &self.id);
        put_opt_text(&mut m, "iconUrl", &self.icon_url);
        put_opt_token(&mut m, "style", self.style);
        put_opt_text(&mut m, "tooltip", &self.tooltip);
        put_opt_bool(&mut m, "isEnabled", self.is_enabled);
        put_opt_token(&mut m, "mode", self.mode);
        m
    }

    /// The JSON object that stands for the value.
    pub fn encode(&self) -> (v: Value)
        ensures
            value_json(v) == self@.encode_spec(),
    {
        object_value(self.encode_fields())
    }

    /// The value that the fields `m` stand for.
    pub fn decode_fields(m: &Object) -> (r: Result<OpenUrlAction, DecodeError>)
        ensures
            decoded(r) == OpenUrlActionView::decode_fields(object_fields(*m)),
    {
        let title = get_opt_text(m, "title")?;
        let url = get_text(m, "url")?;
        let id = get_opt_text(m, "id")?;
        let icon_url = get_opt_text(m, "iconUrl")?;
        let style = get_opt_token::<ActionStyle>(m, "style")?;
        let tooltip = get_opt_text(m, "tooltip")?;
        let is_enabled = get_opt_bool(m, "isEnabled")?;
        let mode = get_opt_token::<ActionMode>(m, "mode")?;
        Ok(
            OpenUrlAction {
                title,
                url,
                id,
                icon_url,
                style,
                tooltip,
                is_enabled,
                mode,
            },
        )
    }

    /// The value that the JSON value `v` stands for.
    pub fn decode(v: &Value) -> (r: Result<OpenUrlAction, DecodeError>)
        ensures
            decoded(r) == OpenUrlActionView::decode_spec(value_json(*v)),
    {
        let m = read_object(v)?;
        OpenUrlAction::decode_fields(m)
    }
}

/// Gathers the inputs, merges them with `data` and sends them to the client.
#[derive(Debug, PartialEq)]
pub struct SubmitAction {
    /// The label of the button or link that stands for the action.
    pub title: Option<String>,
    /// Data that the inputs are merged with: hidden properties, so to speak.
    pub data: Option<Value>,
    /// Which inputs are submitted with the action.
    pub associated_inputs: Option<AssociatedInputs>,
    /// A unique identifier of the action.
    pub id: Option<String>,
    /// The icon shown beside the title.
    pub icon_url: Option<String>,
    /// The style of the action.
    pub style: Option<ActionStyle>,
    /// The text shown while the pointer hovers over the action.
    pub tooltip: Option<String>,
    /// Whether the action is enabled.
    pub is_enabled: Option<bool>,
    /// Whether the action is a button or sits in the overflow menu.
    pub mode: Option<ActionMode>,
}

/// The mathematical model of a [`SubmitAction`].
pub struct SubmitActionView {
    pub title: Option<Seq<char>>,
    pub data: Option<Json>,
    pub associated_inputs: Option<AssociatedInputs>,
    pub id: Option<Seq<char>>,
    pub icon_url: Option<Seq<char>>,
    pub style: Option<ActionStyle>,
    pub tooltip: Option<Seq<char>>,
    pub is_enabled: Option<bool>,
    pub mode: Option<ActionMode>,
}

impl View for SubmitAction {
    type V = SubmitActionView;

    open spec fn view(&self) -> SubmitActionView {
        SubmitActionView {
            title: self.title.deep_view(),
            data: opt_value(self.data),
            associated_inputs: self.associated_inputs,
            id: self.id.deep_view(),
            icon_url: self.icon_url.deep_view(),
            style: self.style,
            tooltip: self.tooltip.deep_view(),
            is_enabled: self.is_enabled,
            mode: self.mode,
        }
    }
}

impl Clone for SubmitAction {
    fn clone(&self) -> (r: Self)
        ensures
            r@ == self@,
    {
        SubmitAction {
            title: clone_opt_text(&self.title),
            data: clone_opt_json(&self.data),
            associated_inputs: self.associated_inputs,
            id: clone_opt_text(&self.id),
            icon_url: clone_opt_text(&self.icon_url),
            style: self.style,
            tooltip: clone_opt_text(&self.tooltip),
            is_enabled: self.is_enabled,
            mode: self.mode,
        }
    }
}

impl SubmitActionView {
    /// Whether the value, and whatever it holds, is one that the wire format
    /// can express: `data` is not `null`.
    pub open spec fn well_formed(self) -> bool
        decreases self,
    {
        &&& !(self.data matches Some(j) && j is Null)
    }

    /// Whether `key` is the key of one of the fields.
    pub open spec fn is_key(key: Seq<char>) -> bool {
        ||| key == "title"@
        ||| key == "data"@
        ||| key == "associatedInputs"@
        ||| key == "id"@
        ||| key == "iconUrl"@
        ||| key == "style"@
        ||| key == "tooltip"@
        ||| key == "isEnabled"@
        ||| key == "mode"@
    }

    /// The fields that the value is written as.
    pub open spec fn encode_fields(self) -> Fields {
        let m = no_fields();
        let m = with_opt(m, "title"@, opt_text_json(self.title));
        let m = with_opt(m, "data"@, opt_json(self.data));
        let m = with_opt(m, "associatedInputs"@, opt_token_json(self.associated_inputs));
        let m = with_opt(m, "id"@, opt_text_json(self.id));
        let m = with_opt(m, "iconUrl"@, opt_text_json(self.icon_url));
        let m = with_opt(m, "style"@, opt_token_json(self.style));
        let m = with_opt(m, "tooltip"@, opt_text_json(self.tooltip));
        let m = with_opt(m, "isEnabled"@, opt_bool_json(self.is_enabled));
        let m = with_opt(m, "mode"@, opt_token_json(self.mode));
        m
    }

    /// The JSON value that the value is written as: an object of its fields.
    pub open spec fn encode_spec(self) -> Json {
        Json::Object(self.encode_fields())
    }

    /// What the fields `m` are read as: the fields are read in their order,
    /// and the first that cannot be read decides the error.
    pub open spec fn decode_fields(m: Fields) -> Result<SubmitActionView, DecodeErrorView> {
        let title = optional_text(m, "title"@);
        let data = optional_json(m, "data"@);
        let associated_inputs = optional_token::<AssociatedInputs>(m, "associatedInputs"@);
        let id = optional_text(m, "id"@);
        let icon_url = optional_text(m, "iconUrl"@);
        let style = optional_token::<ActionStyle>(m, "style"@);
        let tooltip = optional_text(m, "tooltip"@);
        let is_enabled = optional_bool(m, "isEnabled"@);
        let mode = optional_token::<ActionMode>(m, "mode"@);
        if title is Err {
            Err(title->Err_0)
        } else if data is Err {
            Err(data->Err_0)
        } else if associated_inputs is Err {
            Err(associated_inputs->Err_0)
        } else if id is Err {
            Err(id->Err_0)
        } else if icon_url is Err {
            Err(icon_url->Err_0)
        } else if style is Err {
            Err(style->Err_0)
        } else if tooltip is Err {
            Err(tooltip->Err_0)
        } else if is_enabled is Err {
            Err(is_enabled->Err_0)
        } else if mode is Err {
            Err(mode->Err_0)
        } else {
            Ok(
                SubmitActionView {
                    title: title->Ok_0,
                    data: data->Ok_0,
                    associated_inputs: associated_inputs->Ok_0,
                    id: id->Ok_0,
                    icon_url: icon_url->Ok_0,
                    style: style->Ok_0,
                    tooltip: tooltip->Ok_0,
                    is_enabled: is_enabled->Ok_0,
                    mode: mode->Ok_0,
                },
            )
        }
    }

    /// What the JSON value `j` is read as: it must be an object, and its
    /// fields are read.
    pub open spec fn decode_spec(j: Json) -> Result<SubmitActionView, DecodeErrorView> {
        match j {
            Json::Object(m) => Self::decode_fields(m),
            _ => Err(mismatch(j)),
        }
    }

    /// What is written: every field that must be there, every other field
    /// exactly where it has a value, and each with its value.
    pub proof fn lemma_written(self)
        ensures
            self.encode_fields().contains_key("title"@) <==> self.title is Some,
            self.title matches Some(x) ==> self.encode_fields()["title"@] == Json::Str(x),
            self.encode_fields().contains_key("data"@)
                <==> (self.data matches Some(j) && !(j is Null)),
            self.data matches Some(x) ==> x is Null || self.encode_fields()["data"@] == x,
            self.encode_fields().contains_key("associatedInputs"@)
                <==> self.associated_inputs is Some,
            self.associated_inputs matches Some(x)
                ==> self.encode_fields()["associatedInputs"@] == token_json(x),
            self.encode_fields().contains_key("id"@) <==> self.id is Some,
            self.id matches Some(x) ==> self.encode_fields()["id"@] == Json::Str(x),
            self.encode_fields().contains_key("iconUrl"@) <==> self.icon_url is Some,
            self.icon_url matches Some(x) ==> self.encode_fields()["iconUrl"@] == Json::Str(x),
            self.encode_fields().contains_key("style"@) <==> self.style is Some,
            self.style matches Some(x) ==> self.encode_fields()["style"@] == token_json(x),
            self.encode_fields().contains_key("tooltip"@) <==> self.tooltip is Some,
            self.tooltip matches Some(x) ==> self.encode_fields()["tooltip"@] == Json::Str(x),
            self.encode_fields().contains_key("isEnabled"@) <==> self.is_enabled is Some,
            self.is_enabled matches Some(x) ==> self.encode_fields()["isEnabled"@] == Json::Bool(x),
            self.encode_fields().contains_key("mode"@) <==> self.mode is Some,
            self.mode matches Some(x) ==> self.encode_fields()["mode"@] == token_json(x),
    {
        lemma_with_opt();
        lemma_key_shapes();
    }

    /// Nothing else is written: every key is that of a field, and none holds
    /// `null`.
    pub proof fn lemma_written_keys(self, key: Seq<char>)
        requires
            self.encode_fields().contains_key(key),
        ensures
            Self::is_key(key),
            !(self.encode_fields()[key] is Null),
    {
        lemma_with_opt();
    }

    /// What is read is well formed.
    pub proof fn lemma_decoded(m: Fields)
        ensures
            Self::decode_fields(m) matches Ok(v) ==> v.well_formed(),
    {
        lemma_json_is_not_null(m, "data"@);
    }

    /// What is read of a JSON value is well formed.
    pub proof fn lemma_decoded_value(j: Json)
        ensures
            Self::decode_spec(j) matches Ok(v) ==> v.well_formed(),
    {
        match j {
            Json::Object(m) => Self::lemma_decoded(m),
            _ => {},
        }
    }

    /// Reading what was written gives the value back, also where the object
    /// says under `type` what it is.
    pub proof fn lemma_roundtrip_tagged(self, tag: Option<Json>)
        requires
            self.well_formed(),
        ensures
            gives(Self::decode_fields(with_opt(self.encode_fields(), type_key(), tag)), self),
    {
        self.lemma_written();
        lemma_key_shapes();
        lemma_tag_keeps(self.encode_fields(), tag);
        let m = with_opt(self.encode_fields(), type_key(), tag);
        lemma_reads_opt_text(m, "title"@, self.title);
        lemma_reads_opt_json(m, "data"@, self.data);
        lemma_reads_opt_token(m, "associatedInputs"@, self.associated_inputs);
        lemma_reads_opt_text(m, "id"@, self.id);
        lemma_reads_opt_text(m, "iconUrl"@, self.icon_url);
        lemma_reads_opt_token(m, "style"@, self.style);
        lemma_reads_opt_text(m, "tooltip"@, self.tooltip);
        lemma_reads_opt_bool(m, "isEnabled"@, self.is_enabled);
        lemma_reads_opt_token(m, "mode"@, self.mode);
    }

    /// Reading what was written gives the value back.
    pub proof fn lemma_roundtrip(self)
        requires
            self.well_formed(),
        ensures
            gives(Self::decode_fields(self.encode_fields()), self),
            gives(Self::decode_spec(self.encode_spec()), self),
    {
        lemma_with_none(self.encode_fields(), type_key());
        self.lemma_roundtrip_tagged(None);
    }
}

impl SubmitAction {
    /// Whether the value, and whatever it holds, is one that the wire format
    /// can express.
    pub fn is_well_formed(&self) -> (r: bool)
        ensures
            r == self@.well_formed(),
    {
        (match &self.data {
            Some(v) => !is_null(v),
            None => true,
        })
    }

    /// The fields of the JSON object that stands for the value.
    pub fn encode_fields(&self) -> (m: Object)
        ensures
            object_fields(m) == self@.encode_fields(),
    {
        let mut m = new_object();
        put_opt_text(&mut m, "title", &self.title);
        put_opt_json(&mut m, "data", &self.data);
        put_opt_token(&mut m, "associatedInputs", self.associated_inputs);
        put_opt_text(&mut m, "id", &self.id);
        put_opt_text(&mut m, "iconUrl", &self.icon_url);
        put_opt_token(&mut m, "style", self.style);
        put_opt_text(&mut m, "tooltip", &self.tooltip);
        put_opt_bool(&mut m, "isEnabled", self.is_enabled);
        put_opt_token(&mut m, "mode", self.mode);
        m
    }

    /// The JSON object that stands for the value.
    pub fn encode(&self) -> (v: Value)
        ensures
            value_json(v) == self@.encode_spec(),
    {
        object_value(self.encode_fields())
    }

    /// The value that the fields `m` stand for.
    pub fn decode_fields(m: &Object) -> (r: Result<SubmitAction, DecodeError>)
        ensures
            decoded(r) == SubmitActionView::decode_fields(object_fields(*m)),
            r matches Ok(x) ==> x@.well_formed(),
    {
        proof {
            SubmitActionView::lemma_decoded(object_fields(*m));
        }
        let title = get_opt_text(m, "title")?;
        let data = get_opt_json(m, "data");
        let associated_inputs = get_opt_token::<AssociatedInputs>(m, "associatedInputs")?;
        let id = get_opt_text(m, "id")?;
        let icon_url = get_opt_text(m, "iconUrl")?;
        let style = get_opt_token::<ActionStyle>(m, "style")?;
        let tooltip = get_opt_text(m, "tooltip")?;
        let is_enabled = get_opt_bool(m, "isEnabled")?;
        let mode = get_opt_token::<ActionMode>(m, "mode")?;
        Ok(
            SubmitAction {
                title,
                data,
                associated_inputs,
                id,
                icon_url,
                style,
                tooltip,
                is_enabled,
                mode,
            },
        )
    }

    /// The value that the JSON value `v` stands for.
    pub fn decode(v: &Value) -> (r: Result<SubmitAction, DecodeError>)
        ensures
            decoded(r) == SubmitActionView::decode_spec(value_json(*v)),
            r matches Ok(x) ==> x@.well_formed(),
    {
        let m = read_object(v)?;
        SubmitAction::decode_fields(m)
    }
}

/// Shows a card when invoked.
#[derive(Debug, PartialEq)]
pub struct ShowCardAction {
    /// The label of the button or link that stands for the action.
    pub title: Option<String>,
    /// The card to show.
    pub card: Box<AdaptiveCard>,
    /// A unique identifier of the action.
    pub id: Option<String>,
    /// The icon shown beside the title.
    pub icon_url: Option<String>,
    /// The style of the action.
    pub style: Option<ActionStyle>,
    /// The text shown while the pointer hovers over the action.
    pub tooltip: Option<String>,
    /// Whether the action is enabled.
    pub is_enabled: Option<bool>,
    /// Whether the action is a button or sits in the overflow menu.
    pub mode: Option<ActionMode>,
}

/// The mathematical model of a [`ShowCardAction`].
pub struct ShowCardActionView {
    pub title: Option<Seq<char>>,
    pub card: Box<AdaptiveCardView>,
    pub id: Option<Seq<char>>,
    pub icon_url: Option<Seq<char>>,
    pub style: Option<ActionStyle>,
    pub tooltip: Option<Seq<char>>,
    pub is_enabled: Option<bool>,
    pub mode: Option<ActionMode>,
}

impl ShowCardAction {
    /// The mathematical model of the value.
    pub open spec fn model(&self) -> ShowCardActionView
        decreases self,
    {
        ShowCardActionView {
            title: self.title.deep_view(),
            card: Box::new(self.card.model()),
            id: self.id.deep_view(),
            icon_url: self.icon_url.deep_view(),
            style: self.style,
            tooltip: self.tooltip.deep_view(),
            is_enabled: self.is_enabled,
            mode: self.mode,
        }
    }
}

impl View for ShowCardAction {
    type V = ShowCardActionView;

    open spec fn view(&self) -> ShowCardActionView {
        self.model()
    }
}

impl ShowCardAction {
    /// A copy of the value.
    pub fn duplicate(&self) -> (r: ShowCardAction)
        ensures
            r@ == self@,
        decreases self,
    {
        ShowCardAction {
            title: clone_opt_text(&self.title),
            card: Box::new(self.card.duplicate()),
            id: clone_opt_text(&self.id),
            icon_url: clone_opt_text(&self.icon_url),
            style: self.style,
            tooltip: clone_opt_text(&self.tooltip),
            is_enabled: self.is_enabled,
            mode: self.mode,
        }
    }
}

impl Clone for ShowCardAction {
    fn clone(&self) -> (r: Self)
        ensures
            r@ == self@,
    {
        self.duplicate()
    }
}

impl ShowCardActionView {
    /// Whether the value, and whatever it holds, is one that the wire format
    /// can express.
    pub open spec fn well_formed(self) -> bool
        decreases self,
    {
        &&& self.card.well_formed()
    }

    /// Whether elements and actions are nested in the value no deeper than
    /// `limit`.
    pub open spec fn within(self, limit: nat) -> bool
        decreases self,
    {
        &&& self.card.within(limit)
    }

    /// Whether `key` is the key of one of the fields.
    pub open spec fn is_key(key: Seq<char>) -> bool {
        ||| key == "title"@
        ||| key == "card"@
        ||| key == "id"@
        ||| key == "iconUrl"@
        ||| key == "style"@
        ||| key == "tooltip"@
        ||| key == "isEnabled"@
        ||| key == "mode"@
    }

    /// The fields that the value is written as.
    pub open spec fn encode_fields(self) -> Fields
        decreases self, 0nat,
    {
        let m = no_fields();
        let m = with_opt(m, "title"@, opt_text_json(self.title));
        let m = with(m, "card"@, self.card.encode_spec());
        let m = with_opt(m, "id"@, opt_text_json(self.id));
        let m = with_opt(m, "iconUrl"@, opt_text_json(self.icon_url));
        let m = with_opt(m, "style"@, opt_token_json(self.style));
        let m = with_opt(m, "tooltip"@, opt_text_json(self.tooltip));
        let m = with_opt(m, "isEnabled"@, opt_bool_json(self.is_enabled));
        let m = with_opt(m, "mode"@, opt_token_json(self.mode));
        m
    }

    /// The JSON value that the value is written as: an object of its fields.
    pub open spec fn encode_spec(self) -> Json
        decreases self, 1nat,
    {
        Json::Object(self.encode_fields())
    }

    /// What the fields `m` are read as: the fields are read in their order,
    /// and the first that cannot be read decides the error.
    pub open spec fn decode_fields(
        m: Fields,
        limit: nat,
    ) -> Result<ShowCardActionView, DecodeErrorView>
        decreases limit, 6nat, 0nat,
    {
        let title = optional_text(m, "title"@);
        let card = AdaptiveCardView::required_boxed(m, "card"@, limit);
        let id = optional_text(m, "id"@);
        let icon_url = optional_text(m, "iconUrl"@);
        let style = optional_token::<ActionStyle>(m, "style"@);
        let tooltip = optional_text(m, "tooltip"@);
        let is_enabled = optional_bool(m, "isEnabled"@);
        let mode = optional_token::<ActionMode>(m, "mode"@);
        if title is Err {
            Err(title->Err_0)
        } else if card is Err {
            Err(card->Err_0)
        } else if id is Err {
            Err(id->Err_0)
        } else if icon_url is Err {
            Err(icon_url->Err_0)
        } else if style is Err {
            Err(style->Err_0)
        } else if tooltip is Err {
            Err(tooltip->Err_0)
        } else if is_enabled is Err {
            Err(is_enabled->Err_0)
        } else if mode is Err {
            Err(mode->Err_0)
        } else {
            Ok(
                ShowCardActionView {
                    title: title->Ok_0,
                    card: card->Ok_0,
                    id: id->Ok_0,
                    icon_url: icon_url->Ok_0,
                    style: style->Ok_0,
                    tooltip: tooltip->Ok_0,
                    is_enabled: is_enabled->Ok_0,
                    mode: mode->Ok_0,
                },
            )
        }
    }

    /// What the JSON value `j` is read as: it must be an object, and its
    /// fields are read.
    pub open spec fn decode_spec(j: Json, limit: nat) -> Result<ShowCardActionView, DecodeErrorView>
        decreases limit, 6nat, 1nat,
    {
        match j {
            Json::Object(m) => Self::decode_fields(m, limit),
            _ => Err(mismatch(j)),
        }
    }

    /// What is written: every field that must be there, every other field
    /// exactly where it has a value, and each with its value.
    pub proof fn lemma_written(self)
        ensures
            self.encode_fields().contains_key("title"@) <==> self.title is Some,
            self.title matches Some(x) ==> self.encode_fields()["title"@] == Json::Str(x),
            self.encode_fields().contains_key("card"@),
            self.encode_fields()["card"@] == self.card.encode_spec(),
            self.encode_fields().contains_key("id"@) <==> self.id is Some,
            self.id matches Some(x) ==> self.encode_fields()["id"@] == Json::Str(x),
            self.encode_fields().contains_key("iconUrl"@) <==> self.icon_url is Some,
            self.icon_url matches Some(x) ==> self.encode_fields()["iconUrl"@] == Json::Str(x),
            self.encode_fields().contains_key("style"@) <==> self.style is Some,
            self.style matches Some(x) ==> self.encode_fields()["style"@] == token_json(x),
            self.encode_fields().contains_key("tooltip"@) <==> self.tooltip is Some,
            self.tooltip matches Some(x) ==> self.encode_fields()["tooltip"@] == Json::Str(x),
            self.encode_fields().contains_key("isEnabled"@) <==> self.is_enabled is Some,
            self.is_enabled matches Some(x) ==> self.encode_fields()["isEnabled"@] == Json::Bool(x),
            self.encode_fields().contains_key("mode"@) <==> self.mode is Some,
            self.mode matches Some(x) ==> self.encode_fields()["mode"@] == token_json(x),
    {
        lemma_with_opt();
        lemma_key_shapes();
    }

    /// Nothing else is written: every key is that of a field, and none holds
    /// `null`.
    pub proof fn lemma_written_keys(self, key: Seq<char>)
        requires
            self.encode_fields().contains_key(key),
        ensures
            Self::is_key(key),
            !(self.encode_fields()[key] is Null),
    {
        lemma_with_opt();
    }

    /// What is read is well formed, and nested no deeper than `limit`.
    pub proof fn lemma_decoded(m: Fields, limit: nat)
        ensures
            Self::decode_fields(m, limit) matches Ok(v) ==> v.well_formed() && v.within(limit),
        decreases limit, 6nat, 0nat,
    {
        AdaptiveCardView::lemma_decoded_boxed(m, "card"@, limit);
    }

    /// What is read of a JSON value is well formed, and nested no deeper than
    /// `limit`.
    pub proof fn lemma_decoded_value(j: Json, limit: nat)
        ensures
            Self::decode_spec(j, limit) matches Ok(v) ==> v.well_formed() && v.within(limit),
        decreases limit, 6nat, 1nat,
    {
        match j {
            Json::Object(m) => Self::lemma_decoded(m, limit),
            _ => {},
        }
    }

    /// How deep elements and actions are nested in the value.
    pub open spec fn nesting(self) -> nat
        decreases self, 0nat,
    {
        self.card.nesting()
    }

    /// A value that is within a limit is within every greater limit.
    pub proof fn lemma_within_more(self, limit: nat, more: nat)
        requires
            self.within(limit),
            limit <= more,
        ensures
            self.within(more),
        decreases self, 0nat,
    {
        self.card.lemma_within_more(limit, more);
    }

    /// A value is within its nesting.
    pub proof fn lemma_within_nesting(self)
        ensures
            self.within(self.nesting()),
        decreases self, 1nat,
    {
        let limit = self.nesting();
        self.card.lemma_within_nesting();
        self.card.lemma_within_more(self.card.nesting(), limit);
    }

    /// Reading what was written gives the value back, also where the object
    /// says under `type` what it is.
    pub proof fn lemma_roundtrip_tagged(self, tag: Option<Json>, limit: nat)
        requires
            self.well_formed(),
            self.within(limit),
        ensures
            gives(
                Self::decode_fields(with_opt(self.encode_fields(), type_key(), tag), limit),
                self,
            ),
        decreases self, 0nat,
    {
        self.lemma_written();
        lemma_key_shapes();
        lemma_tag_keeps(self.encode_fields(), tag);
        self.card.lemma_roundtrip(limit);
        let m = with_opt(self.encode_fields(), type_key(), tag);
        lemma_reads_opt_text(m, "title"@, self.title);
        lemma_reads_value(m, "card"@, self.card.encode_spec());
        assert(gives(AdaptiveCardView::required_boxed(m, "card"@, limit), self.card));
        lemma_reads_opt_text(m, "id"@, self.id);
        lemma_reads_opt_text(m, "iconUrl"@, self.icon_url);
        lemma_reads_opt_token(m, "style"@, self.style);
        lemma_reads_opt_text(m, "tooltip"@, self.tooltip);
        lemma_reads_opt_bool(m, "isEnabled"@, self.is_enabled);
        lemma_reads_opt_token(m, "mode"@, self.mode);
    }

    /// Reading what was written gives the value back.
    pub proof fn lemma_roundtrip(self, limit: nat)
        requires
            self.well_formed(),
            self.within(limit),
        ensures
            gives(Self::decode_fields(self.encode_fields(), limit), self),
            gives(Self::decode_spec(self.encode_spec(), limit), self),
        decreases self, 1nat,
    {
        lemma_with_none(self.encode_fields(), type_key());
        self.lemma_roundtrip_tagged(None, limit);
    }
}

impl ShowCardAction {
    /// Whether the value, and whatever it holds, is one that the wire format
    /// can express.
    pub fn is_well_formed(&self) -> (r: bool)
        ensures
            r == self@.well_formed(),
        decreases self,
    {
        self.card.is_well_formed()
    }

    /// Whether elements and actions are nested in the value no deeper than
    /// `limit`.
    pub fn is_within(&self, limit: usize) -> (r: bool)
        ensures
            r == self@.within(limit as nat),
        decreases self,
    {
        self.card.is_within(limit)
    }

    /// The fields of the JSON object that stands for the value.
    pub fn encode_fields(&self) -> (m: Object)
        ensures
            object_fields(m) == self@.encode_fields(),
        decreases self, 0nat,
    {
        let mut m = new_object();
        put_opt_text(&mut m, "title", &self.title);
        put(&mut m, "card", self.card.encode());
        put_opt_text(&mut m, "id", &self.id);
        put_opt_text(&mut m, "iconUrl", &self.icon_url);
        put_opt_token(&mut m, "style", self.style);
        put_opt_text(&mut m, "tooltip", &self.tooltip);
        put_opt_bool(&mut m, "isEnabled", self.is_enabled);
        put_opt_token(&mut m, "mode", self.mode);
        m
    }

    /// The JSON object that stands for the value.
    pub fn encode(&self) -> (v: Value)
        ensures
            value_json(v) == self@.encode_spec(),
        decreases self, 1nat,
    {
        object_value(self.encode_fields())
    }

    /// The value that the fields `m` stand for, with elements and actions
    /// nested no deeper than `limit`.
    pub fn decode_fields(m: &Object, limit: usize) -> (r: Result<ShowCardAction, DecodeError>)
        ensures
            decoded(r) == ShowCardActionView::decode_fields(object_fields(*m), limit as nat),
            r matches Ok(x) ==> x@.well_formed() && x@.within(limit as nat),
        decreases limit, 6nat, 0nat,
    {
        proof {
            ShowCardActionView::lemma_decoded(object_fields(*m), limit as nat);
        }
        let title = get_opt_text(m, "title")?;
        let card = AdaptiveCard::get_boxed(m, "card", limit)?;
        let id = get_opt_text(m, "id")?;
        let icon_url = get_opt_text(m, "iconUrl")?;
        let style = get_opt_token::<ActionStyle>(m, "style")?;
        let tooltip = get_opt_text(m, "tooltip")?;
        let is_enabled = get_opt_bool(m, "isEnabled")?;
        let mode = get_opt_token::<ActionMode>(m, "mode")?;
        Ok(
            ShowCardAction {
                title,
                card,
                id,
                icon_url,
                style,
                tooltip,
                is_enabled,
                mode,
            },
        )
    }

    /// The value that the JSON value `v` stands for, with elements and
    /// actions nested no deeper than `limit`.
    pub fn decode_within(v: &Value, limit: usize) -> (r: Result<ShowCardAction, DecodeError>)
        ensures
            decoded(r) == ShowCardActionView::decode_spec(value_json(*v), limit as nat),
            r matches Ok(x) ==> x@.well_formed() && x@.within(limit as nat),
        decreases limit, 6nat, 1nat,
    {
        let m = read_object(v)?;
        ShowCardAction::decode_fields(m, limit)
    }

    /// The value that the JSON value `v` stands for, with elements and
    /// actions nested no deeper than [`MAX_DEPTH`].
    pub fn decode(v: &Value) -> (r: Result<ShowCardAction, DecodeError>)
        ensures
            decoded(r) == ShowCardActionView::decode_spec(value_json(*v), MAX_DEPTH as nat),
            r matches Ok(x) ==> x@.well_formed() && x@.within(MAX_DEPTH as nat),
    {
        ShowCardAction::decode_within(v, MAX_DEPTH)
    }
}

/// Shows the hidden and hides the shown of its target elements.
#[derive(Debug, PartialEq)]
pub struct ToggleVisibilityAction {
    /// The label of the button or link that stands for the action.
    pub title: Option<String>,
    /// The identifiers of the elements to toggle.
    pub target_elements: Vec<String>,
    /// A unique identifier of the action.
    pub id: Option<String>,
    /// The icon shown beside the title.
    pub icon_url: Option<String>,
    /// The style of the action.
    pub style: Option<ActionStyle>,
    /// The text shown while the pointer hovers over the action.
    pub tooltip: Option<String>,
    /// Whether the action is enabled.
    pub is_enabled: Option<bool>,
    /// Whether the action is a button or sits in the overflow menu.
    pub mode: Option<ActionMode>,
}

/// The mathematical model of a [`ToggleVisibilityAction`].
pub struct ToggleVisibilityActionView {
    pub title: Option<Seq<char>>,
    pub target_elements: Seq<Seq<char>>,
    pub id: Option<Seq<char>>,
    pub icon_url: Option<Seq<char>>,
    pub style: Option<ActionStyle>,
    pub tooltip: Option<Seq<char>>,
    pub is_enabled: Option<bool>,
    pub mode: Option<ActionMode>,
}

impl View for ToggleVisibilityAction {
    type V = ToggleVisibilityActionView;

    open spec fn view(&self) -> ToggleVisibilityActionView {
        ToggleVisibilityActionView {
            title: self.title.deep_view(),
            target_elements: texts_view(self.target_elements@),
            id: self.id.deep_view(),
            icon_url: self.icon_url.deep_view(),
            style: self.style,
            tooltip: self.tooltip.deep_view(),
            is_enabled: self.is_enabled,
            mode: self.mode,
        }
    }
}

impl Clone for ToggleVisibilityAction {
    fn clone(&self) -> (r: Self)
        ensures
            r@ == self@,
    {
        ToggleVisibilityAction {
            title: clone_opt_text(&self.title),
            target_elements: clone_texts(&self.target_elements),
            id: clone_opt_text(&self.id),
            icon_url: clone_opt_text(&self.icon_url),
            style: self.style,
            tooltip: clone_opt_text(&self.tooltip),
            is_enabled: self.is_enabled,
            mode: self.mode,
        }
    }
}

impl ToggleVisibilityActionView {
    /// Whether `key` is the key of one of the fields.
    pub open spec fn is_key(key: Seq<char>) -> bool {
        ||| key == "title"@
        ||| key == "targetElements"@
        ||| key == "id"@
        ||| key == "iconUrl"@
        ||| key == "style"@
        ||| key == "tooltip"@
        ||| key == "isEnabled"@
        ||| key == "mode"@
    }

    /// The fields that the value is written as.
    pub open spec fn encode_fields(self) -> Fields {
        let m = no_fields();
        let m = with_opt(m, "title"@, opt_text_json(self.title));
        let m = with(m, "targetElements"@, texts_json(self.target_elements));
        let m = with_opt(m, "id"@, opt_text_json(self.id));
        let m = with_opt(m, "iconUrl"@, opt_text_json(self.icon_url));
        let m = with_opt(m, "style"@, opt_token_json(self.style));
        let m = with_opt(m, "tooltip"@, opt_text_json(self.tooltip));
        let m = with_opt(m, "isEnabled"@, opt_bool_json(self.is_enabled));
        let m = with_opt(m, "mode"@, opt_token_json(self.mode));
        m
    }

    /// The JSON value that the value is written as: an object of its fields.
    pub open spec fn encode_spec(self) -> Json {
        Json::Object(self.encode_fields())
    }

    /// What the fields `m` are read as: the fields are read in their order,
    /// and the first that cannot be read decides the error.
    pub open spec fn decode_fields(
        m: Fields,
    ) -> Result<ToggleVisibilityActionView, DecodeErrorView> {
        let title = optional_text(m, "title"@);
        let target_elements = required_texts(m, "targetElements"@);
        let id = optional_text(m, "id"@);
        let icon_url = optional_text(m, "iconUrl"@);
        let style = optional_token::<ActionStyle>(m, "style"@);
        let tooltip = optional_text(m, "tooltip"@);
        let is_enabled = optional_bool(m, "isEnabled"@);
        let mode = optional_token::<ActionMode>(m, "mode"@);
        if title is Err {
            Err(title->Err_0)
        } else if target_elements is Err {
            Err(target_elements->Err_0)
        } else if id is Err {
            Err(id->Err_0)
        } else if icon_url is Err {
            Err(icon_url->Err_0)
        } else if style is Err {
            Err(style->Err_0)
        } else if tooltip is Err {
            Err(tooltip->Err_0)
        } else if is_enabled is Err {
            Err(is_enabled->Err_0)
        } else if mode is Err {
            Err(mode->Err_0)
        } else {
            Ok(
                ToggleVisibilityActionView {
                    title: title->Ok_0,
                    target_elements: target_elements->Ok_0,
                    id: id->Ok_0,
                    icon_url: icon_url->Ok_0,
                    style: style->Ok_0,
                    tooltip: tooltip->Ok_0,
                    is_enabled: is_enabled->Ok_0,
                    mode: mode->Ok_0,
                },
            )
        }
    }

    /// What the JSON value `j` is read as: it must be an object, and its
    /// fields are read.
    pub open spec fn decode_spec(j: Json) -> Result<ToggleVisibilityActionView, DecodeErrorView> {
        match j {
            Json::Object(m) => Self::decode_fields(m),
            _ => Err(mismatch(j)),
        }
    }

    /// What is written: every field that must be there, every other field
    /// exactly where it has a value, and each with its value.
    pub proof fn lemma_written(self)
        ensures
            self.encode_fields().contains_key("title"@) <==> self.title is Some,
            self.title matches Some(x) ==> self.encode_fields()["title"@] == Json::Str(x),
            self.encode_fields().contains_key("targetElements"@),
            self.encode_fields()["targetElements"@] == texts_json(self.target_elements),
            self.encode_fields().contains_key("id"@) <==> self.id is Some,
            self.id matches Some(x) ==> self.encode_fields()["id"@] == Json::Str(x),
            self.encode_fields().contains_key("iconUrl"@) <==> self.icon_url is Some,
            self.icon_url matches Some(x) ==> self.encode_fields()["iconUrl"@] == Json::Str(x),
            self.encode_fields().contains_key("style"@) <==> self.style is Some,
            self.style matches Some(x) ==> self.encode_fields()["style"@] == token_json(x),
            self.encode_fields().contains_key("tooltip"@) <==> self.tooltip is Some,
            self.tooltip matches Some(x) ==> self.encode_fields()["tooltip"@] == Json::Str(x),
            self.encode_fields().contains_key("isEnabled"@) <==> self.is_enabled is Some,
            self.is_enabled matches Some(x) ==> self.encode_fields()["isEnabled"@] == Json::Bool(x),
            self.encode_fields().contains_key("mode"@) <==> self.mode is Some,
            self.mode matches Some(x) ==> self.encode_fields()["mode"@] == token_json(x),
    {
        lemma_with_opt();
        lemma_key_shapes();
    }

    /// Nothing else is written: every key is that of a field, and none holds
    /// `null`.
    pub proof fn lemma_written_keys(self, key: Seq<char>)
        requires
            self.encode_fields().contains_key(key),
        ensures
            Self::is_key(key),
            !(self.encode_fields()[key] is Null),
    {
        lemma_with_opt();
    }

    /// Reading what was written gives the value back, also where the object
    /// says under `type` what it is.
    pub proof fn lemma_roundtrip_tagged(self, tag: Option<Json>)
        ensures
            gives(Self::decode_fields(with_opt(self.encode_fields(), type_key(), tag)), self),
    {
        self.lemma_written();
        lemma_key_shapes();
        lemma_tag_keeps(self.encode_fields(), tag);
        let m = with_opt(self.encode_fields(), type_key(), tag);
        lemma_reads_opt_text(m, "title"@, self.title);
        lemma_reads_texts(m, "targetElements"@, self.target_elements);
        lemma_reads_opt_text(m, "id"@, self.id);
        lemma_reads_opt_text(m, "iconUrl"@, self.icon_url);
        lemma_reads_opt_token(m, "style"@, self.style);
        lemma_reads_opt_text(m, "tooltip"@, self.tooltip);
        lemma_reads_opt_bool(m, "isEnabled"@, self.is_enabled);
        lemma_reads_opt_token(m, "mode"@, self.mode);
    }

    /// Reading what was written gives the value back.
    pub proof fn lemma_roundtrip(self)
        ensures
            gives(Self::decode_fields(self.encode_fields()), self),
            gives(Self::decode_spec(self.encode_spec()), self),
    {
        lemma_with_none(self.encode_fields(), type_key());
        self.lemma_roundtrip_tagged(None);
    }
}

impl ToggleVisibilityAction {
    /// The fields of the JSON object that stands for the value.
    pub fn encode_fields(&self) -> (m: Object)
        ensures
            object_fields(m) == self@.encode_fields(),
    {
        let mut m = new_object();
        put_opt_text(&mut m, "title", &self.title);
        put_texts(&mut m, "targetElements", &self.target_elements);
        put_opt_text(&mut m, "id", &self.id);
        put_opt_text(&mut m, "iconUrl", &self.icon_url);
        put_opt_token(&mut m, "style", self.style);
        put_opt_text(&mut m, "tooltip", &self.tooltip);
        put_opt_bool(&mut m, "isEnabled", self.is_enabled);
        put_opt_token(&mut m, "mode", self.mode);
        m
    }

    /// The JSON object that stands for the value.
    pub fn encode(&self) -> (v: Value)
        ensures
            value_json(v) == self@.encode_spec(),
    {
        object_value(self.encode_fields())
    }

    /// The value that the fields `m` stand for.
    pub fn decode_fields(m: &Object) -> (r: Result<ToggleVisibilityAction, DecodeError>)
        ensures
            decoded(r) == ToggleVisibilityActionView::decode_fields(object_fields(*m)),
    {
        let title = get_opt_text(m, "title")?;
        let target_elements = get_texts(m, "targetElements")?;
        let id = get_opt_text(m, "id")?;
        let icon_url = get_opt_text(m, "iconUrl")?;
        let style = get_opt_token::<ActionStyle>(m, "style")?;
        let tooltip = get_opt_text(m, "tooltip")?;
        let is_enabled = get_opt_bool(m, "isEnabled")?;
        let mode = get_opt_token::<ActionMode>(m, "mode")?;
        Ok(
            ToggleVisibilityAction {
                title,
                target_elements,
                id,
                icon_url,
                style,
                tooltip,
                is_enabled,
                mode,
            },
        )
    }

    /// The value that the JSON value `v` stands for.
    pub fn decode(v: &Value) -> (r: Result<ToggleVisibilityAction, DecodeError>)
        ensures
            decoded(r) == ToggleVisibilityActionView::decode_spec(value_json(*v)),
    {
        let m = read_object(v)?;
        ToggleVisibilityAction::decode_fields(m)
    }
}

} // verus!

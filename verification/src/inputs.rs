//! The inputs that a card can ask of its user.

use crate::card::{BaseFields, BaseFieldsView, Spacing};
use crate::common::{ChoiceInputStyle, Height, TextInputStyle};
use crate::error::{decoded, DecodeError, DecodeErrorView};
use crate::field::{
    decode_seq, fails_with, gives, in_key, lemma_decode_seq_all, lemma_decode_seq_empty,
    lemma_decode_seq_fails, lemma_decode_seq_next, lemma_reads_opt_array, lemma_reads_opt_bool,
    lemma_reads_opt_number, lemma_reads_opt_text, lemma_reads_opt_token, lemma_reads_opt_u32,
    lemma_reads_text, lemma_tag_keeps, lemma_with_none, lemma_with_opt, mismatch, opt_bool_json,
    opt_num, opt_number_json, opt_text_json, opt_token_json, opt_u32_json, opt_value,
    optional_array, optional_bool, optional_number, optional_text, optional_token, optional_u32,
    required_text, some, token_json, type_key, u32_json, with, with_opt,
};
use crate::json::{
    array_value, field, new_object, no_fields, object_fields, object_value, value_json,
    values_json, Fields, Json, Num, Object,
};
use crate::keys::lemma_key_shapes;
use crate::object::{
    clone_opt_number, clone_opt_text, get_opt_array, get_opt_bool, get_opt_number, get_opt_text,
    get_opt_token, get_opt_u32, get_text, put_opt, put_opt_bool, put_opt_number, put_opt_text,
    put_opt_token, put_opt_u32, put_text, read_object,
};
use serde_json::{Number, Value};
use vstd::prelude::*;

verus! {

/// Lets the user enter text.
#[derive(Debug, PartialEq)]
pub struct InputText {
    /// The identifier under which the value is submitted.
    pub id: String,
    /// Whether several lines may be entered.
    pub is_multiline: Option<bool>,
    /// The greatest number of characters to collect.
    pub max_length: Option<u32>,
    /// What is shown while nothing has been entered.
    pub placeholder: Option<String>,
    /// The regular expression that the text must match.
    pub regex: Option<String>,
    /// What kind of text is asked for.
    pub style: Option<TextInputStyle>,
    /// The text that the field starts with.
    pub value: Option<String>,
    /// The label of the input.
    pub label: Option<String>,
    /// Whether the input must be filled in.
    pub is_required: Option<bool>,
    /// The message shown when the input is not valid.
    pub error_message: Option<String>,
    /// Whether a separating line is drawn at the top of the element.
    pub separator: Option<bool>,
    /// The amount of space between this element and the one before it.
    pub spacing: Option<Spacing>,
    /// The height of the element.
    pub height: Option<Height>,
    /// Whether the element is shown.
    pub is_visible: Option<bool>,
}

/// The mathematical model of an [`InputText`].
pub struct InputTextView {
    pub id: Seq<char>,
    pub is_multiline: Option<bool>,
    pub max_length: Option<u32>,
    pub placeholder: Option<Seq<char>>,
    pub regex: Option<Seq<char>>,
    pub style: Option<TextInputStyle>,
    pub value: Option<Seq<char>>,
    pub label: Option<Seq<char>>,
    pub is_required: Option<bool>,
    pub error_message: Option<Seq<char>>,
    pub separator: Option<bool>,
    pub spacing: Option<Spacing>,
    pub height: Option<Height>,
    pub is_visible: Option<bool>,
}

impl View for InputText {
    type V = InputTextView;

    open spec fn view(&self) -> InputTextView {
        InputTextView {
            id: self.id@,
            is_multiline: self.is_multiline,
            max_length: self.max_length,
            placeholder: self.placeholder.deep_view(),
            regex: self.regex.deep_view(),
            style: self.style,
            value: self.value.deep_view(),
            label: self.label.deep_view(),
            is_required: self.is_required,
            error_message: self.error_message.deep_view(),
            separator: self.separator,
            spacing: self.spacing,
            height: self.height,
            is_visible: self.is_visible,
        }
    }
}

impl Clone for InputText {
    fn clone(&self) -> (r: Self)
        ensures
            r@ == self@,
    {
        InputText {
            id: self.id.clone(),
            is_multiline: self.is_multiline,
            max_length: self.max_length,
            placeholder: clone_opt_text(&self.placeholder),
            regex: clone_opt_text(&self.regex),
            style: self.style,
            value: clone_opt_text(&self.value),
            label: clone_opt_text(&self.label),
            is_required: self.is_required,
            error_message: clone_opt_text(&self.error_message),
            separator: self.separator,
            spacing: self.spacing,
            height: self.height,
            is_visible: self.is_visible,
        }
    }
}

impl InputTextView {
    /// Whether `key` is the key of one of the fields.
    pub open spec fn is_key(key: Seq<char>) -> bool {
        ||| key == "id"@
        ||| key == "isMultiline"@
        ||| key == "maxLength"@
        ||| key == "placeholder"@
        ||| key == "regex"@
        ||| key == "style"@
        ||| key == "value"@
        ||| key == "label"@
        ||| key == "isRequired"@
        ||| key == "errorMessage"@
        ||| key == "separator"@
        ||| key == "spacing"@
        ||| key == "height"@
        ||| key == "isVisible"@
    }

    /// The fields that the value is written as.
    pub open spec fn encode_fields(self) -> Fields {
        let m = no_fields();
        let m = with(m, "id"@, Json::Str(self.id));
        let m = with_opt(m, "isMultiline"@, opt_bool_json(self.is_multiline));
        let m = with_opt(m, "maxLength"@, opt_u32_json(self.max_length));
        let m = with_opt(m, "placeholder"@, opt_text_json(self.placeholder));
        let m = with_opt(m, "regex"@, opt_text_json(self.regex));
        let m = with_opt(m, "style"@, opt_token_json(self.style));
        let m = with_opt(m, "value"@, opt_text_json(self.value));
        let m = with_opt(m, "label"@, opt_text_json(self.label));
        let m = with_opt(m, "isRequired"@, opt_bool_json(self.is_required));
        let m = with_opt(m, "errorMessage"@, opt_text_json(self.error_message));
        let m = with_opt(m, "separator"@, opt_bool_json(self.separator));
        let m = with_opt(m, "spacing"@, opt_token_json(self.spacing));
        let m = with_opt(m, "height"@, opt_token_json(self.height));
        let m = with_opt(m, "isVisible"@, opt_bool_json(self.is_visible));
        m
    }

    /// The JSON value that the value is written as: an object of its fields.
    pub open spec fn encode_spec(self) -> Json {
        Json::Object(self.encode_fields())
    }

    /// What the fields `m` are read as: the fields are read in their order,
    /// and the first that cannot be read decides the error.
    pub open spec fn decode_fields(m: Fields) -> Result<InputTextView, DecodeErrorView> {
        let id = required_text(m, "id"@);
        let is_multiline = optional_bool(m, "isMultiline"@);
        let max_length = optional_u32(m, "maxLength"@);
        let placeholder = optional_text(m, "placeholder"@);
        let regex = optional_text(m, "regex"@);
        let style = optional_token::<TextInputStyle>(m, "style"@);
        let value = optional_text(m, "value"@);
        let label = optional_text(m, "label"@);
        let is_required = optional_bool(m, "isRequired"@);
        let error_message = optional_text(m, "errorMessage"@);
        let separator = optional_bool(m, "separator"@);
        let spacing = optional_token::<Spacing>(m, "spacing"@);
        let height = optional_token::<Height>(m, "height"@);
        let is_visible = optional_bool(m, "isVisible"@);
        if id is Err {
            Err(id->Err_0)
        } else if is_multiline is Err {
            Err(is_multiline->Err_0)
        } else if max_length is Err {
            Err(max_length->Err_0)
        } else if placeholder is Err {
            Err(placeholder->Err_0)
        } else if regex is Err {
            Err(regex->Err_0)
        } else if style is Err {
            Err(style->Err_0)
        } else if value is Err {
            Err(value->Err_0)
        } else if label is Err {
            Err(label->Err_0)
        } else if is_required is Err {
            Err(is_required->Err_0)
        } else if error_message is Err {
            Err(error_message->Err_0)
        } else if separator is Err {
            Err(separator->Err_0)
        } else if spacing is Err {
            Err(spacing->Err_0)
        } else if height is Err {
            Err(height->Err_0)
        } else if is_visible is Err {
            Err(is_visible->Err_0)
        } else {
            Ok(
                InputTextView {
                    id: id->Ok_0,
                    is_multiline: is_multiline->Ok_0,
                    max_length: max_length->Ok_0,
                    placeholder: placeholder->Ok_0,
                    regex: regex->Ok_0,
                    style: style->Ok_0,
                    value: value->Ok_0,
                    label: label->Ok_0,
                    is_required: is_required->Ok_0,
                    error_message: error_message->Ok_0,
                    separator: separator->Ok_0,
                    spacing: spacing->Ok_0,
                    height: height->Ok_0,
                    is_visible: is_visible->Ok_0,
                },
            )
        }
    }

    /// What the JSON value `j` is read as: it must be an object, and its
    /// fields are read.
    pub open spec fn decode_spec(j: Json) -> Result<InputTextView, DecodeErrorView> {
        match j {
            Json::Object(m) => Self::decode_fields(m),
            _ => Err(mismatch(j)),
        }
    }

    /// What is written: every field that must be there, every other field
    /// exactly where it has a value, and each with its value.
    pub proof fn lemma_written(self)
        ensures
            self.encode_fields().contains_key("id"@),
            self.encode_fields()["id"@] == Json::Str(self.id),
            self.encode_fields().contains_key("isMultiline"@) <==> self.is_multiline is Some,
            self.is_multiline matches Some(x)
                ==> self.encode_fields()["isMultiline"@] == Json::Bool(x),
            self.encode_fields().contains_key("maxLength"@) <==> self.max_length is Some,
            self.max_length matches Some(x) ==> self.encode_fields()["maxLength"@] == u32_json(x),
            self.encode_fields().contains_key("placeholder"@) <==> self.placeholder is Some,
            self.placeholder matches Some(x)
                ==> self.encode_fields()["placeholder"@] == Json::Str(x),
            self.encode_fields().contains_key("regex"@) <==> self.regex is Some,
            self.regex matches Some(x) ==> self.encode_fields()["regex"@] == Json::Str(x),
            self.encode_fields().contains_key("style"@) <==> self.style is Some,
            self.style matches Some(x) ==> self.encode_fields()["style"@] == token_json(x),
            self.encode_fields().contains_key("value"@) <==> self.value is Some,
            self.value matches Some(x) ==> self.encode_fields()["value"@] == Json::Str(x),
            self.encode_fields().contains_key("label"@) <==> self.label is Some,
            self.label matches Some(x) ==> self.encode_fields()["label"@] == Json::Str(x),
            self.encode_fields().contains_key("isRequired"@) <==> self.is_required is Some,
            self.is_required matches Some(x)
                ==> self.encode_fields()["isRequired"@] == Json::Bool(x),
            self.encode_fields().contains_key("errorMessage"@) <==> self.error_message is Some,
            self.error_message matches Some(x)
                ==> self.encode_fields()["errorMessage"@] == Json::Str(x),
            self.encode_fields().contains_key("separator"@) <==> self.separator is Some,
            self.separator matches Some(x) ==> self.encode_fields()["separator"@] == Json::Bool(x),
            self.encode_fields().contains_key("spacing"@) <==> self.spacing is Some,
            self.spacing matches Some(x) ==> self.encode_fields()["spacing"@] == token_json(x),
            self.encode_fields().contains_key("height"@) <==> self.height is Some,
            self.height matches Some(x) ==> self.encode_fields()["height"@] == token_json(x),
            self.encode_fields().contains_key("isVisible"@) <==> self.is_visible is Some,
            self.is_visible matches Some(x) ==> self.encode_fields()["isVisible"@] == Json::Bool(x),
    {
        lemma_with_opt();
        lemma_key_shapes();
    }

    /// Nothing else is written: every key is that of a field, and none holds
    /// `null`.
    pub proof fn lemma_written_keys(self, key: Seq<char>)
        requires
            self.encode_fields().contains_key(key),
        ensures
            Self::is_key(key),
            !(self.encode_fields()[key] is Null),
    {
        lemma_with_opt();
    }

    /// What the value carries besides the fields of its kind.
    pub open spec fn base(self) -> BaseFieldsView {
        BaseFieldsView {
            id: Some(self.id),
            separator: self.separator,
            spacing: self.spacing,
            height: self.height,
            is_visible: self.is_visible,
        }
    }

    /// The base fields are written among the fields of the value, each under
    /// its own key and as it is written on its own.
    pub proof fn lemma_base_is_flat(self, key: Seq<char>)
        requires
            self.base().encode_fields().contains_key(key),
        ensures
            self.encode_fields().contains_key(key),
            self.encode_fields()[key] == self.base().encode_fields()[key],
    {
        self.base().lemma_written_keys(key);
        self.base().lemma_written();
        self.lemma_written();
    }

    /// Reading what was written gives the value back, also where the object
    /// says under `type` what it is.
    pub proof fn lemma_roundtrip_tagged(self, tag: Option<Json>)
        ensures
            gives(Self::decode_fields(with_opt(self.encode_fields(), type_key(), tag)), self),
    {
        self.lemma_written();
        lemma_key_shapes();
        lemma_tag_keeps(self.encode_fields(), tag);
        let m = with_opt(self.encode_fields(), type_key(), tag);
        lemma_reads_text(m, "id"@, self.id);
        lemma_reads_opt_bool(m, "isMultiline"@, self.is_multiline);
        lemma_reads_opt_u32(m, "maxLength"@, self.max_length);
        lemma_reads_opt_text(m, "placeholder"@, self.placeholder);
        lemma_reads_opt_text(m, "regex"@, self.regex);
        lemma_reads_opt_token(m, "style"@, self.style);
        lemma_reads_opt_text(m, "value"@, self.value);
        lemma_reads_opt_text(m, "label"@, self.label);
        lemma_reads_opt_bool(m, "isRequired"@, self.is_required);
        lemma_reads_opt_text(m, "errorMessage"@, self.error_message);
        lemma_reads_opt_bool(m, "separator"@, self.separator);
        lemma_reads_opt_token(m, "spacing"@, self.spacing);
        lemma_reads_opt_token(m, "height"@, self.height);
        lemma_reads_opt_bool(m, "isVisible"@, self.is_visible);
    }

    /// Reading what was written gives the value back.
    pub proof fn lemma_roundtrip(self)
        ensures
            gives(Self::decode_fields(self.encode_fields()), self),
            gives(Self::decode_spec(self.encode_spec()), self),
    {
        lemma_with_none(self.encode_fields(), type_key());
        self.lemma_roundtrip_tagged(None);
    }
}

impl InputText {
    /// What the value carries besides the fields of its kind.
    pub fn base(&self) -> (r: BaseFields)
        ensures
            r@ == self@.base(),
    {
        BaseFields {
            id: Some(self.id.clone()),
            separator: self.separator,
            spacing: self.spacing,
            height: self.height,
            is_visible: self.is_visible,
        }
    }

    /// The fields of the JSON object that stands for the value.
    pub fn encode_fields(&self) -> (m: Object)
        ensures
            object_fields(m) == self@.encode_fields(),
    {
        let mut m = new_object();
        put_text(&mut m, "id", self.id.as_str());
        put_opt_bool(&mut m, "isMultiline", self.is_multiline);
        put_opt_u32(&mut m, "maxLength", self.max_length);
        put_opt_text(&mut m, "placeholder", &self.placeholder);
        put_opt_text(&mut m, "regex", &self.regex);
        put_opt_token(&mut m, "style", self.style);
        put_opt_text(&mut m, "value", &self.value);
        put_opt_text(&mut m, "label", &self.label);
        put_opt_bool(&mut m, "isRequired", self.is_required);
        put_opt_text(&mut m, "errorMessage", &self.error_message);
        put_opt_bool(&mut m, "separator", self.separator);
        put_opt_token(&mut m, "spacing", self.spacing);
        put_opt_token(&mut m, "height", self.height);
        put_opt_bool(&mut m, "isVisible", self.is_visible);
        m
    }

    /// The JSON object that stands for the value.
    pub fn encode(&self) -> (v: Value)
        ensures
            value_json(v) == self@.encode_spec(),
    {
        object_value(self.encode_fields())
    }

    /// The value that the fields `m` stand for.
    pub fn decode_fields(m: &Object) -> (r: Result<InputText, DecodeError>)
        ensures
            decoded(r) == InputTextView::decode_fields(object_fields(*m)),
    {
        let id = get_text(m, "id")?;
        let is_multiline = get_opt_bool(m, "isMultiline")?;
        let max_length = get_opt_u32(m, "maxLength")?;
        let placeholder = get_opt_text(m, "placeholder")?;
        let regex = get_opt_text(m, "regex")?;
        let style = get_opt_token::<TextInputStyle>(m, "style")?;
        let value = get_opt_text(m, "value")?;
        let label = get_opt_text(m, "label")?;
        let is_required = get_opt_bool(m, "isRequired")?;
        let error_message = get_opt_text(m, "errorMessage")?;
        let separator = get_opt_bool(m, "separator")?;
        let spacing = get_opt_token::<Spacing>(m, "spacing")?;
        let height = get_opt_token::<Height>(m, "height")?;
        let is_visible = get_opt_bool(m, "isVisible")?;
        Ok(
            InputText {
                id,
                is_multiline,
                max_length,
                placeholder,
                regex,
                style,
                value,
                label,
                is_required,
                error_message,
                separator,
                spacing,
                height,
                is_visible,
            },
        )
    }

    /// The value that the JSON value `v` stands for.
    pub fn decode(v: &Value) -> (r: Result<InputText, DecodeError>)
        ensures
            decoded(r) == InputTextView::decode_spec(value_json(*v)),
    {
        let m = read_object(v)?;
        InputText::decode_fields(m)
    }
}

/// Lets the user enter a number.
#[derive(Debug, PartialEq)]
pub struct InputNumber {
    /// The identifier under which the value is submitted.
    pub id: String,
    /// The least value to accept.
    pub min: Option<Number>,
    /// The greatest value to accept.
    pub max: Option<Number>,
    /// What is shown while nothing has been entered.
    pub placeholder: Option<String>,
    /// The number that the field starts with.
    pub value: Option<Number>,
    /// The label of the input.
    pub label: Option<String>,
    /// Whether the input must be filled in.
    pub is_required: Option<bool>,
    /// The message shown when the input is not valid.
    pub error_message: Option<String>,
    /// Whether a separating line is drawn at the top of the element.
    pub separator: Option<bool>,
    /// The amount of space between this element and the one before it.
    pub spacing: Option<Spacing>,
    /// The height of the element.
    pub height: Option<Height>,
    /// Whether the element is shown.
    pub is_visible: Option<bool>,
}

/// The mathematical model of an [`InputNumber`].
pub struct InputNumberView {
    pub id: Seq<char>,
    pub min: Option<Num>,
    pub max: Option<Num>,
    pub placeholder: Option<Seq<char>>,
    pub value: Option<Num>,
    pub label: Option<Seq<char>>,
    pub is_required: Option<bool>,
    pub error_message: Option<Seq<char>>,
    pub separator: Option<bool>,
    pub spacing: Option<Spacing>,
    pub height: Option<Height>,
    pub is_visible: Option<bool>,
}

impl View for InputNumber {
    type V = InputNumberView;

    open spec fn view(&self) -> InputNumberView {
        InputNumberView {
            id: self.id@,
            min: opt_num(self.min),
            max: opt_num(self.max),
            placeholder: self.placeholder.deep_view(),
            value: opt_num(self.value),
            label: self.label.deep_view(),
            is_required: self.is_required,
            error_message: self.error_message.deep_view(),
            separator: self.separator,
            spacing: self.spacing,
            height: self.height,
            is_visible: self.is_visible,
        }
    }
}

impl Clone for InputNumber {
    fn clone(&self) -> (r: Self)
        ensures
            r@ == self@,
    {
        InputNumber {
            id: self.id.clone(),
            min: clone_opt_number(&self.min),
            max: clone_opt_number(&self.max),
            placeholder: clone_opt_text(&self.placeholder),
            value: clone_opt_number(&self.value),
            label: clone_opt_text(&self.label),
            is_required: self.is_required,
            error_message: clone_opt_text(&self.error_message),
            separator: self.separator,
            spacing: self.spacing,
            height: self.height,
            is_visible: self.is_visible,
        }
    }
}

impl InputNumberView {
    /// Whether `key` is the key of one of the fields.
    pub open spec fn is_key(key: Seq<char>) -> bool {
        ||| key == "id"@
        ||| key == "min"@
        ||| key == "max"@
        ||| key == "placeholder"@
        ||| key == "value"@
        ||| key == "label"@
        ||| key == "isRequired"@
        ||| key == "errorMessage"@
        ||| key == "separator"@
        ||| key == "spacing"@
        ||| key == "height"@
        ||| key == "isVisible"@
    }

    /// The fields that the value is written as.
    pub open spec fn encode_fields(self) -> Fields {
        let m = no_fields();
        let m = with(m, "id"@, Json::Str(self.id));
        let m = with_opt(m, "min"@, opt_number_json(self.min));
        let m = with_opt(m, "max"@, opt_number_json(self.max));
        let m = with_opt(m, "placeholder"@, opt_text_json(self.placeholder));
        let m = with_opt(m, "value"@, opt_number_json(self.value));
        let m = with_opt(m, "label"@, opt_text_json(self.label));
        let m = with_opt(m, "isRequired"@, opt_bool_json(self.is_required));
        let m = with_opt(m, "errorMessage"@, opt_text_json(self.error_message));
        let m = with_opt(m, "separator"@, opt_bool_json(self.separator));
        let m = with_opt(m, "spacing"@, opt_token_json(self.spacing));
        let m = with_opt(m, "height"@, opt_token_json(self.height));
        let m = with_opt(m, "isVisible"@, opt_bool_json(self.is_visible));
        m
    }

    /// The JSON value that the value is written as: an object of its fields.
    pub open spec fn encode_spec(self) -> Json {
        Json::Object(self.encode_fields())
    }

    /// What the fields `m` are read as: the fields are read in their order,
    /// and the first that cannot be read decides the error.
    pub open spec fn decode_fields(m: Fields) -> Result<InputNumberView, DecodeErrorView> {
        let id = required_text(m, "id"@);
        let min = optional_number(m, "min"@);
        let max = optional_number(m, "max"@);
        let placeholder = optional_text(m, "placeholder"@);
        let value = optional_number(m, "value"@);
        let label = optional_text(m, "label"@);
        let is_required = optional_bool(m, "isRequired"@);
        let error_message = optional_text(m, "errorMessage"@);
        let separator = optional_bool(m, "separator"@);
        let spacing = optional_token::<Spacing>(m, "spacing"@);
        let height = optional_token::<Height>(m, "height"@);
        let is_visible = optional_bool(m, "isVisible"@);
        if id is Err {
            Err(id->Err_0)
        } else if min is Err {
            Err(min->Err_0)
        } else if max is Err {
            Err(max->Err_0)
        } else if placeholder is Err {
            Err(placeholder->Err_0)
        } else if value is Err {
            Err(value->Err_0)
        } else if label is Err {
            Err(label->Err_0)
        } else if is_required is Err {
            Err(is_required->Err_0)
        } else if error_message is Err {
            Err(error_message->Err_0)
        } else if separator is Err {
            Err(separator->Err_0)
        } else if spacing is Err {
            Err(spacing->Err_0)
        } else if height is Err {
            Err(height->Err_0)
        } else if is_visible is Err {
            Err(is_visible->Err_0)
        } else {
            Ok(
                InputNumberView {
                    id: id->Ok_0,
                    min: min->Ok_0,
                    max: max->Ok_0,
                    placeholder: placeholder->Ok_0,
                    value: value->Ok_0,
                    label: label->Ok_0,
                    is_required: is_required->Ok_0,
                    error_message: error_message->Ok_0,
                    separator: separator->Ok_0,
                    spacing: spacing->Ok_0,
                    height: height->Ok_0,
                    is_visible: is_visible->Ok_0,
                },
            )
        }
    }

    /// What the JSON value `j` is read as: it must be an object, and its
    /// fields are read.
    pub open spec fn decode_spec(j: Json) -> Result<InputNumberView, DecodeErrorView> {
        match j {
            Json::Object(m) => Self::decode_fields(m),
            _ => Err(mismatch(j)),
        }
    }

    /// What is written: every field that must be there, every other field
    /// exactly where it has a value, and each with its value.
    pub proof fn lemma_written(self)
        ensures
            self.encode_fields().contains_key("id"@),
            self.encode_fields()["id"@] == Json::Str(self.id),
            self.encode_fields().contains_key("min"@) <==> self.min is Some,
            self.min matches Some(x) ==> self.encode_fields()["min"@] == Json::Number(x),
            self.encode_fields().contains_key("max"@) <==> self.max is Some,
            self.max matches Some(x) ==> self.encode_fields()["max"@] == Json::Number(x),
            self.encode_fields().contains_key("placeholder"@) <==> self.placeholder is Some,
            self.placeholder matches Some(x)
                ==> self.encode_fields()["placeholder"@] == Json::Str(x),
            self.encode_fields().contains_key("value"@) <==> self.value is Some,
            self.value matches Some(x) ==> self.encode_fields()["value"@] == Json::Number(x),
            self.encode_fields().contains_key("label"@) <==> self.label is Some,
            self.label matches Some(x) ==> self.encode_fields()["label"@] == Json::Str(x),
            self.encode_fields().contains_key("isRequired"@) <==> self.is_required is Some,
            self.is_required matches Some(x)
                ==> self.encode_fields()["isRequired"@] == Json::Bool(x),
            self.encode_fields().contains_key("errorMessage"@) <==> self.error_message is Some,
            self.error_message matches Some(x)
                ==> self.encode_fields()["errorMessage"@] == Json::Str(x),
            self.encode_fields().contains_key("separator"@) <==> self.separator is Some,
            self.separator matches Some(x) ==> self.encode_fields()["separator"@] == Json::Bool(x),
            self.encode_fields().contains_key("spacing"@) <==> self.spacing is Some,
            self.spacing matches Some(x) ==> self.encode_fields()["spacing"@] == token_json(x),
            self.encode_fields().contains_key("height"@) <==> self.height is Some,
            self.height matches Some(x) ==> self.encode_fields()["height"@] == token_json(x),
            self.encode_fields().contains_key("isVisible"@) <==> self.is_visible is Some,
            self.is_visible matches Some(x) ==> self.encode_fields()["isVisible"@] == Json::Bool(x),
    {
        lemma_with_opt();
        lemma_key_shapes();
    }

    /// Nothing else is written: every key is that of a field, and none holds
    /// `null`.
    pub proof fn lemma_written_keys(self, key: Seq<char>)
        requires
            self.encode_fields().contains_key(key),
        ensures
            Self::is_key(key),
            !(self.encode_fields()[key] is Null),
    {
        lemma_with_opt();
    }

    /// What the value carries besides the fields of its kind.
    pub open spec fn base(self) -> BaseFieldsView {
        BaseFieldsView {
            id: Some(self.id),
            separator: self.separator,
            spacing: self.spacing,
            height: self.height,
            is_visible: self.is_visible,
        }
    }

    /// The base fields are written among the fields of the value, each under
    /// its own key and as it is written on its own.
    pub proof fn lemma_base_is_flat(self, key: Seq<char>)
        requires
            self.base().encode_fields().contains_key(key),
        ensures
            self.encode_fields().contains_key(key),
            self.encode_fields()[key] == self.base().encode_fields()[key],
    {
        self.base().lemma_written_keys(key);
        self.base().lemma_written();
        self.lemma_written();
    }

    /// Reading what was written gives the value back, also where the object
    /// says under `type` what it is.
    pub proof fn lemma_roundtrip_tagged(self, tag: Option<Json>)
        ensures
            gives(Self::decode_fields(with_opt(self.encode_fields(), type_key(), tag)), self),
    {
        self.lemma_written();
        lemma_key_shapes();
        lemma_tag_keeps(self.encode_fields(), tag);
        let m = with_opt(self.encode_fields(), type_key(), tag);
        lemma_reads_text(m, "id"@, self.id);
        lemma_reads_opt_number(m, "min"@, self.min);
        lemma_reads_opt_number(m, "max"@, self.max);
        lemma_reads_opt_text(m, "placeholder"@, self.placeholder);
        lemma_reads_opt_number(m, "value"@, self.value);
        lemma_reads_opt_text(m, "label"@, self.label);
        lemma_reads_opt_bool(m, "isRequired"@, self.is_required);
        lemma_reads_opt_text(m, "errorMessage"@, self.error_message);
        lemma_reads_opt_bool(m, "separator"@, self.separator);
        lemma_reads_opt_token(m, "spacing"@, self.spacing);
        lemma_reads_opt_token(m, "height"@, self.height);
        lemma_reads_opt_bool(m, "isVisible"@, self.is_visible);
    }

    /// Reading what was written gives the value back.
    pub proof fn lemma_roundtrip(self)
        ensures
            gives(Self::decode_fields(self.encode_fields()), self),
            gives(Self::decode_spec(self.encode_spec()), self),
    {
        lemma_with_none(self.encode_fields(), type_key());
        self.lemma_roundtrip_tagged(None);
    }
}

impl InputNumber {
    /// What the value carries besides the fields of its kind.
    pub fn base(&self) -> (r: BaseFields)
        ensures
            r@ == self@.base(),
    {
        BaseFields {
            id: Some(self.id.clone()),
            separator: self.separator,
            spacing: self.spacing,
            height: self.height,
            is_visible: self.is_visible,
        }
    }

    /// The fields of the JSON object that stands for the value.
    pub fn encode_fields(&self) -> (m: Object)
        ensures
            object_fields(m) == self@.encode_fields(),
    {
        let mut m = new_object();
        put_text(&mut m, "id", self.id.as_str());
        put_opt_number(&mut m, "min", &self.min);
        put_opt_number(&mut m, "max", &self.max);
        put_opt_text(&mut m, "placeholder", &self.placeholder);
        put_opt_number(&mut m, "value", &self.value);
        put_opt_text(&mut m, "label", &self.label);
        put_opt_bool(&mut m, "isRequired", self.is_required);
        put_opt_text(&mut m, "errorMessage", &self.error_message);
        put_opt_bool(&mut m, "separator", self.separator);
        put_opt_token(&mut m, "spacing", self.spacing);
        put_opt_token(&mut m, "height", self.height);
        put_opt_bool(&mut m, "isVisible", self.is_visible);
        m
    }

    /// The JSON object that stands for the value.
    pub fn encode(&self) -> (v: Value)
        ensures
            value_json(v) == self@.encode_spec(),
    {
        object_value(self.encode_fields())
    }

    /// The value that the fields `m` stand for.
    pub fn decode_fields(m: &Object) -> (r: Result<InputNumber, DecodeError>)
        ensures
            decoded(r) == InputNumberView::decode_fields(object_fields(*m)),
    {
        let id = get_text(m, "id")?;
        let min = get_opt_number(m, "min")?;
        let max = get_opt_number(m, "max")?;
        let placeholder = get_opt_text(m, "placeholder")?;
        let value = get_opt_number(m, "value")?;
        let label = get_opt_text(m, "label")?;
        let is_required = get_opt_bool(m, "isRequired")?;
        let error_message = get_opt_text(m, "errorMessage")?;
        let separator = get_opt_bool(m, "separator")?;
        let spacing = get_opt_token::<Spacing>(m, "spacing")?;
        let height = get_opt_token::<Height>(m, "height")?;
        let is_visible = get_opt_bool(m, "isVisible")?;
        Ok(
            InputNumber {
                id,
                min,
                max,
                placeholder,
                value,
                label,
                is_required,
                error_message,
                separator,
                spacing,
                height,
                is_visible,
            },
        )
    }

    /// The value that the JSON value `v` stands for.
    pub fn decode(v: &Value) -> (r: Result<InputNumber, DecodeError>)
        ensures
            decoded(r) == InputNumberView::decode_spec(value_json(*v)),
    {
        let m = read_object(v)?;
        InputNumber::decode_fields(m)
    }
}

/// Lets the user choose a date.
#[derive(Debug, PartialEq)]
pub struct InputDate {
    /// The identifier under which the value is submitted.
    pub id: String,
    /// The earliest date to accept, in ISO 8601.
    pub min: Option<String>,
    /// The latest date to accept, in ISO 8601.
    pub max: Option<String>,
    /// What is shown while nothing has been chosen.
    pub placeholder: Option<String>,
    /// The date that the field starts with, in ISO 8601.
    pub value: Option<String>,
    /// The label of the input.
    pub label: Option<String>,
    /// Whether the input must be filled in.
    pub is_required: Option<bool>,
    /// The message shown when the input is not valid.
    pub error_message: Option<String>,
    /// Whether a separating line is drawn at the top of the element.
    pub separator: Option<bool>,
    /// The amount of space between this element and the one before it.
    pub spacing: Option<Spacing>,
    /// The height of the element.
    pub height: Option<Height>,
    /// Whether the element is shown.
    pub is_visible: Option<bool>,
}

/// The mathematical model of an [`InputDate`].
pub struct InputDateView {
    pub id: Seq<char>,
    pub min: Option<Seq<char>>,
    pub max: Option<Seq<char>>,
    pub placeholder: Option<Seq<char>>,
    pub value: Option<Seq<char>>,
    pub label: Option<Seq<char>>,
    pub is_required: Option<bool>,
    pub error_message: Option<Seq<char>>,
    pub separator: Option<bool>,
    pub spacing: Option<Spacing>,
    pub height: Option<Height>,
    pub is_visible: Option<bool>,
}

impl View for InputDate {
    type V = InputDateView;

    open spec fn view(&self) -> InputDateView {
        InputDateView {
            id: self.id@,
            min: self.min.deep_view(),
            max: self.max.deep_view(),
            placeholder: self.placeholder.deep_view(),
            value: self.value.deep_view(),
            label: self.label.deep_view(),
            is_required: self.is_required,
            error_message: self.error_message.deep_view(),
            separator: self.separator,
            spacing: self.spacing,
            height: self.height,
            is_visible: self.is_visible,
        }
    }
}

impl Clone for InputDate {
    fn clone(&self) -> (r: Self)
        ensures
            r@ == self@,
    {
        InputDate {
            id: self.id.clone(),
            min: clone_opt_text(&self.min),
            max: clone_opt_text(&self.max),
            placeholder: clone_opt_text(&self.placeholder),
            value: clone_opt_text(&self.value),
            label: clone_opt_text(&self.label),
            is_required: self.is_required,
            error_message: clone_opt_text(&self.error_message),
            separator: self.separator,
            spacing: self.spacing,
            height: self.height,
            is_visible: self.is_visible,
        }
    }
}

impl InputDateView {
    /// Whether `key` is the key of one of the fields.
    pub open spec fn is_key(key: Seq<char>) -> bool {
        ||| key == "id"@
        ||| key == "min"@
        ||| key == "max"@
        ||| key == "placeholder"@
        ||| key == "value"@
        ||| key == "label"@
        ||| key == "isRequired"@
        ||| key == "errorMessage"@
        ||| key == "separator"@
        ||| key == "spacing"@
        ||| key == "height"@
        ||| key == "isVisible"@
    }

    /// The fields that the value is written as.
    pub open spec fn encode_fields(self) -> Fields {
        let m = no_fields();
        let m = with(m, "id"@, Json::Str(self.id));
        let m = with_opt(m, "min"@, opt_text_json(self.min));
        let m = with_opt(m, "max"@, opt_text_json(self.max));
        let m = with_opt(m, "placeholder"@, opt_text_json(self.placeholder));
        let m = with_opt(m, "value"@, opt_text_json(self.value));
        let m = with_opt(m, "label"@, opt_text_json(self.label));
        let m = with_opt(m, "isRequired"@, opt_bool_json(self.is_required));
        let m = with_opt(m, "errorMessage"@, opt_text_json(self.error_message));
        let m = with_opt(m, "separator"@, opt_bool_json(self.separator));
        let m = with_opt(m, "spacing"@, opt_token_json(self.spacing));
        let m = with_opt(m, "height"@, opt_token_json(self.height));
        let m = with_opt(m, "isVisible"@, opt_bool_json(self.is_visible));
        m
    }

    /// The JSON value that the value is written as: an object of its fields.
    pub open spec fn encode_spec(self) -> Json {
        Json::Object(self.encode_fields())
    }

    /// What the fields `m` are read as: the fields are read in their order,
    /// and the first that cannot be read decides the error.
    pub open spec fn decode_fields(m: Fields) -> Result<InputDateView, DecodeErrorView> {
        let id = required_text(m, "id"@);
        let min = optional_text(m, "min"@);
        let max = optional_text(m, "max"@);
        let placeholder = optional_text(m, "placeholder"@);
        let value = optional_text(m, "value"@);
        let label = optional_text(m, "label"@);
        let is_required = optional_bool(m, "isRequired"@);
        let error_message = optional_text(m, "errorMessage"@);
        let separator = optional_bool(m, "separator"@);
        let spacing = optional_token::<Spacing>(m, "spacing"@);
        let height = optional_token::<Height>(m, "height"@);
        let is_visible = optional_bool(m, "isVisible"@);
        if id is Err {
            Err(id->Err_0)
        } else if min is Err {
            Err(min->Err_0)
        } else if max is Err {
            Err(max->Err_0)
        } else if placeholder is Err {
            Err(placeholder->Err_0)
        } else if value is Err {
            Err(value->Err_0)
        } else if label is Err {
            Err(label->Err_0)
        } else if is_required is Err {
            Err(is_required->Err_0)
        } else if error_message is Err {
            Err(error_message->Err_0)
        } else if separator is Err {
            Err(separator->Err_0)
        } else if spacing is Err {
            Err(spacing->Err_0)
        } else if height is Err {
            Err(height->Err_0)
        } else if is_visible is Err {
            Err(is_visible->Err_0)
        } else {
            Ok(
                InputDateView {
                    id: id->Ok_0,
                    min: min->Ok_0,
                    max: max->Ok_0,
                    placeholder: placeholder->Ok_0,
                    value: value->Ok_0,
                    label: label->Ok_0,
                    is_required: is_required->Ok_0,
                    error_message: error_message->Ok_0,
                    separator: separator->Ok_0,
                    spacing: spacing->Ok_0,
                    height: height->Ok_0,
                    is_visible: is_visible->Ok_0,
                },
            )
        }
    }

    /// What the JSON value `j` is read as: it must be an object, and its
    /// fields are read.
    pub open spec fn decode_spec(j: Json) -> Result<InputDateView, DecodeErrorView> {
        match j {
            Json::Object(m) => Self::decode_fields(m),
            _ => Err(mismatch(j)),
        }
    }

    /// What is written: every field that must be there, every other field
    /// exactly where it has a value, and each with its value.
    pub proof fn lemma_written(self)
        ensures
            self.encode_fields().contains_key("id"@),
            self.encode_fields()["id"@] == Json::Str(self.id),
            self.encode_fields().contains_key("min"@) <==> self.min is Some,
            self.min matches Some(x) ==> self.encode_fields()["min"@] == Json::Str(x),
            self.encode_fields().contains_key("max"@) <==> self.max is Some,
            self.max matches Some(x) ==> self.encode_fields()["max"@] == Json::Str(x),
            self.encode_fields().contains_key("placeholder"@) <==> self.placeholder is Some,
            self.placeholder matches Some(x)
                ==> self.encode_fields()["placeholder"@] == Json::Str(x),
            self.encode_fields().contains_key("value"@) <==> self.value is Some,
            self.value matches Some(x) ==> self.encode_fields()["value"@] == Json::Str(x),
            self.encode_fields().contains_key("label"@) <==> self.label is Some,
            self.label matches Some(x) ==> self.encode_fields()["label"@] == Json::Str(x),
            self.encode_fields().contains_key("isRequired"@) <==> self.is_required is Some,
            self.is_required matches Some(x)
                ==> self.encode_fields()["isRequired"@] == Json::Bool(x),
            self.encode_fields().contains_key("errorMessage"@) <==> self.error_message is Some,
            self.error_message matches Some(x)
                ==> self.encode_fields()["errorMessage"@] == Json::Str(x),
            self.encode_fields().contains_key("separator"@) <==> self.separator is Some,
            self.separator matches Some(x) ==> self.encode_fields()["separator"@] == Json::Bool(x),
            self.encode_fields().contains_key("spacing"@) <==> self.spacing is Some,
            self.spacing matches Some(x) ==> self.encode_fields()["spacing"@] == token_json(x),
            self.encode_fields().contains_key("height"@) <==> self.height is Some,
            self.height matches Some(x) ==> self.encode_fields()["height"@] == token_json(x),
            self.encode_fields().contains_key("isVisible"@) <==> self.is_visible is Some,
            self.is_visible matches Some(x) ==> self.encode_fields()["isVisible"@] == Json::Bool(x),
    {
        lemma_with_opt();
        lemma_key_shapes();
    }

    /// Nothing else is written: every key is that of a field, and none holds
    /// `null`.
    pub proof fn lemma_written_keys(self, key: Seq<char>)
        requires
            self.encode_fields().contains_key(key),
        ensures
            Self::is_key(key),
            !(self.encode_fields()[key] is Null),
    {
        lemma_with_opt();
    }

    /// What the value carries besides the fields of its kind.
    pub open spec fn base(self) -> BaseFieldsView {
        BaseFieldsView {
            id: Some(self.id),
            separator: self.separator,
            spacing: self.spacing,
            height: self.height,
            is_visible: self.is_visible,
        }
    }

    /// The base fields are written among the fields of the value, each under
    /// its own key and as it is written on its own.
    pub proof fn lemma_base_is_flat(self, key: Seq<char>)
        requires
            self.base().encode_fields().contains_key(key),
        ensures
            self.encode_fields().contains_key(key),
            self.encode_fields()[key] == self.base().encode_fields()[key],
    {
        self.base().lemma_written_keys(key);
        self.base().lemma_written();
        self.lemma_written();
    }

    /// Reading what was written gives the value back, also where the object
    /// says under `type` what it is.
    pub proof fn lemma_roundtrip_tagged(self, tag: Option<Json>)
        ensures
            gives(Self::decode_fields(with_opt(self.encode_fields(), type_key(), tag)), self),
    {
        self.lemma_written();
        lemma_key_shapes();
        lemma_tag_keeps(self.encode_fields(), tag);
        let m = with_opt(self.encode_fields(), type_key(), tag);
        lemma_reads_text(m, "id"@, self.id);
        lemma_reads_opt_text(m, "min"@, self.min);
        lemma_reads_opt_text(m, "max"@, self.max);
        lemma_reads_opt_text(m, "placeholder"@, self.placeholder);
        lemma_reads_opt_text(m, "value"@, self.value);
        lemma_reads_opt_text(m, "label"@, self.label);
        lemma_reads_opt_bool(m, "isRequired"@, self.is_required);
        lemma_reads_opt_text(m, "errorMessage"@, self.error_message);
        lemma_reads_opt_bool(m, "separator"@, self.separator);
        lemma_reads_opt_token(m, "spacing"@, self.spacing);
        lemma_reads_opt_token(m, "height"@, self.height);
        lemma_reads_opt_bool(m, "isVisible"@, self.is_visible);
    }

    /// Reading what was written gives the value back.
    pub proof fn lemma_roundtrip(self)
        ensures
            gives(Self::decode_fields(self.encode_fields()), self),
            gives(Self::decode_spec(self.encode_spec()), self),
    {
        lemma_with_none(self.encode_fields(), type_key());
        self.lemma_roundtrip_tagged(None);
    }
}

impl InputDate {
    /// What the value carries besides the fields of its kind.
    pub fn base(&self) -> (r: BaseFields)
        ensures
            r@ == self@.base(),
    {
        BaseFields {
            id: Some(self.id.clone()),
            separator: self.separator,
            spacing: self.spacing,
            height: self.height,
            is_visible: self.is_visible,
        }
    }

    /// The fields of the JSON object that stands for the value.
    pub fn encode_fields(&self) -> (m: Object)
        ensures
            object_fields(m) == self@.encode_fields(),
    {
        let mut m = new_object();
        put_text(&mut m, "id", self.id.as_str());
        put_opt_text(&mut m, "min", &self.min);
        put_opt_text(&mut m, "max", &self.max);
        put_opt_text(&mut m, "placeholder", &self.placeholder);
        put_opt_text(&mut m, "value", &self.value);
        put_opt_text(&mut m, "label", &self.label);
        put_opt_bool(&mut m, "isRequired", self.is_required);
        put_opt_text(&mut m, "errorMessage", &self.error_message);
        put_opt_bool(&mut m, "separator", self.separator);
        put_opt_token(&mut m, "spacing", self.spacing);
        put_opt_token(&mut m, "height", self.height);
        put_opt_bool(&mut m, "isVisible", self.is_visible);
        m
    }

    /// The JSON object that stands for the value.
    pub fn encode(&self) -> (v: Value)
        ensures
            value_json(v) == self@.encode_spec(),
    {
        object_value(self.encode_fields())
    }

    /// The value that the fields `m` stand for.
    pub fn decode_fields(m: &Object) -> (r: Result<InputDate, DecodeError>)
        ensures
            decoded(r) == InputDateView::decode_fields(object_fields(*m)),
    {
        let id = get_text(m, "id")?;
        let min = get_opt_text(m, "min")?;
        let max = get_opt_text(m, "max")?;
        let placeholder = get_opt_text(m, "placeholder")?;
        let value = get_opt_text(m, "value")?;
        let label = get_opt_text(m, "label")?;
        let is_required = get_opt_bool(m, "isRequired")?;
        let error_message = get_opt_text(m, "errorMessage")?;
        let separator = get_opt_bool(m, "separator")?;
        let spacing = get_opt_token::<Spacing>(m, "spacing")?;
        let height = get_opt_token::<Height>(m, "height")?;
        let is_visible = get_opt_bool(m, "isVisible")?;
        Ok(
            InputDate {
                id,
                min,
                max,
                placeholder,
                value,
                label,
                is_required,
                error_message,
                separator,
                spacing,
                height,
                is_visible,
            },
        )
    }

    /// The value that the JSON value `v` stands for.
    pub fn decode(v: &Value) -> (r: Result<InputDate, DecodeError>)
        ensures
            decoded(r) == InputDateView::decode_spec(value_json(*v)),
    {
        let m = read_object(v)?;
        InputDate::decode_fields(m)
    }
}

/// Lets the user choose a time.
#[derive(Debug, PartialEq)]
pub struct InputTime {
    /// The identifier under which the value is submitted.
    pub id: String,
    /// The earliest time to accept, in ISO 8601.
    pub min: Option<String>,
    /// The latest time to accept, in ISO 8601.
    pub max: Option<String>,
    /// What is shown while nothing has been chosen.
    pub placeholder: Option<String>,
    /// The time that the field starts with, in ISO 8601.
    pub value: Option<String>,
    /// The label of the input.
    pub label: Option<String>,
    /// Whether the input must be filled in.
    pub is_required: Option<bool>,
    /// The message shown when the input is not valid.
    pub error_message: Option<String>,
    /// Whether a separating line is drawn at the top of the element.
    pub separator: Option<bool>,
    /// The amount of space between this element and the one before it.
    pub spacing: Option<Spacing>,
    /// The height of the element.
    pub height: Option<Height>,
    /// Whether the element is shown.
    pub is_visible: Option<bool>,
}

/// The mathematical model of an [`InputTime`].
pub struct InputTimeView {
    pub id: Seq<char>,
    pub min: Option<Seq<char>>,
    pub max: Option<Seq<char>>,
    pub placeholder: Option<Seq<char>>,
    pub value: Option<Seq<char>>,
    pub label: Option<Seq<char>>,
    pub is_required: Option<bool>,
    pub error_message: Option<Seq<char>>,
    pub separator: Option<bool>,
    pub spacing: Option<Spacing>,
    pub height: Option<Height>,
    pub is_visible: Option<bool>,
}

impl View for InputTime {
    type V = InputTimeView;

    open spec fn view(&self) -> InputTimeView {
        InputTimeView {
            id: self.id@,
            min: self.min.deep_view(),
            max: self.max.deep_view(),
            placeholder: self.placeholder.deep_view(),
            value: self.value.deep_view(),
            label: self.label.deep_view(),
            is_required: self.is_required,
            error_message: self.error_message.deep_view(),
            separator: self.separator,
            spacing: self.spacing,
            height: self.height,
            is_visible: self.is_visible,
        }
    }
}

impl Clone for InputTime {
    fn clone(&self) -> (r: Self)
        ensures
            r@ == self@,
    {
        InputTime {
            id: self.id.clone(),
            min: clone_opt_text(&self.min),
            max: clone_opt_text(&self.max),
            placeholder: clone_opt_text(&self.placeholder),
            value: clone_opt_text(&self.value),
            label: clone_opt_text(&self.label),
            is_required: self.is_required,
            error_message: clone_opt_text(&self.error_message),
            separator: self.separator,
            spacing: self.spacing,
            height: self.height,
            is_visible: self.is_visible,
        }
    }
}

impl InputTimeView {
    /// Whether `key` is the key of one of the fields.
    pub open spec fn is_key(key: Seq<char>) -> bool {
        ||| key == "id"@
        ||| key == "min"@
        ||| key == "max"@
        ||| key == "placeholder"@
        ||| key == "value"@
        ||| key == "label"@
        ||| key == "isRequired"@
        ||| key == "errorMessage"@
        ||| key == "separator"@
        ||| key == "spacing"@
        ||| key == "height"@
        ||| key == "isVisible"@
    }

    /// The fields that the value is written as.
    pub open spec fn encode_fields(self) -> Fields {
        let m = no_fields();
        let m = with(m, "id"@, Json::Str(self.id));
        let m = with_opt(m, "min"@, opt_text_json(self.min));
        let m = with_opt(m, "max"@, opt_text_json(self.max));
        let m = with_opt(m, "placeholder"@, opt_text_json(self.placeholder));
        let m = with_opt(m, "value"@, opt_text_json(self.value));
        let m = with_opt(m, "label"@, opt_text_json(self.label));
        let m = with_opt(m, "isRequired"@, opt_bool_json(self.is_required));
        let m = with_opt(m, "errorMessage"@, opt_text_json(self.error_message));
        let m = with_opt(m, "separator"@, opt_bool_json(self.separator));
        let m = with_opt(m, "spacing"@, opt_token_json(self.spacing));
        let m = with_opt(m, "height"@, opt_token_json(self.height));
        let m = with_opt(m, "isVisible"@, opt_bool_json(self.is_visible));
        m
    }

    /// The JSON value that the value is written as: an object of its fields.
    pub open spec fn encode_spec(self) -> Json {
        Json::Object(self.encode_fields())
    }

    /// What the fields `m` are read as: the fields are read in their order,
    /// and the first that cannot be read decides the error.
    pub open spec fn decode_fields(m: Fields) -> Result<InputTimeView, DecodeErrorView> {
        let id = required_text(m, "id"@);
        let min = optional_text(m, "min"@);
        let max = optional_text(m, "max"@);
        let placeholder = optional_text(m, "placeholder"@);
        let value = optional_text(m, "value"@);
        let label = optional_text(m, "label"@);
        let is_required = optional_bool(m, "isRequired"@);
        let error_message = optional_text(m, "errorMessage"@);
        let separator = optional_bool(m, "separator"@);
        let spacing = optional_token::<Spacing>(m, "spacing"@);
        let height = optional_token::<Height>(m, "height"@);
        let is_visible = optional_bool(m, "isVisible"@);
        if id is Err {
            Err(id->Err_0)
        } else if min is Err {
            Err(min->Err_0)
        } else if max is Err {
            Err(max->Err_0)
        } else if placeholder is Err {
            Err(placeholder->Err_0)
        } else if value is Err {
            Err(value->Err_0)
        } else if label is Err {
            Err(label->Err_0)
        } else if is_required is Err {
            Err(is_required->Err_0)
        } else if error_message is Err {
            Err(error_message->Err_0)
        } else if separator is Err {
            Err(separator->Err_0)
        } else if spacing is Err {
            Err(spacing->Err_0)
        } else if height is Err {
            Err(height->Err_0)
        } else if is_visible is Err {
            Err(is_visible->Err_0)
        } else {
            Ok(
                InputTimeView {
                    id: id->Ok_0,
                    min: min->Ok_0,
                    max: max->Ok_0,
                    placeholder: placeholder->Ok_0,
                    value: value->Ok_0,
                    label: label->Ok_0,
                    is_required: is_required->Ok_0,
                    error_message: error_message->Ok_0,
                    separator: separator->Ok_0,
                    spacing: spacing->Ok_0,
                    height: height->Ok_0,
                    is_visible: is_visible->Ok_0,
                },
            )
        }
    }

    /// What the JSON value `j` is read as: it must be an object, and its
    /// fields are read.
    pub open spec fn decode_spec(j: Json) -> Result<InputTimeView, DecodeErrorView> {
        match j {
            Json::Object(m) => Self::decode_fields(m),
            _ => Err(mismatch(j)),
        }
    }

    /// What is written: every field that must be there, every other field
    /// exactly where it has a value, and each with its value.
    pub proof fn lemma_written(self)
        ensures
            self.encode_fields().contains_key("id"@),
            self.encode_fields()["id"@] == Json::Str(self.id),
            self.encode_fields().contains_key("min"@) <==> self.min is Some,
            self.min matches Some(x) ==> self.encode_fields()["min"@] == Json::Str(x),
            self.encode_fields().contains_key("max"@) <==> self.max is Some,
            self.max matches Some(x) ==> self.encode_fields()["max"@] == Json::Str(x),
            self.encode_fields().contains_key("placeholder"@) <==> self.placeholder is Some,
            self.placeholder matches Some(x)
                ==> self.encode_fields()["placeholder"@] == Json::Str(x),
            self.encode_fields().contains_key("value"@) <==> self.value is Some,
            self.value matches Some(x) ==> self.encode_fields()["value"@] == Json::Str(x),
            self.encode_fields().contains_key("label"@) <==> self.label is Some,
            self.label matches Some(x) ==> self.encode_fields()["label"@] == Json::Str(x),
            self.encode_fields().contains_key("isRequired"@) <==> self.is_required is Some,
            self.is_required matches Some(x)
                ==> self.encode_fields()["isRequired"@] == Json::Bool(x),
            self.encode_fields().contains_key("errorMessage"@) <==> self.error_message is Some,
            self.error_message matches Some(x)
                ==> self.encode_fields()["errorMessage"@] == Json::Str(x),
            self.encode_fields().contains_key("separator"@) <==> self.separator is Some,
            self.separator matches Some(x) ==> self.encode_fields()["separator"@] == Json::Bool(x),
            self.encode_fields().contains_key("spacing"@) <==> self.spacing is Some,
            self.spacing matches Some(x) ==> self.encode_fields()["spacing"@] == token_json(x),
            self.encode_fields().contains_key("height"@) <==> self.height is Some,
            self.height matches Some(x) ==> self.encode_fields()["height"@] == token_json(x),
            self.encode_fields().contains_key("isVisible"@) <==> self.is_visible is Some,
            self.is_visible matches Some(x) ==> self.encode_fields()["isVisible"@] == Json::Bool(x),
    {
        lemma_with_opt();
        lemma_key_shapes();
    }

    /// Nothing else is written: every key is that of a field, and none holds
    /// `null`.
    pub proof fn lemma_written_keys(self, key: Seq<char>)
        requires
            self.encode_fields().contains_key(key),
        ensures
            Self::is_key(key),
            !(self.encode_fields()[key] is Null),
    {
        lemma_with_opt();
    }

    /// What the value carries besides the fields of its kind.
    pub open spec fn base(self) -> BaseFieldsView {
        BaseFieldsView {
            id: Some(self.id),
            separator: self.separator,
            spacing: self.spacing,
            height: self.height,
            is_visible: self.is_visible,
        }
    }

    /// The base fields are written among the fields of the value, each under
    /// its own key and as it is written on its own.
    pub proof fn lemma_base_is_flat(self, key: Seq<char>)
        requires
            self.base().encode_fields().contains_key(key),
        ensures
            self.encode_fields().contains_key(key),
            self.encode_fields()[key] == self.base().encode_fields()[key],
    {
        self.base().lemma_written_keys(key);
        self.base().lemma_written();
        self.lemma_written();
    }

    /// Reading what was written gives the value back, also where the object
    /// says under `type` what it is.
    pub proof fn lemma_roundtrip_tagged(self, tag: Option<Json>)
        ensures
            gives(Self::decode_fields(with_opt(self.encode_fields(), type_key(), tag)), self),
    {
        self.lemma_written();
        lemma_key_shapes();
        lemma_tag_keeps(self.encode_fields(), tag);
        let m = with_opt(self.encode_fields(), type_key(), tag);
        lemma_reads_text(m, "id"@, self.id);
        lemma_reads_opt_text(m, "min"@, self.min);
        lemma_reads_opt_text(m, "max"@, self.max);
        lemma_reads_opt_text(m, "placeholder"@, self.placeholder);
        lemma_reads_opt_text(m, "value"@, self.value);
        lemma_reads_opt_text(m, "label"@, self.label);
        lemma_reads_opt_bool(m, "isRequired"@, self.is_required);
        lemma_reads_opt_text(m, "errorMessage"@, self.error_message);
        lemma_reads_opt_bool(m, "separator"@, self.separator);
        lemma_reads_opt_token(m, "spacing"@, self.spacing);
        lemma_reads_opt_token(m, "height"@, self.height);
        lemma_reads_opt_bool(m, "isVisible"@, self.is_visible);
    }

    /// Reading what was written gives the value back.
    pub proof fn lemma_roundtrip(self)
        ensures
            gives(Self::decode_fields(self.encode_fields()), self),
            gives(Self::decode_spec(self.encode_spec()), self),
    {
        lemma_with_none(self.encode_fields(), type_key());
        self.lemma_roundtrip_tagged(None);
    }
}

impl InputTime {
    /// What the value carries besides the fields of its kind.
    pub fn base(&self) -> (r: BaseFields)
        ensures
            r@ == self@.base(),
    {
        BaseFields {
            id: Some(self.id.clone()),
            separator: self.separator,
            spacing: self.spacing,
            height: self.height,
            is_visible: self.is_visible,
        }
    }

    /// The fields of the JSON object that stands for the value.
    pub fn encode_fields(&self) -> (m: Object)
        ensures
            object_fields(m) == self@.encode_fields(),
    {
        let mut m = new_object();
        put_text(&mut m, "id", self.id.as_str());
        put_opt_text(&mut m, "min", &self.min);
        put_opt_text(&mut m, "max", &self.max);
        put_opt_text(&mut m, "placeholder", &self.placeholder);
        put_opt_text(&mut m, "value", &self.value);
        put_opt_text(&mut m, "label", &self.label);
        put_opt_bool(&mut m, "isRequired", self.is_required);
        put_opt_text(&mut m, "errorMessage", &self.error_message);
        put_opt_bool(&mut m, "separator", self.separator);
        put_opt_token(&mut m, "spacing", self.spacing);
        put_opt_token(&mut m, "height", self.height);
        put_opt_bool(&mut m, "isVisible", self.is_visible);
        m
    }

    /// The JSON object that stands for the value.
    pub fn encode(&self) -> (v: Value)
        ensures
            value_json(v) == self@.encode_spec(),
    {
        object_value(self.encode_fields())
    }

    /// The value that the fields `m` stand for.
    pub fn decode_fields(m: &Object) -> (r: Result<InputTime, DecodeError>)
        ensures
            decoded(r) == InputTimeView::decode_fields(object_fields(*m)),
    {
        let id = get_text(m, "id")?;
        let min = get_opt_text(m, "min")?;
        let max = get_opt_text(m, "max")?;
        let placeholder = get_opt_text(m, "placeholder")?;
        let value = get_opt_text(m, "value")?;
        let label = get_opt_text(m, "label")?;
        let is_required = get_opt_bool(m, "isRequired")?;
        let error_message = get_opt_text(m, "errorMessage")?;
        let separator = get_opt_bool(m, "separator")?;
        let spacing = get_opt_token::<Spacing>(m, "spacing")?;
        let height = get_opt_token::<Height>(m, "height")?;
        let is_visible = get_opt_bool(m, "isVisible")?;
        Ok(
            InputTime {
                id,
                min,
                max,
                placeholder,
                value,
                label,
                is_required,
                error_message,
                separator,
                spacing,
                height,
                is_visible,
            },
        )
    }

    /// The value that the JSON value `v` stands for.
    pub fn decode(v: &Value) -> (r: Result<InputTime, DecodeError>)
        ensures
            decoded(r) == InputTimeView::decode_spec(value_json(*v)),
    {
        let m = read_object(v)?;
        InputTime::decode_fields(m)
    }
}

/// Lets the user choose between two options.
#[derive(Debug, PartialEq)]
pub struct InputToggle {
    /// The identifier under which the value is submitted.
    pub id: String,
    /// The title of the toggle.
    pub title: String,
    /// The value that the toggle starts with.
    pub value: Option<String>,
    /// The value submitted when the toggle is on.
    pub value_on: Option<String>,
    /// The value submitted when the toggle is off.
    pub value_off: Option<String>,
    /// Whether the title wraps where it exceeds the available width.
    pub wrap: Option<bool>,
    /// The label of the input.
    pub label: Option<String>,
    /// Whether the input must be filled in.
    pub is_required: Option<bool>,
    /// The message shown when the input is not valid.
    pub error_message: Option<String>,
    /// Whether a separating line is drawn at the top of the element.
    pub separator: Option<bool>,
    /// The amount of space between this element and the one before it.
    pub spacing: Option<Spacing>,
    /// The height of the element.
    pub height: Option<Height>,
    /// Whether the element is shown.
    pub is_visible: Option<bool>,
}

/// The mathematical model of an [`InputToggle`].
pub struct InputToggleView {
    pub id: Seq<char>,
    pub title: Seq<char>,
    pub value: Option<Seq<char>>,
    pub value_on: Option<Seq<char>>,
    pub value_off: Option<Seq<char>>,
    pub wrap: Option<bool>,
    pub label: Option<Seq<char>>,
    pub is_required: Option<bool>,
    pub error_message: Option<Seq<char>>,
    pub separator: Option<bool>,
    pub spacing: Option<Spacing>,
    pub height: Option<Height>,
    pub is_visible: Option<bool>,
}

impl View for InputToggle {
    type V = InputToggleView;

    open spec fn view(&self) -> InputToggleView {
        InputToggleView {
            id: self.id@,
            title: self.title@,
            value: self.value.deep_view(),
            value_on: self.value_on.deep_view(),
            value_off: self.value_off.deep_view(),
            wrap: self.wrap,
            label: self.label.deep_view(),
            is_required: self.is_required,
            error_message: self.error_message.deep_view(),
            separator: self.separator,
            spacing: self.spacing,
            height: self.height,
            is_visible: self.is_visible,
        }
    }
}

impl Clone for InputToggle {
    fn clone(&self) -> (r: Self)
        ensures
            r@ == self@,
    {
        InputToggle {
            id: self.id.clone(),
            title: self.title.clone(),
            value: clone_opt_text(&self.value),
            value_on: clone_opt_text(&self.value_on),
            value_off: clone_opt_text(&self.value_off),
            wrap: self.wrap,
            label: clone_opt_text(&self.label),
            is_required: self.is_required,
            error_message: clone_opt_text(&self.error_message),
            separator: self.separator,
            spacing: self.spacing,
            height: self.height,
            is_visible: self.is_visible,
        }
    }
}

impl InputToggleView {
    /// Whether `key` is the key of one of the fields.
    pub open spec fn is_key(key: Seq<char>) -> bool {
        ||| key == "id"@
        ||| key == "title"@
        ||| key == "value"@
        ||| key == "valueOn"@
        ||| key == "valueOff"@
        ||| key == "wrap"@
        ||| key == "label"@
        ||| key == "isRequired"@
        ||| key == "errorMessage"@
        ||| key == "separator"@
        ||| key == "spacing"@
        ||| key == "height"@
        ||| key == "isVisible"@
    }

    /// The fields that the value is written as.
    pub open spec fn encode_fields(self) -> Fields {
        let m = no_fields();
        let m = with(m, "id"@, Json::Str(self.id));
        let m = with(m, "title"@, Json::Str(self.title));
        let m = with_opt(m, "value"@, opt_text_json(self.value));
        let m = with_opt(m, "valueOn"@, opt_text_json(self.value_on));
        let m = with_opt(m, "valueOff"@, opt_text_json(self.value_off));
        let m = with_opt(m, "wrap"@, opt_bool_json(self.wrap));
        let m = with_opt(m, "label"@, opt_text_json(self.label));
        let m = with_opt(m, "isRequired"@, opt_bool_json(self.is_required));
        let m = with_opt(m, "errorMessage"@, opt_text_json(self.error_message));
        let m = with_opt(m, "separator"@, opt_bool_json(self.separator));
        let m = with_opt(m, "spacing"@, opt_token_json(self.spacing));
        let m = with_opt(m, "height"@, opt_token_json(self.height));
        let m = with_opt(m, "isVisible"@, opt_bool_json(self.is_visible));
        m
    }

    /// The JSON value that the value is written as: an object of its fields.
    pub open spec fn encode_spec(self) -> Json {
        Json::Object(self.encode_fields())
    }

    /// What the fields `m` are read as: the fields are read in their order,
    /// and the first that cannot be read decides the error.
    pub open spec fn decode_fields(m: Fields) -> Result<InputToggleView, DecodeErrorView> {
        let id = required_text(m, "id"@);
        let title = required_text(m, "title"@);
        let value = optional_text(m, "value"@);
        let value_on = optional_text(m, "valueOn"@);
        let value_off = optional_text(m, "valueOff"@);
        let wrap = optional_bool(m, "wrap"@);
        let label = optional_text(m, "label"@);
        let is_required = optional_bool(m, "isRequired"@);
        let error_message = optional_text(m, "errorMessage"@);
        let separator = optional_bool(m, "separator"@);
        let spacing = optional_token::<Spacing>(m, "spacing"@);
        let height = optional_token::<Height>(m, "height"@);
        let is_visible = optional_bool(m, "isVisible"@);
        if id is Err {
            Err(id->Err_0)
        } else if title is Err {
            Err(title->Err_0)
        } else if value is Err {
            Err(value->Err_0)
        } else if value_on is Err {
            Err(value_on->Err_0)
        } else if value_off is Err {
            Err(value_off->Err_0)
        } else if wrap is Err {
            Err(wrap->Err_0)
        } else if label is Err {
            Err(label->Err_0)
        } else if is_required is Err {
            Err(is_required->Err_0)
        } else if error_message is Err {
            Err(error_message->Err_0)
        } else if separator is Err {
            Err(separator->Err_0)
        } else if spacing is Err {
            Err(spacing->Err_0)
        } else if height is Err {
            Err(height->Err_0)
        } else if is_visible is Err {
            Err(is_visible->Err_0)
        } else {
            Ok(
                InputToggleView {
                    id: id->Ok_0,
                    title: title->Ok_0,
                    value: value->Ok_0,
                    value_on: value_on->Ok_0,
                    value_off: value_off->Ok_0,
                    wrap: wrap->Ok_0,
                    label: label->Ok_0,
                    is_required: is_required->Ok_0,
                    error_message: error_message->Ok_0,
                    separator: separator->Ok_0,
                    spacing: spacing->Ok_0,
                    height: height->Ok_0,
                    is_visible: is_visible->Ok_0,
                },
            )
        }
    }

    /// What the JSON value `j` is read as: it must be an object, and its
    /// fields are read.
    pub open spec fn decode_spec(j: Json) -> Result<InputToggleView, DecodeErrorView> {
        match j {
            Json::Object(m) => Self::decode_fields(m),
            _ => Err(mismatch(j)),
        }
    }

    /// What is written: every field that must be there, every other field
    /// exactly where it has a value, and each with its value.
    pub proof fn lemma_written(self)
        ensures
            self.encode_fields().contains_key("id"@),
            self.encode_fields()["id"@] == Json::Str(self.id),
            self.encode_fields().contains_key("title"@),
            self.encode_fields()["title"@] == Json::Str(self.title),
            self.encode_fields().contains_key("value"@) <==> self.value is Some,
            self.value matches Some(x) ==> self.encode_fields()["value"@] == Json::Str(x),
            self.encode_fields().contains_key("valueOn"@) <==> self.value_on is Some,
            self.value_on matches Some(x) ==> self.encode_fields()["valueOn"@] == Json::Str(x),
            self.encode_fields().contains_key("valueOff"@) <==> self.value_off is Some,
            self.value_off matches Some(x) ==> self.encode_fields()["valueOff"@] == Json::Str(x),
            self.encode_fields().contains_key("wrap"@) <==> self.wrap is Some,
            self.wrap matches Some(x) ==> self.encode_fields()["wrap"@] == Json::Bool(x),
            self.encode_fields().contains_key("label"@) <==> self.label is Some,
            self.label matches Some(x) ==> self.encode_fields()["label"@] == Json::Str(x),
            self.encode_fields().contains_key("isRequired"@) <==> self.is_required is Some,
            self.is_required matches Some(x)
                ==> self.encode_fields()["isRequired"@] == Json::Bool(x),
            self.encode_fields().contains_key("errorMessage"@) <==> self.error_message is Some,
            self.error_message matches Some(x)
                ==> self.encode_fields()["errorMessage"@] == Json::Str(x),
            self.encode_fields().contains_key("separator"@) <==> self.separator is Some,
            self.separator matches Some(x) ==> self.encode_fields()["separator"@] == Json::Bool(x),
            self.encode_fields().contains_key("spacing"@) <==> self.spacing is Some,
            self.spacing matches Some(x) ==> self.encode_fields()["spacing"@] == token_json(x),
            self.encode_fields().contains_key("height"@) <==> self.height is Some,
            self.height matches Some(x) ==> self.encode_fields()["height"@] == token_json(x),
            self.encode_fields().contains_key("isVisible"@) <==> self.is_visible is Some,
            self.is_visible matches Some(x) ==> self.encode_fields()["isVisible"@] == Json::Bool(x),
    {
        lemma_with_opt();
        lemma_key_shapes();
    }

    /// Nothing else is written: every key is that of a field, and none holds
    /// `null`.
    pub proof fn lemma_written_keys(self, key: Seq<char>)
        requires
            self.encode_fields().contains_key(key),
        ensures
            Self::is_key(key),
            !(self.encode_fields()[key] is Null),
    {
        lemma_with_opt();
    }

    /// What the value carries besides the fields of its kind.
    pub open spec fn base(self) -> BaseFieldsView {
        BaseFieldsView {
            id: Some(self.id),
            separator: self.separator,
            spacing: self.spacing,
            height: self.height,
            is_visible: self.is_visible,
        }
    }

    /// The base fields are written among the fields of the value, each under
    /// its own key and as it is written on its own.
    pub proof fn lemma_base_is_flat(self, key: Seq<char>)
        requires
            self.base().encode_fields().contains_key(key),
        ensures
            self.encode_fields().contains_key(key),
            self.encode_fields()[key] == self.base().encode_fields()[key],
    {
        self.base().lemma_written_keys(key);
        self.base().lemma_written();
        self.lemma_written();
    }

    /// Reading what was written gives the value back, also where the object
    /// says under `type` what it is.
    pub proof fn lemma_roundtrip_tagged(self, tag: Option<Json>)
        ensures
            gives(Self::decode_fields(with_opt(self.encode_fields(), type_key(), tag)), self),
    {
        self.lemma_written();
        lemma_key_shapes();
        lemma_tag_keeps(self.encode_fields(), tag);
        let m = with_opt(self.encode_fields(), type_key(), tag);
        lemma_reads_text(m, "id"@, self.id);
        lemma_reads_text(m, "title"@, self.title);
        lemma_reads_opt_text(m, "value"@, self.value);
        lemma_reads_opt_text(m, "valueOn"@, self.value_on);
        lemma_reads_opt_text(m, "valueOff"@, self.value_off);
        lemma_reads_opt_bool(m, "wrap"@, self.wrap);
        lemma_reads_opt_text(m, "label"@, self.label);
        lemma_reads_opt_bool(m, "isRequired"@, self.is_required);
        lemma_reads_opt_text(m, "errorMessage"@, self.error_message);
        lemma_reads_opt_bool(m, "separator"@, self.separator);
        lemma_reads_opt_token(m, "spacing"@, self.spacing);
        lemma_reads_opt_token(m, "height"@, self.height);
        lemma_reads_opt_bool(m, "isVisible"@, self.is_visible);
    }

    /// Reading what was written gives the value back.
    pub proof fn lemma_roundtrip(self)
        ensures
            gives(Self::decode_fields(self.encode_fields()), self),
            gives(Self::decode_spec(self.encode_spec()), self),
    {
        lemma_with_none(self.encode_fields(), type_key());
        self.lemma_roundtrip_tagged(None);
    }
}

impl InputToggle {
    /// What the value carries besides the fields of its kind.
    pub fn base(&self) -> (r: BaseFields)
        ensures
            r@ == self@.base(),
    {
        BaseFields {
            id: Some(self.id.clone()),
            separator: self.separator,
            spacing: self.spacing,
            height: self.height,
            is_visible: self.is_visible,
        }
    }

    /// The fields of the JSON object that stands for the value.
    pub fn encode_fields(&self) -> (m: Object)
        ensures
            object_fields(m) == self@.encode_fields(),
    {
        let mut m = new_object();
        put_text(&mut m, "id", self.id.as_str());
        put_text(&mut m, "title", self.title.as_str());
        put_opt_text(&mut m, "value", &self.value);
        put_opt_text(&mut m, "valueOn", &self.value_on);
        put_opt_text(&mut m, "valueOff", &self.value_off);
        put_opt_bool(&mut m, "wrap", self.wrap);
        put_opt_text(&mut m, "label", &self.label);
        put_opt_bool(&mut m, "isRequired", self.is_required);
        put_opt_text(&mut m, "errorMessage", &self.error_message);
        put_opt_bool(&mut m, "separator", self.separator);
        put_opt_token(&mut m, "spacing", self.spacing);
        put_opt_token(&mut m, "height", self.height);
        put_opt_bool(&mut m, "isVisible", self.is_visible);
        m
    }

    /// The JSON object that stands for the value.
    pub fn encode(&self) -> (v: Value)
        ensures
            value_json(v) == self@.encode_spec(),
    {
        object_value(self.encode_fields())
    }

    /// The value that the fields `m` stand for.
    pub fn decode_fields(m: &Object) -> (r: Result<InputToggle, DecodeError>)
        ensures
            decoded(r) == InputToggleView::decode_fields(object_fields(*m)),
    {
        let id = get_text(m, "id")?;
        let title = get_text(m, "title")?;
        let value = get_opt_text(m, "value")?;
        let value_on = get_opt_text(m, "valueOn")?;
        let value_off = get_opt_text(m, "valueOff")?;
        let wrap = get_opt_bool(m, "wrap")?;
        let label = get_opt_text(m, "label")?;
        let is_required = get_opt_bool(m, "isRequired")?;
        let error_message = get_opt_text(m, "errorMessage")?;
        let separator = get_opt_bool(m, "separator")?;
        let spacing = get_opt_token::<Spacing>(m, "spacing")?;
        let height = get_opt_token::<Height>(m, "height")?;
        let is_visible = get_opt_bool(m, "isVisible")?;
        Ok(
            InputToggle {
                id,
                title,
                value,
                value_on,
                value_off,
                wrap,
                label,
                is_required,
                error_message,
                separator,
                spacing,
                height,
                is_visible,
            },
        )
    }

    /// The value that the JSON value `v` stands for.
    pub fn decode(v: &Value) -> (r: Result<InputToggle, DecodeError>)
        ensures
            decoded(r) == InputToggleView::decode_spec(value_json(*v)),
    {
        let m = read_object(v)?;
        InputToggle::decode_fields(m)
    }
}

/// Lets the user choose among several options.
#[derive(Debug, PartialEq)]
pub struct InputChoiceSet {
    /// The identifier under which the value is submitted.
    pub id: String,
    /// The options, from the first to the last.
    pub choices: Option<Vec<InputChoice>>,
    /// Whether several options may be chosen.
    pub is_multi_select: Option<bool>,
    /// How the options are presented.
    pub style: Option<ChoiceInputStyle>,
    /// The options chosen at the start, their values separated by commas.
    pub value: Option<String>,
    /// What is shown while nothing has been chosen.
    pub placeholder: Option<String>,
    /// Whether the titles wrap where they exceed the available width.
    pub wrap: Option<bool>,
    /// The label of the input.
    pub label: Option<String>,
    /// Whether the input must be filled in.
    pub is_required: Option<bool>,
    /// The message shown when the input is not valid.
    pub error_message: Option<String>,
    /// Whether a separating line is drawn at the top of the element.
    pub separator: Option<bool>,
    /// The amount of space between this element and the one before it.
    pub spacing: Option<Spacing>,
    /// The height of the element.
    pub height: Option<Height>,
    /// Whether the element is shown.
    pub is_visible: Option<bool>,
}

/// The mathematical model of an [`InputChoiceSet`].
pub struct InputChoiceSetView {
    pub id: Seq<char>,
    pub choices: Option<Seq<InputChoiceView>>,
    pub is_multi_select: Option<bool>,
    pub style: Option<ChoiceInputStyle>,
    pub value: Option<Seq<char>>,
    pub placeholder: Option<Seq<char>>,
    pub wrap: Option<bool>,
    pub label: Option<Seq<char>>,
    pub is_required: Option<bool>,
    pub error_message: Option<Seq<char>>,
    pub separator: Option<bool>,
    pub spacing: Option<Spacing>,
    pub height: Option<Height>,
    pub is_visible: Option<bool>,
}

impl View for InputChoiceSet {
    type V = InputChoiceSetView;

    open spec fn view(&self) -> InputChoiceSetView {
        InputChoiceSetView {
            id: self.id@,
            choices: InputChoice::opt_views(self.choices),
            is_multi_select: self.is_multi_select,
            style: self.style,
            value: self.value.deep_view(),
            placeholder: self.placeholder.deep_view(),
            wrap: self.wrap,
            label: self.label.deep_view(),
            is_required: self.is_required,
            error_message: self.error_message.deep_view(),
            separator: self.separator,
            spacing: self.spacing,
            height: self.height,
            is_visible: self.is_visible,
        }
    }
}

impl Clone for InputChoiceSet {
    fn clone(&self) -> (r: Self)
        ensures
            r@ == self@,
    {
        InputChoiceSet {
            id: self.id.clone(),
            choices: InputChoice::clone_opt_all(&self.choices),
            is_multi_select: self.is_multi_select,
            style: self.style,
            value: clone_opt_text(&self.value),
            placeholder: clone_opt_text(&self.placeholder),
            wrap: self.wrap,
            label: clone_opt_text(&self.label),
            is_required: self.is_required,
            error_message: clone_opt_text(&self.error_message),
            separator: self.separator,
            spacing: self.spacing,
            height: self.height,
            is_visible: self.is_visible,
        }
    }
}

impl InputChoiceSetView {
    /// Whether `key` is the key of one of the fields.
    pub open spec fn is_key(key: Seq<char>) -> bool {
        ||| key == "id"@
        ||| key == "choices"@
        ||| key == "isMultiSelect"@
        ||| key == "style"@
        ||| key == "value"@
        ||| key == "placeholder"@
        ||| key == "wrap"@
        ||| key == "label"@
        ||| key == "isRequired"@
        ||| key == "errorMessage"@
        ||| key == "separator"@
        ||| key == "spacing"@
        ||| key == "height"@
        ||| key == "isVisible"@
    }

    /// The fields that the value is written as.
    pub open spec fn encode_fields(self) -> Fields {
        let m = no_fields();
        let m = with(m, "id"@, Json::Str(self.id));
        let m = with_opt(m, "choices"@, InputChoiceView::opt_all_json(self.choices));
        let m = with_opt(m, "isMultiSelect"@, opt_bool_json(self.is_multi_select));
        let m = with_opt(m, "style"@, opt_token_json(self.style));
        let m = with_opt(m, "value"@, opt_text_json(self.value));
        let m = with_opt(m, "placeholder"@, opt_text_json(self.placeholder));
        let m = with_opt(m, "wrap"@, opt_bool_json(self.wrap));
        let m = with_opt(m, "label"@, opt_text_json(self.label));
        let m = with_opt(m, "isRequired"@, opt_bool_json(self.is_required));
        let m = with_opt(m, "errorMessage"@, opt_text_json(self.error_message));
        let m = with_opt(m, "separator"@, opt_bool_json(self.separator));
        let m = with_opt(m, "spacing"@, opt_token_json(self.spacing));
        let m = with_opt(m, "height"@, opt_token_json(self.height));
        let m = with_opt(m, "isVisible"@, opt_bool_json(self.is_visible));
        m
    }

    /// The JSON value that the value is written as: an object of its fields.
    pub open spec fn encode_spec(self) -> Json {
        Json::Object(self.encode_fields())
    }

    /// What the fields `m` are read as: the fields are read in their order,
    /// and the first that cannot be read decides the error.
    pub open spec fn decode_fields(m: Fields) -> Result<InputChoiceSetView, DecodeErrorView> {
        let id = required_text(m, "id"@);
        let choices = InputChoiceView::optional_all(m, "choices"@);
        let is_multi_select = optional_bool(m, "isMultiSelect"@);
        let style = optional_token::<ChoiceInputStyle>(m, "style"@);
        let value = optional_text(m, "value"@);
        let placeholder = optional_text(m, "placeholder"@);
        let wrap = optional_bool(m, "wrap"@);
        let label = optional_text(m, "label"@);
        let is_required = optional_bool(m, "isRequired"@);
        let error_message = optional_text(m, "errorMessage"@);
        let separator = optional_bool(m, "separator"@);
        let spacing = optional_token::<Spacing>(m, "spacing"@);
        let height = optional_token::<Height>(m, "height"@);
        let is_visible = optional_bool(m, "isVisible"@);
        if id is Err {
            Err(id->Err_0)
        } else if choices is Err {
            Err(choices->Err_0)
        } else if is_multi_select is Err {
            Err(is_multi_select->Err_0)
        } else if style is Err {
            Err(style->Err_0)
        } else if value is Err {
            Err(value->Err_0)
        } else if placeholder is Err {
            Err(placeholder->Err_0)
        } else if wrap is Err {
            Err(wrap->Err_0)
        } else if label is Err {
            Err(label->Err_0)
        } else if is_required is Err {
            Err(is_required->Err_0)
        } else if error_message is Err {
            Err(error_message->Err_0)
        } else if separator is Err {
            Err(separator->Err_0)
        } else if spacing is Err {
            Err(spacing->Err_0)
        } else if height is Err {
            Err(height->Err_0)
        } else if is_visible is Err {
            Err(is_visible->Err_0)
        } else {
            Ok(
                InputChoiceSetView {
                    id: id->Ok_0,
                    choices: choices->Ok_0,
                    is_multi_select: is_multi_select->Ok_0,
                    style: style->Ok_0,
                    value: value->Ok_0,
                    placeholder: placeholder->Ok_0,
                    wrap: wrap->Ok_0,
                    label: label->Ok_0,
                    is_required: is_required->Ok_0,
                    error_message: error_message->Ok_0,
                    separator: separator->Ok_0,
                    spacing: spacing->Ok_0,
                    height: height->Ok_0,
                    is_visible: is_visible->Ok_0,
                },
            )
        }
    }

    /// What the JSON value `j` is read as: it must be an object, and its
    /// fields are read.
    pub open spec fn decode_spec(j: Json) -> Result<InputChoiceSetView, DecodeErrorView> {
        match j {
            Json::Object(m) => Self::decode_fields(m),
            _ => Err(mismatch(j)),
        }
    }

    /// What is written: every field that must be there, every other field
    /// exactly where it has a value, and each with its value.
    pub proof fn lemma_written(self)
        ensures
            self.encode_fields().contains_key("id"@),
            self.encode_fields()["id"@] == Json::Str(self.id),
            self.encode_fields().contains_key("choices"@) <==> self.choices is Some,
            self.choices matches Some(x)
                ==> self.encode_fields()["choices"@] == Json::Array(InputChoiceView::encode_all(x)),
            self.encode_fields().contains_key("isMultiSelect"@) <==> self.is_multi_select is Some,
            self.is_multi_select matches Some(x)
                ==> self.encode_fields()["isMultiSelect"@] == Json::Bool(x),
            self.encode_fields().contains_key("style"@) <==> self.style is Some,
            self.style matches Some(x) ==> self.encode_fields()["style"@] == token_json(x),
            self.encode_fields().contains_key("value"@) <==> self.value is Some,
            self.value matches Some(x) ==> self.encode_fields()["value"@] == Json::Str(x),
            self.encode_fields().contains_key("placeholder"@) <==> self.placeholder is Some,
            self.placeholder matches Some(x)
                ==> self.encode_fields()["placeholder"@] == Json::Str(x),
            self.encode_fields().contains_key("wrap"@) <==> self.wrap is Some,
            self.wrap matches Some(x) ==> self.encode_fields()["wrap"@] == Json::Bool(x),
            self.encode_fields().contains_key("label"@) <==> self.label is Some,
            self.label matches Some(x) ==> self.encode_fields()["label"@] == Json::Str(x),
            self.encode_fields().contains_key("isRequired"@) <==> self.is_required is Some,
            self.is_required matches Some(x)
                ==> self.encode_fields()["isRequired"@] == Json::Bool(x),
            self.encode_fields().contains_key("errorMessage"@) <==> self.error_message is Some,
            self.error_message matches Some(x)
                ==> self.encode_fields()["errorMessage"@] == Json::Str(x),
            self.encode_fields().contains_key("separator"@) <==> self.separator is Some,
            self.separator matches Some(x) ==> self.encode_fields()["separator"@] == Json::Bool(x),
            self.encode_fields().contains_key("spacing"@) <==> self.spacing is Some,
            self.spacing matches Some(x) ==> self.encode_fields()["spacing"@] == token_json(x),
            self.encode_fields().contains_key("height"@) <==> self.height is Some,
            self.height matches Some(x) ==> self.encode_fields()["height"@] == token_json(x),
            self.encode_fields().contains_key("isVisible"@) <==> self.is_visible is Some,
            self.is_visible matches Some(x) ==> self.encode_fields()["isVisible"@] == Json::Bool(x),
    {
        lemma_with_opt();
        lemma_key_shapes();
    }

    /// Nothing else is written: every key is that of a field, and none holds
    /// `null`.
    pub proof fn lemma_written_keys(self, key: Seq<char>)
        requires
            self.encode_fields().contains_key(key),
        ensures
            Self::is_key(key),
            !(self.encode_fields()[key] is Null),
    {
        lemma_with_opt();
    }

    /// What the value carries besides the fields of its kind.
    pub open spec fn base(self) -> BaseFieldsView {
        BaseFieldsView {
            id: Some(self.id),
            separator: self.separator,
            spacing: self.spacing,
            height: self.height,
            is_visible: self.is_visible,
        }
    }

    /// The base fields are written among the fields of the value, each under
    /// its own key and as it is written on its own.
    pub proof fn lemma_base_is_flat(self, key: Seq<char>)
        requires
            self.base().encode_fields().contains_key(key),
        ensures
            self.encode_fields().contains_key(key),
            self.encode_fields()[key] == self.base().encode_fields()[key],
    {
        self.base().lemma_written_keys(key);
        self.base().lemma_written();
        self.lemma_written();
    }

    /// Reading what was written gives the value back, also where the object
    /// says under `type` what it is.
    pub proof fn lemma_roundtrip_tagged(self, tag: Option<Json>)
        ensures
            gives(Self::decode_fields(with_opt(self.encode_fields(), type_key(), tag)), self),
    {
        self.lemma_written();
        lemma_key_shapes();
        lemma_tag_keeps(self.encode_fields(), tag);
        match self.choices {
            Some(items) => InputChoiceView::lemma_roundtrip_all(items),
            None => {},
        }
        let m = with_opt(self.encode_fields(), type_key(), tag);
        lemma_reads_text(m, "id"@, self.id);
        lemma_reads_opt_array(m, "choices"@, InputChoiceView::opt_all(self.choices));
        assert(gives(InputChoiceView::optional_all(m, "choices"@), self.choices));
        lemma_reads_opt_bool(m, "isMultiSelect"@, self.is_multi_select);
        lemma_reads_opt_token(m, "style"@, self.style);
        lemma_reads_opt_text(m, "value"@, self.value);
        lemma_reads_opt_text(m, "placeholder"@, self.placeholder);
        lemma_reads_opt_bool(m, "wrap"@, self.wrap);
        lemma_reads_opt_text(m, "label"@, self.label);
        lemma_reads_opt_bool(m, "isRequired"@, self.is_required);
        lemma_reads_opt_text(m, "errorMessage"@, self.error_message);
        lemma_reads_opt_bool(m, "separator"@, self.separator);
        lemma_reads_opt_token(m, "spacing"@, self.spacing);
        lemma_reads_opt_token(m, "height"@, self.height);
        lemma_reads_opt_bool(m, "isVisible"@, self.is_visible);
    }

    /// Reading what was written gives the value back.
    pub proof fn lemma_roundtrip(self)
        ensures
            gives(Self::decode_fields(self.encode_fields()), self),
            gives(Self::decode_spec(self.encode_spec()), self),
    {
        lemma_with_none(self.encode_fields(), type_key());
        self.lemma_roundtrip_tagged(None);
    }
}

impl InputChoiceSet {
    /// What the value carries besides the fields of its kind.
    pub fn base(&self) -> (r: BaseFields)
        ensures
            r@ == self@.base(),
    {
        BaseFields {
            id: Some(self.id.clone()),
            separator: self.separator,
            spacing: self.spacing,
            height: self.height,
            is_visible: self.is_visible,
        }
    }

    /// The fields of the JSON object that stands for the value.
    pub fn encode_fields(&self) -> (m: Object)
        ensures
            object_fields(m) == self@.encode_fields(),
    {
        let mut m = new_object();
        put_text(&mut m, "id", self.id.as_str());
        put_opt(&mut m, "choices", InputChoice::encode_opt_all(&self.choices));
        put_opt_bool(&mut m, "isMultiSelect", self.is_multi_select);
        put_opt_token(&mut m, "style", self.style);
        put_opt_text(&mut m, "value", &self.value);
        put_opt_text(&mut m, "placeholder", &self.placeholder);
        put_opt_bool(&mut m, "wrap", self.wrap);
        put_opt_text(&mut m, "label", &self.label);
        put_opt_bool(&mut m, "isRequired", self.is_required);
        put_opt_text(&mut m, "errorMessage", &self.error_message);
        put_opt_bool(&mut m, "separator", self.separator);
        put_opt_token(&mut m, "spacing", self.spacing);
        put_opt_token(&mut m, "height", self.height);
        put_opt_bool(&mut m, "isVisible", self.is_visible);
        m
    }

    /// The JSON object that stands for the value.
    pub fn encode(&self) -> (v: Value)
        ensures
            value_json(v) == self@.encode_spec(),
    {
        object_value(self.encode_fields())
    }

    /// The value that the fields `m` stand for.
    pub fn decode_fields(m: &Object) -> (r: Result<InputChoiceSet, DecodeError>)
        ensures
            decoded(r) == InputChoiceSetView::decode_fields(object_fields(*m)),
    {
        let id = get_text(m, "id")?;
        let choices = InputChoice::get_opt_all(m, "choices")?;
        let is_multi_select = get_opt_bool(m, "isMultiSelect")?;
        let style = get_opt_token::<ChoiceInputStyle>(m, "style")?;
        let value = get_opt_text(m, "value")?;
        let placeholder = get_opt_text(m, "placeholder")?;
        let wrap = get_opt_bool(m, "wrap")?;
        let label = get_opt_text(m, "label")?;
        let is_required = get_opt_bool(m, "isRequired")?;
        let error_message = get_opt_text(m, "errorMessage")?;
        let separator = get_opt_bool(m, "separator")?;
        let spacing = get_opt_token::<Spacing>(m, "spacing")?;
        let height = get_opt_token::<Height>(m, "height")?;
        let is_visible = get_opt_bool(m, "isVisible")?;
        Ok(
            InputChoiceSet {
                id,
                choices,
                is_multi_select,
                style,
                value,
                placeholder,
                wrap,
                label,
                is_required,
                error_message,
                separator,
                spacing,
                height,
                is_visible,
            },
        )
    }

    /// The value that the JSON value `v` stands for.
    pub fn decode(v: &Value) -> (r: Result<InputChoiceSet, DecodeError>)
        ensures
            decoded(r) == InputChoiceSetView::decode_spec(value_json(*v)),
    {
        let m = read_object(v)?;
        InputChoiceSet::decode_fields(m)
    }
}

/// One option of a choice set.
#[derive(Debug, PartialEq)]
pub struct InputChoice {
    /// The text shown for the option.
    pub title: String,
    /// The value submitted for the option.
    pub value: String,
}

/// The mathematical model of an [`InputChoice`].
pub struct InputChoiceView {
    pub title: Seq<char>,
    pub value: Seq<char>,
}

impl View for InputChoice {
    type V = InputChoiceView;

    open spec fn view(&self) -> InputChoiceView {
        InputChoiceView {
            title: self.title@,
            value: self.value@,
        }
    }
}

impl Clone for InputChoice {
    fn clone(&self) -> (r: Self)
        ensures
            r@ == self@,
    {
        InputChoice {
            title: self.title.clone(),
            value: self.value.clone(),
        }
    }
}

impl InputChoiceView {
    /// Whether `key` is the key of one of the fields.
    pub open spec fn is_key(key: Seq<char>) -> bool {
        ||| key == "title"@
        ||| key == "value"@
    }

    /// The fields that the value is written as.
    pub open spec fn encode_fields(self) -> Fields {
        let m = no_fields();
        let m = with(m, "title"@, Json::Str(self.title));
        let m = with(m, "value"@, Json::Str(self.value));
        m
    }

    /// The JSON value that the value is written as: an object of its fields.
    pub open spec fn encode_spec(self) -> Json {
        Json::Object(self.encode_fields())
    }

    /// What the fields `m` are read as: the fields are read in their order,
    /// and the first that cannot be read decides the error.
    pub open spec fn decode_fields(m: Fields) -> Result<InputChoiceView, DecodeErrorView> {
        let title = required_text(m, "title"@);
        let value = required_text(m, "value"@);
        if title is Err {
            Err(title->Err_0)
        } else if value is Err {
            Err(value->Err_0)
        } else {
            Ok(
                InputChoiceView {
                    title: title->Ok_0,
                    value: value->Ok_0,
                },
            )
        }
    }

    /// What the JSON value `j` is read as: it must be an object, and its
    /// fields are read.
    pub open spec fn decode_spec(j: Json) -> Result<InputChoiceView, DecodeErrorView> {
        match j {
            Json::Object(m) => Self::decode_fields(m),
            _ => Err(mismatch(j)),
        }
    }

    /// What is written: every field that must be there, every other field
    /// exactly where it has a value, and each with its value.
    pub proof fn lemma_written(self)
        ensures
            self.encode_fields().contains_key("title"@),
            self.encode_fields()["title"@] == Json::Str(self.title),
            self.encode_fields().contains_key("value"@),
            self.encode_fields()["value"@] == Json::Str(self.value),
    {
        lemma_with_opt();
        lemma_key_shapes();
    }

    /// Nothing else is written: every key is that of a field, and none holds
    /// `null`.
    pub proof fn lemma_written_keys(self, key: Seq<char>)
        requires
            self.encode_fields().contains_key(key),
        ensures
            Self::is_key(key),
            !(self.encode_fields()[key] is Null),
    {
        lemma_with_opt();
    }

    /// Reading what was written gives the value back.
    pub proof fn lemma_roundtrip(self)
        ensures
            gives(Self::decode_fields(self.encode_fields()), self),
            gives(Self::decode_spec(self.encode_spec()), self),
    {
        self.lemma_written();
        lemma_key_shapes();
        let m = self.encode_fields();
        lemma_reads_text(m, "title"@, self.title);
        lemma_reads_text(m, "value"@, self.value);
    }
}

impl InputChoice {
    /// The fields of the JSON object that stands for the value.
    pub fn encode_fields(&self) -> (m: Object)
        ensures
            object_fields(m) == self@.encode_fields(),
    {
        let mut m = new_object();
        put_text(&mut m, "title", self.title.as_str());
        put_text(&mut m, "value", self.value.as_str());
        m
    }

    /// The JSON object that stands for the value.
    pub fn encode(&self) -> (v: Value)
        ensures
            value_json(v) == self@.encode_spec(),
    {
        object_value(self.encode_fields())
    }

    /// The value that the fields `m` stand for.
    pub fn decode_fields(m: &Object) -> (r: Result<InputChoice, DecodeError>)
        ensures
            decoded(r) == InputChoiceView::decode_fields(object_fields(*m)),
    {
        let title = get_text(m, "title")?;
        let value = get_text(m, "value")?;
        Ok(InputChoice { title, value })
    }

    /// The value that the JSON value `v` stands for.
    pub fn decode(v: &Value) -> (r: Result<InputChoice, DecodeError>)
        ensures
            decoded(r) == InputChoiceView::decode_spec(value_json(*v)),
    {
        let m = read_object(v)?;
        InputChoice::decode_fields(m)
    }
}

impl InputChoiceView {
    /// The decoder of one choice.
    pub open spec fn decoder() -> spec_fn(Json) -> Result<InputChoiceView, DecodeErrorView> {
        |j: Json| Self::decode_spec(j)
    }

    /// The JSON values that the choices are written as, in their order.
    pub open spec fn encode_all(items: Seq<InputChoiceView>) -> Seq<Json> {
        items.map_values(|x: InputChoiceView| x.encode_spec())
    }

    /// What the JSON values `items` are read as: one choice each, in their
    /// order.
    pub open spec fn decode_all(items: Seq<Json>) -> Result<Seq<InputChoiceView>, DecodeErrorView> {
        decode_seq(items, Self::decoder())
    }

    /// The choices of the field `key`, if the field has a value.
    pub open spec fn optional_all(
        m: Fields,
        key: Seq<char>,
    ) -> Result<Option<Seq<InputChoiceView>>, DecodeErrorView> {
        match optional_array(m, key) {
            Ok(Some(items)) => in_key(some(Self::decode_all(items)), key),
            Ok(None) => Ok(None),
            Err(e) => Err(e),
        }
    }

    /// The JSON values that optional choices are written as.
    pub open spec fn opt_all(items: Option<Seq<InputChoiceView>>) -> Option<Seq<Json>> {
        match items {
            Some(items) => Some(Self::encode_all(items)),
            None => None,
        }
    }

    /// Optional choices as an optional JSON array.
    pub open spec fn opt_all_json(items: Option<Seq<InputChoiceView>>) -> Option<Json> {
        match Self::opt_all(items) {
            Some(items) => Some(Json::Array(items)),
            None => None,
        }
    }

    /// Reading what was written for a sequence of choices gives the sequence
    /// back.
    pub proof fn lemma_roundtrip_all(items: Seq<InputChoiceView>)
        ensures
            gives(Self::decode_all(Self::encode_all(items)), items),
    {
        let written = Self::encode_all(items);
        assert forall|i: int| 0 <= i < items.len() implies gives(
            Self::decoder()(#[trigger] written[i]),
            items[i],
        ) by {
            items[i].lemma_roundtrip();
        }
        lemma_decode_seq_all(items, written, Self::decoder());
    }
}

impl InputChoice {
    /// The models of a sequence of choices.
    pub open spec fn views(items: Seq<InputChoice>) -> Seq<InputChoiceView> {
        items.map_values(|x: InputChoice| x@)
    }

    /// The models of an optional sequence of choices.
    pub open spec fn opt_views(items: Option<Vec<InputChoice>>) -> Option<Seq<InputChoiceView>> {
        match items {
            Some(items) => Some(Self::views(items@)),
            None => None,
        }
    }

    /// Copies of the choices, in their order.
    #[verifier::loop_isolation(false)]
    pub fn clone_all(items: &Vec<InputChoice>) -> (out: Vec<InputChoice>)
        ensures
            InputChoice::views(out@) == InputChoice::views(items@),
    {
        let mut out: Vec<InputChoice> = Vec::new();
        let mut i: usize = 0;
        while i < items.len()
            invariant
                i <= items.len(),
                out@.len() == i,
                forall|k: int| 0 <= k < i ==> (#[trigger] out@[k])@ == items@[k]@,
            decreases items.len() - i,
        {
            out.push(items[i].clone());
            i += 1;
        }
        assert(InputChoice::views(out@) =~= InputChoice::views(items@));
        out
    }

    /// Copies of the choices, where there are any.
    pub(crate) fn clone_opt_all(items: &Option<Vec<InputChoice>>) -> (out: Option<Vec<InputChoice>>)
        ensures
            InputChoice::opt_views(out) == InputChoice::opt_views(*items),
    {
        match items {
            Some(items) => Some(InputChoice::clone_all(items)),
            None => None,
        }
    }

    /// The JSON values that stand for the choices, in their order.
    #[verifier::loop_isolation(false)]
    pub fn encode_all(items: &Vec<InputChoice>) -> (out: Vec<Value>)
        ensures
            values_json(out@) == InputChoiceView::encode_all(InputChoice::views(items@)),
    {
        let mut out: Vec<Value> = Vec::new();
        let mut i: usize = 0;
        while i < items.len()
            invariant
                i <= items.len(),
                out@.len() == i,
                forall|k: int|
                    0 <= k < i ==> value_json(#[trigger] out@[k]) == items@[k]@.encode_spec(),
            decreases items.len() - i,
        {
            out.push(items[i].encode());
            i += 1;
        }
        assert(values_json(out@) =~= InputChoiceView::encode_all(InputChoice::views(items@)));
        out
    }

    /// The choices that the JSON values `items` stand for, in their order.
    #[verifier::loop_isolation(false)]
    pub fn decode_all(items: &Vec<Value>) -> (r: Result<Vec<InputChoice>, DecodeError>)
        ensures
            match r {
                Ok(out) => gives(
                    InputChoiceView::decode_all(values_json(items@)),
                    InputChoice::views(out@),
                ),
                Err(e) => fails_with(InputChoiceView::decode_all(values_json(items@)), e@),
            },
    {
        let ghost all = values_json(items@);
        let ghost each = InputChoiceView::decoder();
        let mut out: Vec<InputChoice> = Vec::new();
        let mut i: usize = 0;
        proof {
            lemma_decode_seq_empty(each);
            assert(InputChoice::views(out@) =~= Seq::empty());
            assert(all.take(0) =~= Seq::empty());
        }
        while i < items.len()
            invariant
                i <= items.len(),
                gives(decode_seq(all.take(i as int), each), InputChoice::views(out@)),
            decreases items.len() - i,
        {
            proof {
                lemma_decode_seq_next(all, i as int, each);
            }
            match InputChoice::decode(&items[i]) {
                Ok(item) => {
                    proof {
                        assert(InputChoice::views(out@.push(item))
                            =~= InputChoice::views(out@).push(item@));
                    }
                    out.push(item);
                },
                Err(e) => {
                    proof {
                        lemma_decode_seq_fails(all, i + 1, each);
                    }
                    return Err(e.under_index(i));
                },
            }
            i += 1;
        }
        assert(all.take(items.len() as int) =~= all);
        Ok(out)
    }

    /// The choices of the field `key`, if the field has a value.
    pub(crate) fn get_opt_all(
        m: &Object,
        key: &'static str,
    ) -> (r: Result<Option<Vec<InputChoice>>, DecodeError>)
        ensures
            match r {
                Ok(out) => gives(
                    InputChoiceView::optional_all(object_fields(*m), key@),
                    InputChoice::opt_views(out),
                ),
                Err(e) => fails_with(InputChoiceView::optional_all(object_fields(*m), key@), e@),
            },
    {
        match get_opt_array(m, key)? {
            Some(items) => match InputChoice::decode_all(items) {
                Ok(out) => Ok(Some(out)),
                Err(e) => Err(e.under_key(key)),
            },
            None => Ok(None),
        }
    }

    /// The JSON array that stands for the choices, where there are any.
    pub(crate) fn encode_opt_all(items: &Option<Vec<InputChoice>>) -> (r: Option<Value>)
        ensures
            opt_value(r) == InputChoiceView::opt_all_json(InputChoice::opt_views(*items)),
    {
        match items {
            Some(items) => Some(array_value(InputChoice::encode_all(items))),
            None => None,
        }
    }
}

} // verus!

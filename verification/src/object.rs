//! Writing and reading the fields of a `serde_json` object, each function
//! with the meaning that [`crate::field`] gives it.

use crate::error::{under_index, under_key, DecodeError, ErrorKind};
use crate::field::{
    array_of, bool_of, decode_seq, fails_with, gives, kind_of, lemma_decode_seq_fails,
    lemma_decode_seq_next, number_of, object_of, opt_bool_json, opt_json, opt_num,
    opt_number_json, opt_text_json, opt_token_json, opt_u32_json, opt_value, optional_array,
    optional_bool, optional_json, optional_number, optional_text, optional_token, optional_u32,
    required, required_array, required_literal, required_text, required_texts,
    required_token, tagged, text_decoder, text_of, texts_json, texts_view, token_json, token_of,
    u32_json, u32_of, with, with_opt,
};
use crate::json::{
    array_value, as_array, as_bool, as_number, as_object, as_text, bool_value, clone_number,
    clone_value, field, is_null, number_as_u64, number_from_u32, number_num, number_value,
    object_fields, object_get, object_insert, string_value, value_json, values_json, Json, Object,
};
use crate::literal::Literal;
use serde_json::{Number, Value};
use vstd::prelude::*;

verus! {

// ---------------------------------------------------------------------------
// Writing
// ---------------------------------------------------------------------------

/// Sets the field `key` to `v`.
pub fn put(m: &mut Object, key: &'static str, v: Value)
    ensures
        object_fields(*final(m)) == with(object_fields(*old(m)), key@, value_json(v)),
{
    reveal(with_opt);
    object_insert(m, key.to_string(), v);
}

/// Sets the field `key` to `v`, where there is one.
pub fn put_opt(m: &mut Object, key: &'static str, v: Option<Value>)
    ensures
        object_fields(*final(m)) == with_opt(object_fields(*old(m)), key@, opt_value(v)),
{
    reveal(with_opt);
    match v {
        Some(v) => put(m, key, v),
        None => {},
    }
}

/// Sets the field `key` to the string `s`.
pub fn put_text(m: &mut Object, key: &'static str, s: &str)
    ensures
        object_fields(*final(m)) == with(object_fields(*old(m)), key@, Json::Str(s@)),
{
    put(m, key, string_value(s.to_string()));
}

/// Sets the field `key` to the string `s`, where there is one.
pub fn put_opt_text(m: &mut Object, key: &'static str, s: &Option<String>)
    ensures
        object_fields(*final(m))
            == with_opt(object_fields(*old(m)), key@, opt_text_json(s.deep_view())),
{
    reveal(with_opt);
    match s {
        Some(s) => put_text(m, key, s.as_str()),
        None => {},
    }
}

/// Sets the field `key` to the boolean `b`, where there is one.
pub fn put_opt_bool(m: &mut Object, key: &'static str, b: Option<bool>)
    ensures
        object_fields(*final(m)) == with_opt(object_fields(*old(m)), key@, opt_bool_json(b)),
{
    reveal(with_opt);
    match b {
        Some(b) => put(m, key, bool_value(b)),
        None => {},
    }
}

/// The unsigned integer `n` as a value.
pub fn u32_value(n: u32) -> (v: Value)
    ensures
        value_json(v) == u32_json(n),
{
    number_value(number_from_u32(n))
}

/// Sets the field `key` to the number `n`, where there is one.
pub fn put_opt_u32(m: &mut Object, key: &'static str, n: Option<u32>)
    ensures
        object_fields(*final(m)) == with_opt(object_fields(*old(m)), key@, opt_u32_json(n)),
{
    reveal(with_opt);
    match n {
        Some(n) => put(m, key, u32_value(n)),
        None => {},
    }
}

/// Sets the field `key` to the number `n`, where there is one.
pub fn put_opt_number(m: &mut Object, key: &'static str, n: &Option<Number>)
    ensures
        object_fields(*final(m))
            == with_opt(object_fields(*old(m)), key@, opt_number_json(opt_num(*n))),
{
    reveal(with_opt);
    match n {
        Some(n) => put(m, key, number_value(clone_number(n))),
        None => {},
    }
}

/// Sets the field `key` to the value `v`, where there is one other than
/// `null`.
pub fn put_opt_json(m: &mut Object, key: &'static str, v: &Option<Value>)
    ensures
        object_fields(*final(m)) == with_opt(object_fields(*old(m)), key@, opt_json(opt_value(*v))),
{
    reveal(with_opt);
    match v {
        Some(v) => {
            if !is_null(v) {
                put(m, key, clone_value(v));
            }
        },
        None => {},
    }
}

/// Sets the field `key` to the token of `t`.
pub fn put_token<T: Literal>(m: &mut Object, key: &'static str, t: T)
    ensures
        object_fields(*final(m)) == with(object_fields(*old(m)), key@, token_json(t)),
{
    put_text(m, key, t.token());
}

/// Sets the field `key` to the token of `t`, where there is one.
pub fn put_opt_token<T: Literal>(m: &mut Object, key: &'static str, t: Option<T>)
    ensures
        object_fields(*final(m)) == with_opt(object_fields(*old(m)), key@, opt_token_json(t)),
{
    reveal(with_opt);
    match t {
        Some(t) => put_token(m, key, t),
        None => {},
    }
}

/// Sets the field `key` to the array of the strings `items`.
#[verifier::loop_isolation(false)]
pub fn put_texts(m: &mut Object, key: &'static str, items: &Vec<String>)
    ensures
        object_fields(*final(m))
            == with(object_fields(*old(m)), key@, texts_json(texts_view(items@))),
{
    let mut out: Vec<Value> = Vec::new();
    let mut i: usize = 0;
    while i < items.len()
        invariant
            i <= items.len(),
            out@.len() == i,
            forall|k: int| 0 <= k < i ==> value_json(#[trigger] out@[k]) == Json::Str(items@[k]@),
        decreases items.len() - i,
    {
        out.push(string_value(items[i].clone()));
        i += 1;
    }
    assert(values_json(out@) =~= texts_json(texts_view(items@))->Array_0);
    put(m, key, array_value(out));
}

// ---------------------------------------------------------------------------
// Reading values
// ---------------------------------------------------------------------------

/// The text of a string.
pub fn read_text(v: &Value) -> (r: Result<String, DecodeError>)
    ensures
        match r {
            Ok(s) => gives(text_of(value_json(*v)), s@),
            Err(e) => fails_with(text_of(value_json(*v)), e@),
        },
{
    match as_text(v) {
        Some(s) => Ok(s.to_string()),
        None => Err(DecodeError::about(ErrorKind::TypeMismatch, v)),
    }
}

/// The boolean of a boolean.
pub fn read_bool(v: &Value) -> (r: Result<bool, DecodeError>)
    ensures
        match r {
            Ok(b) => gives(bool_of(value_json(*v)), b),
            Err(e) => fails_with(bool_of(value_json(*v)), e@),
        },
{
    match as_bool(v) {
        Some(b) => Ok(b),
        None => Err(DecodeError::about(ErrorKind::TypeMismatch, v)),
    }
}

/// The unsigned integer of a number that is one and fits 32 bits.
pub fn read_u32(v: &Value) -> (r: Result<u32, DecodeError>)
    ensures
        match r {
            Ok(n) => gives(u32_of(value_json(*v)), n),
            Err(e) => fails_with(u32_of(value_json(*v)), e@),
        },
{
    match as_number(v) {
        Some(n) => match number_as_u64(n) {
            Some(u) => if u <= 0xffff_ffff {
                Ok(u as u32)
            } else {
                Err(DecodeError::about(ErrorKind::TypeMismatch, v))
            },
            None => Err(DecodeError::about(ErrorKind::TypeMismatch, v)),
        },
        None => Err(DecodeError::about(ErrorKind::TypeMismatch, v)),
    }
}

/// The number of a number.
pub fn read_number(v: &Value) -> (r: Result<Number, DecodeError>)
    ensures
        match r {
            Ok(n) => gives(number_of(value_json(*v)), number_num(n)),
            Err(e) => fails_with(number_of(value_json(*v)), e@),
        },
{
    match as_number(v) {
        Some(n) => Ok(clone_number(n)),
        None => Err(DecodeError::about(ErrorKind::TypeMismatch, v)),
    }
}

/// The literal whose token a string is.
pub fn read_token<T: Literal>(v: &Value) -> (r: Result<T, DecodeError>)
    ensures
        match r {
            Ok(t) => gives(token_of::<T>(value_json(*v)), t),
            Err(e) => fails_with(token_of::<T>(value_json(*v)), e@),
        },
{
    match as_text(v) {
        Some(s) => match T::from_token(s) {
            Some(t) => Ok(t),
            None => Err(DecodeError::about(ErrorKind::InvalidEnumLiteral, v)),
        },
        None => Err(DecodeError::about(ErrorKind::TypeMismatch, v)),
    }
}

/// The items of an array.
pub fn read_array(v: &Value) -> (r: Result<&Vec<Value>, DecodeError>)
    ensures
        match r {
            Ok(items) => gives(array_of(value_json(*v)), values_json(items@)),
            Err(e) => fails_with(array_of(value_json(*v)), e@),
        },
{
    match as_array(v) {
        Some(items) => Ok(items),
        None => Err(DecodeError::about(ErrorKind::TypeMismatch, v)),
    }
}

/// The fields of an object.
pub fn read_object(v: &Value) -> (r: Result<&Object, DecodeError>)
    ensures
        match r {
            Ok(m) => gives(object_of(value_json(*v)), object_fields(*m)),
            Err(e) => fails_with(object_of(value_json(*v)), e@),
        },
{
    match as_object(v) {
        Some(m) => Ok(m),
        None => Err(DecodeError::about(ErrorKind::TypeMismatch, v)),
    }
}

// ---------------------------------------------------------------------------
// Reading fields
// ---------------------------------------------------------------------------

/// The value of the field `key`, unless the key is absent or holds `null`.
pub fn find<'a>(m: &'a Object, key: &'static str) -> (r: Option<&'a Value>)
    ensures
        match r {
            Some(v) => field(object_fields(*m), key@) == Some(value_json(*v)),
            None => field(object_fields(*m), key@) is None,
        },
{
    match object_get(m, key) {
        Some(v) => if is_null(v) {
            None
        } else {
            Some(v)
        },
        None => None,
    }
}

/// The value of the field `key`, which must be there.
pub fn get<'a>(m: &'a Object, key: &'static str) -> (r: Result<&'a Value, DecodeError>)
    ensures
        match r {
            Ok(v) => gives(required(object_fields(*m), key@), value_json(*v)),
            Err(e) => fails_with(required(object_fields(*m), key@), e@),
        },
{
    reveal(required);
    match object_get(m, key) {
        Some(v) => Ok(v),
        None => Err(DecodeError::bare(ErrorKind::MissingRequiredField).under_key(key)),
    }
}

/// The text of the field `key`, which must be there.
pub fn get_text(m: &Object, key: &'static str) -> (r: Result<String, DecodeError>)
    ensures
        match r {
            Ok(s) => gives(required_text(object_fields(*m), key@), s@),
            Err(e) => fails_with(required_text(object_fields(*m), key@), e@),
        },
{
    reveal(required_text);
    let v = get(m, key)?;
    match read_text(v) {
        Ok(s) => Ok(s),
        Err(e) => Err(e.under_key(key)),
    }
}

/// The literal of the field `key`, which must be there.
pub fn get_token<T: Literal>(m: &Object, key: &'static str) -> (r: Result<T, DecodeError>)
    ensures
        match r {
            Ok(t) => gives(required_token::<T>(object_fields(*m), key@), t),
            Err(e) => fails_with(required_token::<T>(object_fields(*m), key@), e@),
        },
{
    reveal(required_token);
    let v = get(m, key)?;
    match read_token::<T>(v) {
        Ok(t) => Ok(t),
        Err(e) => Err(e.under_key(key)),
    }
}

/// The items of the field `key`, which must be there.
pub fn get_array<'a>(m: &'a Object, key: &'static str) -> (r: Result<&'a Vec<Value>, DecodeError>)
    ensures
        match r {
            Ok(items) => gives(required_array(object_fields(*m), key@), values_json(items@)),
            Err(e) => fails_with(required_array(object_fields(*m), key@), e@),
        },
{
    reveal(required_array);
    let v = get(m, key)?;
    match read_array(v) {
        Ok(items) => Ok(items),
        Err(e) => Err(e.under_key(key)),
    }
}

/// The text of the field `key`, which must be there and must be `literal`.
pub fn get_literal(m: &Object, key: &'static str, literal: &'static str) -> (r: Result<
    String,
    DecodeError,
>)
    ensures
        match r {
            Ok(s) => gives(required_literal(object_fields(*m), key@, literal@), s@),
            Err(e) => fails_with(required_literal(object_fields(*m), key@, literal@), e@),
        },
{
    reveal(required_literal);
    reveal(required_text);
    let v = get(m, key)?;
    match as_text(v) {
        Some(s) => if s.eq(literal) {
            Ok(s.to_string())
        } else {
            Err(DecodeError::about(ErrorKind::InvalidEnumLiteral, v).under_key(key))
        },
        None => Err(DecodeError::about(ErrorKind::TypeMismatch, v).under_key(key)),
    }
}

/// The texts of the field `key`, which must be there.
#[verifier::loop_isolation(false)]
pub fn get_texts(m: &Object, key: &'static str) -> (r: Result<Vec<String>, DecodeError>)
    ensures
        match r {
            Ok(items) => gives(required_texts(object_fields(*m), key@), texts_view(items@)),
            Err(e) => fails_with(required_texts(object_fields(*m), key@), e@),
        },
{
    reveal(required_texts);
    reveal(decode_seq);
    let items = get_array(m, key)?;
    let ghost all = values_json(items@);
    let mut out: Vec<String> = Vec::new();
    let mut i: usize = 0;
    assert(texts_view(out@) =~= Seq::empty());
    while i < items.len()
        invariant
            i <= items.len(),
            gives(decode_seq(all.take(i as int), text_decoder()), texts_view(out@)),
        decreases items.len() - i,
    {
        proof {
            lemma_decode_seq_next(all, i as int, text_decoder());
        }
        match read_text(&items[i]) {
            Ok(s) => {
                proof {
                    assert(texts_view(out@.push(s)) =~= texts_view(out@).push(s@));
                }
                out.push(s);
            },
            Err(e) => {
                proof {
                    lemma_decode_seq_fails(all, i + 1, text_decoder());
                }
                return Err(e.under_index(i).under_key(key));
            },
        }
        i += 1;
    }
    assert(all.take(items.len() as int) =~= all);
    Ok(out)
}

/// The text of the field `key`, if the field has a value.
pub fn get_opt_text(m: &Object, key: &'static str) -> (r: Result<Option<String>, DecodeError>)
    ensures
        match r {
            Ok(s) => gives(optional_text(object_fields(*m), key@), s.deep_view()),
            Err(e) => fails_with(optional_text(object_fields(*m), key@), e@),
        },
{
    reveal(optional_text);
    match find(m, key) {
        Some(v) => match read_text(v) {
            Ok(s) => Ok(Some(s)),
            Err(e) => Err(e.under_key(key)),
        },
        None => Ok(None),
    }
}

/// The boolean of the field `key`, if the field has a value.
pub fn get_opt_bool(m: &Object, key: &'static str) -> (r: Result<Option<bool>, DecodeError>)
    ensures
        match r {
            Ok(b) => gives(optional_bool(object_fields(*m), key@), b),
            Err(e) => fails_with(optional_bool(object_fields(*m), key@), e@),
        },
{
    reveal(optional_bool);
    match find(m, key) {
        Some(v) => match read_bool(v) {
            Ok(b) => Ok(Some(b)),
            Err(e) => Err(e.under_key(key)),
        },
        None => Ok(None),
    }
}

/// The unsigned integer of the field `key`, if the field has a value.
pub fn get_opt_u32(m: &Object, key: &'static str) -> (r: Result<Option<u32>, DecodeError>)
    ensures
        match r {
            Ok(n) => gives(optional_u32(object_fields(*m), key@), n),
            Err(e) => fails_with(optional_u32(object_fields(*m), key@), e@),
        },
{
    reveal(optional_u32);
    match find(m, key) {
        Some(v) => match read_u32(v) {
            Ok(n) => Ok(Some(n)),
            Err(e) => Err(e.under_key(key)),
        },
        None => Ok(None),
    }
}

/// The number of the field `key`, if the field has a value.
pub fn get_opt_number(m: &Object, key: &'static str) -> (r: Result<Option<Number>, DecodeError>)
    ensures
        match r {
            Ok(n) => gives(optional_number(object_fields(*m), key@), opt_num(n)),
            Err(e) => fails_with(optional_number(object_fields(*m), key@), e@),
        },
{
    reveal(optional_number);
    match find(m, key) {
        Some(v) => match read_number(v) {
            Ok(n) => Ok(Some(n)),
            Err(e) => Err(e.under_key(key)),
        },
        None => Ok(None),
    }
}

/// The literal of the field `key`, if the field has a value.
pub fn get_opt_token<T: Literal>(
    m: &Object,
    key: &'static str,
) -> (r: Result<Option<T>, DecodeError>)
    ensures
        match r {
            Ok(t) => gives(optional_token::<T>(object_fields(*m), key@), t),
            Err(e) => fails_with(optional_token::<T>(object_fields(*m), key@), e@),
        },
{
    reveal(optional_token);
    match find(m, key) {
        Some(v) => match read_token::<T>(v) {
            Ok(t) => Ok(Some(t)),
            Err(e) => Err(e.under_key(key)),
        },
        None => Ok(None),
    }
}

/// The value of the field `key`, if the field has one.
pub fn get_opt_json(m: &Object, key: &'static str) -> (r: Option<Value>)
    ensures
        gives(optional_json(object_fields(*m), key@), opt_value(r)),
{
    reveal(optional_json);
    match find(m, key) {
        Some(v) => Some(clone_value(v)),
        None => None,
    }
}

/// The items of the field `key`, if the field has a value.
pub fn get_opt_array<'a>(
    m: &'a Object,
    key: &'static str,
) -> (r: Result<Option<&'a Vec<Value>>, DecodeError>)
    ensures
        match r {
            Ok(Some(items)) => gives(
                optional_array(object_fields(*m), key@),
                Some(values_json(items@)),
            ),
            Ok(None) => gives(optional_array(object_fields(*m), key@), None),
            Err(e) => fails_with(optional_array(object_fields(*m), key@), e@),
        },
{
    reveal(optional_array);
    match find(m, key) {
        Some(v) => match read_array(v) {
            Ok(items) => Ok(Some(items)),
            Err(e) => Err(e.under_key(key)),
        },
        None => Ok(None),
    }
}

// ---------------------------------------------------------------------------
// Discriminants
// ---------------------------------------------------------------------------

/// The variant that the object announces under `type`.
pub fn get_kind<T: Literal>(m: &Object) -> (r: Result<T, DecodeError>)
    ensures
        match r {
            Ok(kind) => gives(kind_of::<T>(object_fields(*m)), kind),
            Err(e) => fails_with(kind_of::<T>(object_fields(*m)), e@),
        },
{
    reveal(kind_of);
    match object_get(m, "type") {
        Some(v) => match as_text(v) {
            Some(s) => match T::from_token(s) {
                Some(kind) => Ok(kind),
                None => Err(DecodeError::about(ErrorKind::UnknownVariantTag, v).under_key("type")),
            },
            None => Err(DecodeError::about(ErrorKind::UnknownVariantTag, v).under_key("type")),
        },
        None => Err(DecodeError::bare(ErrorKind::MissingDiscriminant).under_key("type")),
    }
}

/// The tag that the object announces under `type`, which must be `tag`.
pub fn get_tag(m: &Object, tag: &'static str) -> (r: Result<String, DecodeError>)
    ensures
        match r {
            Ok(s) => gives(tagged(object_fields(*m), tag@), s@),
            Err(e) => fails_with(tagged(object_fields(*m), tag@), e@),
        },
{
    reveal(tagged);
    match object_get(m, "type") {
        Some(v) => match as_text(v) {
            Some(s) => if s.eq(tag) {
                Ok(s.to_string())
            } else {
                Err(DecodeError::about(ErrorKind::UnknownVariantTag, v).under_key("type"))
            },
            None => Err(DecodeError::about(ErrorKind::UnknownVariantTag, v).under_key("type")),
        },
        None => Err(DecodeError::bare(ErrorKind::MissingDiscriminant).under_key("type")),
    }
}

// ---------------------------------------------------------------------------
// Copying
// ---------------------------------------------------------------------------

/// A copy of the text, where there is one.
pub fn clone_opt_text(s: &Option<String>) -> (r: Option<String>)
    ensures
        r.deep_view() == s.deep_view(),
{
    match s {
        Some(s) => Some(s.clone()),
        None => None,
    }
}

/// A copy of the number, where there is one.
pub fn clone_opt_number(n: &Option<Number>) -> (r: Option<Number>)
    ensures
        opt_num(r) == opt_num(*n),
{
    match n {
        Some(n) => Some(clone_number(n)),
        None => None,
    }
}

/// A copy of the value, where there is one.
pub fn clone_opt_json(v: &Option<Value>) -> (r: Option<Value>)
    ensures
        opt_value(r) == opt_value(*v),
{
    match v {
        Some(v) => Some(clone_value(v)),
        None => None,
    }
}

/// Copies of the texts, in their order.
#[verifier::loop_isolation(false)]
pub fn clone_texts(items: &Vec<String>) -> (out: Vec<String>)
    ensures
        texts_view(out@) == texts_view(items@),
{
    let mut out: Vec<String> = Vec::new();
    let mut i: usize = 0;
    while i < items.len()
        invariant
            i <= items.len(),
            out@.len() == i,
            forall|k: int| 0 <= k < i ==> (#[trigger] out@[k])@ == items@[k]@,
        decreases items.len() - i,
    {
        out.push(items[i].clone());
        i += 1;
    }
    assert(texts_view(out@) =~= texts_view(items@));
    out
}

} // verus!

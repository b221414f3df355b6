//! What it means to write and to read the fields of a JSON object.
//!
//! A field that has no value is a key that is absent: nothing is written as
//! `null`, and a key that holds `null` is read as an absent one wherever the
//! field is optional. Fields are read in the order in which their object
//! lists them, items in the order of their array, and the first value that
//! cannot be read decides the error.

use crate::error::{failure, under_index, under_key, DecodeErrorView, ErrorKind};
use crate::json::{field, no_fields, number_num, value_json, Fields, Json, Num, Object};
use crate::literal::Literal;
use serde_json::{Number, Value};
use vstd::prelude::*;

verus! {

// ---------------------------------------------------------------------------
// Results
// ---------------------------------------------------------------------------

/// `r` is the success `t`.
pub open spec fn gives<T>(r: Result<T, DecodeErrorView>, t: T) -> bool {
    r is Ok && r->Ok_0 == t
}

/// `r` is the error `e`.
pub open spec fn fails_with<T>(r: Result<T, DecodeErrorView>, e: DecodeErrorView) -> bool {
    r is Err && r->Err_0 == e
}

/// The result `r`, its error met in the field `key`.
pub open spec fn in_key<T>(
    r: Result<T, DecodeErrorView>,
    key: Seq<char>,
) -> Result<T, DecodeErrorView> {
    match r {
        Ok(t) => Ok(t),
        Err(e) => Err(under_key(e, key)),
    }
}

/// The result `r`, its success as the value of a field that is there.
pub open spec fn some<T>(r: Result<T, DecodeErrorView>) -> Result<Option<T>, DecodeErrorView> {
    match r {
        Ok(t) => Ok(Some(t)),
        Err(e) => Err(e),
    }
}

/// The value `j` is of another kind than its place asks for.
pub open spec fn mismatch(j: Json) -> DecodeErrorView {
    failure(ErrorKind::TypeMismatch, Some(j))
}

// ---------------------------------------------------------------------------
// Values as JSON
// ---------------------------------------------------------------------------

/// An optional text as an optional JSON string.
pub open spec fn opt_text_json(s: Option<Seq<char>>) -> Option<Json> {
    match s {
        Some(s) => Some(Json::Str(s)),
        None => None,
    }
}

/// An optional boolean as an optional JSON boolean.
pub open spec fn opt_bool_json(b: Option<bool>) -> Option<Json> {
    match b {
        Some(b) => Some(Json::Bool(b)),
        None => None,
    }
}

/// An unsigned integer as a JSON number.
pub open spec fn u32_json(n: u32) -> Json {
    Json::Number(Num::Unsigned(n as u64))
}

/// An optional unsigned integer as an optional JSON number.
pub open spec fn opt_u32_json(n: Option<u32>) -> Option<Json> {
    match n {
        Some(n) => Some(u32_json(n)),
        None => None,
    }
}

/// An optional number as an optional JSON number.
pub open spec fn opt_number_json(n: Option<Num>) -> Option<Json> {
    match n {
        Some(n) => Some(Json::Number(n)),
        None => None,
    }
}

/// A literal as the JSON string of its token.
pub open spec fn token_json<T: Literal>(t: T) -> Json {
    Json::Str(t.token_spec())
}

/// An optional literal as the optional JSON string of its token.
pub open spec fn opt_token_json<T: Literal>(t: Option<T>) -> Option<Json> {
    match t {
        Some(t) => Some(token_json(t)),
        None => None,
    }
}

/// An optional JSON value that is written only where it is not `null`.
pub open spec fn opt_json(j: Option<Json>) -> Option<Json> {
    match j {
        Some(j) => if j is Null {
            None
        } else {
            Some(j)
        },
        None => None,
    }
}

/// A sequence of texts as a JSON array of strings.
pub open spec fn texts_json(items: Seq<Seq<char>>) -> Json {
    Json::Array(items.map_values(|s: Seq<char>| Json::Str(s)))
}

/// The model of an optional number.
pub open spec fn opt_num(n: Option<Number>) -> Option<Num> {
    match n {
        Some(n) => Some(number_num(n)),
        None => None,
    }
}

/// The model of an optional value.
pub open spec fn opt_value(v: Option<Value>) -> Option<Json> {
    match v {
        Some(v) => Some(value_json(v)),
        None => None,
    }
}

/// The texts of a sequence of strings.
pub open spec fn texts_view(items: Seq<String>) -> Seq<Seq<char>> {
    items.map_values(|s: String| s@)
}

// ---------------------------------------------------------------------------
// Writing fields
// ---------------------------------------------------------------------------

/// The fields `m` and, where `v` is a value, the field `key` with it.
#[verifier::opaque]
pub open spec fn with_opt(m: Fields, key: Seq<char>, v: Option<Json>) -> Fields {
    match v {
        Some(j) => m.insert(key, j),
        None => m,
    }
}

/// The fields `m` and the field `key` with the value `j`.
pub open spec fn with(m: Fields, key: Seq<char>, j: Json) -> Fields {
    with_opt(m, key, Some(j))
}

/// What writing a field does to the fields that are read afterwards: the
/// written key holds the written value, and every other key is as it was.
pub proof fn lemma_with_opt()
    ensures
        forall|key: Seq<char>| !(#[trigger] no_fields().contains_key(key)),
        forall|m: Fields, key: Seq<char>, v: Option<Json>, other: Seq<char>|
            #[trigger] with_opt(m, key, v).contains_key(other) <==> (other == key && v is Some)
                || m.contains_key(other),
        forall|m: Fields, key: Seq<char>, v: Option<Json>, other: Seq<char>|
            #[trigger] with_opt(m, key, v)[other] == (if other == key && v is Some {
                v->Some_0
            } else {
                m[other]
            }),
{
    reveal(with_opt);
}

/// Writing no value leaves the fields as they are.
pub proof fn lemma_with_none(m: Fields, key: Seq<char>)
    ensures
        with_opt(m, key, None) == m,
{
    reveal(with_opt);
}

/// Saying under `type` what an object is leaves its other fields as they
/// are.
pub proof fn lemma_tag_keeps(m: Fields, tag: Option<Json>)
    ensures
        forall|key: Seq<char>|
            key != type_key() ==> (#[trigger] with_opt(m, type_key(), tag).contains_key(key)
                <==> m.contains_key(key)),
        forall|key: Seq<char>|
            key != type_key() ==> #[trigger] with_opt(m, type_key(), tag)[key] == m[key],
        tag is Some ==> with_opt(m, type_key(), tag).contains_key(type_key()),
        tag matches Some(j) ==> with_opt(m, type_key(), tag)[type_key()] == j,
{
    reveal(with_opt);
}

// ---------------------------------------------------------------------------
// JSON as values
// ---------------------------------------------------------------------------

/// The text of a JSON string.
pub open spec fn text_of(j: Json) -> Result<Seq<char>, DecodeErrorView> {
    match j {
        Json::Str(s) => Ok(s),
        _ => Err(mismatch(j)),
    }
}

/// The boolean of a JSON boolean.
pub open spec fn bool_of(j: Json) -> Result<bool, DecodeErrorView> {
    match j {
        Json::Bool(b) => Ok(b),
        _ => Err(mismatch(j)),
    }
}

/// The unsigned integer of a JSON number that is one and fits 32 bits.
pub open spec fn u32_of(j: Json) -> Result<u32, DecodeErrorView> {
    match j {
        Json::Number(Num::Unsigned(u)) => if u <= u32::MAX {
            Ok(u as u32)
        } else {
            Err(mismatch(j))
        },
        _ => Err(mismatch(j)),
    }
}

/// The number of a JSON number.
pub open spec fn number_of(j: Json) -> Result<Num, DecodeErrorView> {
    match j {
        Json::Number(n) => Ok(n),
        _ => Err(mismatch(j)),
    }
}

/// The literal whose token a JSON string is.
pub open spec fn token_of<T: Literal>(j: Json) -> Result<T, DecodeErrorView> {
    match j {
        Json::Str(s) => match T::parse_spec(s) {
            Some(t) => Ok(t),
            None => Err(failure(ErrorKind::InvalidEnumLiteral, Some(j))),
        },
        _ => Err(mismatch(j)),
    }
}

/// The items of a JSON array.
pub open spec fn array_of(j: Json) -> Result<Seq<Json>, DecodeErrorView> {
    match j {
        Json::Array(items) => Ok(items),
        _ => Err(mismatch(j)),
    }
}

/// The fields of a JSON object.
pub open spec fn object_of(j: Json) -> Result<Fields, DecodeErrorView> {
    match j {
        Json::Object(m) => Ok(m),
        _ => Err(mismatch(j)),
    }
}

// ---------------------------------------------------------------------------
// Reading fields
// ---------------------------------------------------------------------------

/// The value of the field `key`, which must be there.
#[verifier::opaque]
pub open spec fn required(m: Fields, key: Seq<char>) -> Result<Json, DecodeErrorView> {
    if m.contains_key(key) {
        Ok(m[key])
    } else {
        Err(under_key(failure(ErrorKind::MissingRequiredField, None), key))
    }
}

/// The text of the field `key`, which must be there.
#[verifier::opaque]
pub open spec fn required_text(m: Fields, key: Seq<char>) -> Result<Seq<char>, DecodeErrorView> {
    match required(m, key) {
        Ok(j) => in_key(text_of(j), key),
        Err(e) => Err(e),
    }
}

/// The literal of the field `key`, which must be there.
#[verifier::opaque]
pub open spec fn required_token<T: Literal>(
    m: Fields,
    key: Seq<char>,
) -> Result<T, DecodeErrorView> {
    match required(m, key) {
        Ok(j) => in_key(token_of::<T>(j), key),
        Err(e) => Err(e),
    }
}

/// The items of the field `key`, which must be there.
#[verifier::opaque]
pub open spec fn required_array(m: Fields, key: Seq<char>) -> Result<Seq<Json>, DecodeErrorView> {
    match required(m, key) {
        Ok(j) => in_key(array_of(j), key),
        Err(e) => Err(e),
    }
}

/// The text of the field `key`, which must be there and must be `literal`.
#[verifier::opaque]
pub open spec fn required_literal(m: Fields, key: Seq<char>, literal: Seq<char>) -> Result<
    Seq<char>,
    DecodeErrorView,
> {
    match required_text(m, key) {
        Ok(s) => if s == literal {
            Ok(s)
        } else {
            Err(under_key(failure(ErrorKind::InvalidEnumLiteral, Some(Json::Str(s))), key))
        },
        Err(e) => Err(e),
    }
}

/// The text of the field `key`, if the field has a value.
#[verifier::opaque]
pub open spec fn optional_text(
    m: Fields,
    key: Seq<char>,
) -> Result<Option<Seq<char>>, DecodeErrorView> {
    match field(m, key) {
        Some(j) => in_key(some(text_of(j)), key),
        None => Ok(None),
    }
}

/// The boolean of the field `key`, if the field has a value.
#[verifier::opaque]
pub open spec fn optional_bool(m: Fields, key: Seq<char>) -> Result<Option<bool>, DecodeErrorView> {
    match field(m, key) {
        Some(j) => in_key(some(bool_of(j)), key),
        None => Ok(None),
    }
}

/// The unsigned integer of the field `key`, if the field has a value.
#[verifier::opaque]
pub open spec fn optional_u32(m: Fields, key: Seq<char>) -> Result<Option<u32>, DecodeErrorView> {
    match field(m, key) {
        Some(j) => in_key(some(u32_of(j)), key),
        None => Ok(None),
    }
}

/// The number of the field `key`, if the field has a value.
#[verifier::opaque]
pub open spec fn optional_number(
    m: Fields,
    key: Seq<char>,
) -> Result<Option<Num>, DecodeErrorView> {
    match field(m, key) {
        Some(j) => in_key(some(number_of(j)), key),
        None => Ok(None),
    }
}

/// The literal of the field `key`, if the field has a value.
#[verifier::opaque]
pub open spec fn optional_token<T: Literal>(
    m: Fields,
    key: Seq<char>,
) -> Result<Option<T>, DecodeErrorView> {
    match field(m, key) {
        Some(j) => in_key(some(token_of::<T>(j)), key),
        None => Ok(None),
    }
}

/// The value of the field `key`, if the field has one.
#[verifier::opaque]
pub open spec fn optional_json(m: Fields, key: Seq<char>) -> Result<Option<Json>, DecodeErrorView> {
    Ok(field(m, key))
}

/// The items of the field `key`, if the field has a value.
#[verifier::opaque]
pub open spec fn optional_array(
    m: Fields,
    key: Seq<char>,
) -> Result<Option<Seq<Json>>, DecodeErrorView> {
    match field(m, key) {
        Some(j) => in_key(some(array_of(j)), key),
        None => Ok(None),
    }
}

// ---------------------------------------------------------------------------
// Discriminants
// ---------------------------------------------------------------------------

/// The key under which an object says what it is.
pub open spec fn type_key() -> Seq<char> {
    "type"@
}

/// The value under `type` is none of the tags that its place allows.
pub open spec fn unknown_tag(j: Json) -> DecodeErrorView {
    under_key(failure(ErrorKind::UnknownVariantTag, Some(j)), type_key())
}

/// No value stands under `type`.
pub open spec fn missing_tag() -> DecodeErrorView {
    under_key(failure(ErrorKind::MissingDiscriminant, None), type_key())
}

/// The variant that the object announces under `type`: the key must be
/// there, and what it holds must be the token of a variant.
#[verifier::opaque]
pub open spec fn kind_of<T: Literal>(m: Fields) -> Result<T, DecodeErrorView> {
    if m.contains_key(type_key()) {
        match m[type_key()] {
            Json::Str(s) => match T::parse_spec(s) {
                Some(kind) => Ok(kind),
                None => Err(unknown_tag(Json::Str(s))),
            },
            j => Err(unknown_tag(j)),
        }
    } else {
        Err(missing_tag())
    }
}

/// The tag that the object announces under `type`: the key must be there,
/// and what it holds must be `tag`.
#[verifier::opaque]
pub open spec fn tagged(m: Fields, tag: Seq<char>) -> Result<Seq<char>, DecodeErrorView> {
    if m.contains_key(type_key()) {
        if m[type_key()] == Json::Str(tag) {
            Ok(tag)
        } else {
            Err(unknown_tag(m[type_key()]))
        }
    } else {
        Err(missing_tag())
    }
}

// ---------------------------------------------------------------------------
// Arrays
// ---------------------------------------------------------------------------

/// The items of an array, each decoded by `each`, in their order. The first
/// item that fails decides, and its error is met at its index.
#[verifier::opaque]
pub open spec fn decode_seq<T>(
    items: Seq<Json>,
    each: spec_fn(Json) -> Result<T, DecodeErrorView>,
) -> Result<Seq<T>, DecodeErrorView>
    decreases items.len(),
{
    if items.len() == 0 {
        Ok(Seq::empty())
    } else {
        match decode_seq(items.drop_last(), each) {
            Ok(head) => match each(items.last()) {
                Ok(t) => Ok(head.push(t)),
                Err(e) => Err(under_index(e, (items.len() - 1) as nat)),
            },
            Err(e) => Err(e),
        }
    }
}

/// No items decode to no items.
pub proof fn lemma_decode_seq_empty<T>(each: spec_fn(Json) -> Result<T, DecodeErrorView>)
    ensures
        gives(decode_seq(Seq::empty(), each), Seq::empty()),
{
    reveal(decode_seq);
}

/// An array whose items all decode, decodes to what they decode to.
pub proof fn lemma_decode_seq_all<T>(
    values: Seq<T>,
    items: Seq<Json>,
    each: spec_fn(Json) -> Result<T, DecodeErrorView>,
)
    requires
        values.len() == items.len(),
        forall|i: int| 0 <= i < items.len() ==> gives(each(#[trigger] items[i]), values[i]),
    ensures
        gives(decode_seq(items, each), values),
    decreases items.len(),
{
    reveal(decode_seq);
    if items.len() > 0 {
        lemma_decode_seq_all(values.drop_last(), items.drop_last(), each);
        assert(values.drop_last().push(values.last()) =~= values);
    } else {
        assert(values =~= Seq::empty());
    }
}

/// Decoding the first `k + 1` items, from decoding the first `k`.
pub proof fn lemma_decode_seq_next<T>(
    items: Seq<Json>,
    k: int,
    each: spec_fn(Json) -> Result<T, DecodeErrorView>,
)
    requires
        0 <= k < items.len(),
    ensures
        decode_seq(items.take(k + 1), each) == match decode_seq(items.take(k), each) {
            Ok(head) => match each(items[k]) {
                Ok(t) => Ok(head.push(t)),
                Err(e) => Err(under_index(e, k as nat)),
            },
            Err(e) => Err(e),
        },
{
    reveal(decode_seq);
    assert(items.take(k + 1).drop_last() =~= items.take(k));
}

/// Once the first `k` items fail, the whole array fails in the same way.
pub proof fn lemma_decode_seq_fails<T>(
    items: Seq<Json>,
    k: int,
    each: spec_fn(Json) -> Result<T, DecodeErrorView>,
)
    requires
        0 <= k <= items.len(),
        decode_seq(items.take(k), each) is Err,
    ensures
        decode_seq(items, each) == decode_seq(items.take(k), each),
    decreases items.len() - k,
{
    reveal(decode_seq);
    if k < items.len() {
        lemma_decode_seq_next(items, k, each);
        lemma_decode_seq_fails(items, k + 1, each);
    } else {
        assert(items.take(k) =~= items);
    }
}

/// An array that decodes has decoded item by item.
pub proof fn lemma_decode_seq_each<T>(
    items: Seq<Json>,
    each: spec_fn(Json) -> Result<T, DecodeErrorView>,
)
    ensures
        decode_seq(items, each) matches Ok(values) ==> values.len() == items.len(),
        decode_seq(items, each) matches Ok(values) ==> forall|i: int|
            0 <= i < items.len() ==> gives(each(#[trigger] items[i]), values[i]),
    decreases items.len(),
{
    reveal(decode_seq);
    if items.len() > 0 {
        let head = items.drop_last();
        lemma_decode_seq_each(head, each);
        match decode_seq(items, each) {
            Ok(values) => {
                assert forall|i: int| 0 <= i < items.len() implies gives(
                    each(#[trigger] items[i]),
                    values[i],
                ) by {
                    if i < head.len() {
                        assert(items[i] == head[i]);
                    }
                }
            },
            Err(_) => {},
        }
    }
}

/// The decoder of one text.
pub open spec fn text_decoder() -> spec_fn(Json) -> Result<Seq<char>, DecodeErrorView> {
    |j: Json| text_of(j)
}

/// The texts of the field `key`, which must be there.
#[verifier::opaque]
pub open spec fn required_texts(m: Fields, key: Seq<char>) -> Result<
    Seq<Seq<char>>,
    DecodeErrorView,
> {
    match required_array(m, key) {
        Ok(items) => in_key(decode_seq(items, text_decoder()), key),
        Err(e) => Err(e),
    }
}

/// An array of strings decodes to their texts.
pub proof fn lemma_texts_roundtrip(items: Seq<Seq<char>>)
    ensures
        gives(decode_seq(texts_json(items)->Array_0, text_decoder()), items),
{
    reveal(decode_seq);
    lemma_decode_seq_all(items, texts_json(items)->Array_0, text_decoder());
}

// ---------------------------------------------------------------------------
// What is known of a value that was read
// ---------------------------------------------------------------------------

/// A tag that is read as `tag` is `tag`.
pub proof fn lemma_tagged_is(m: Fields, tag: Seq<char>)
    ensures
        tagged(m, tag) matches Ok(s) ==> s == tag,
{
    reveal(tagged);
}

/// A text that is read as `literal` is `literal`.
pub proof fn lemma_literal_is(m: Fields, key: Seq<char>, literal: Seq<char>)
    ensures
        required_literal(m, key, literal) matches Ok(s) ==> s == literal,
{
    reveal(required_literal);
}

/// A value that is read is not `null`.
pub proof fn lemma_json_is_not_null(m: Fields, key: Seq<char>)
    ensures
        optional_json(m, key) matches Ok(Some(j)) ==> !(j is Null),
{
    reveal(optional_json);
}

// ---------------------------------------------------------------------------
// What is read from what was written
// ---------------------------------------------------------------------------

/// A literal that is there is found again from its token.
pub proof fn lemma_opt_token_parses<T: Literal>(t: Option<T>)
    ensures
        t matches Some(x) ==> T::parse_spec(x.token_spec()) == Some(x),
{
    match t {
        Some(x) => x.lemma_token_parses(),
        None => {},
    }
}

/// A field that holds a value is found, unless the value is `null`.
pub proof fn lemma_reads_value(m: Fields, key: Seq<char>, j: Json)
    requires
        m.contains_key(key),
        m[key] == j,
    ensures
        gives(required(m, key), j),
{
    reveal(required);
}

/// A field that holds a string is read as its text.
pub proof fn lemma_reads_text(m: Fields, key: Seq<char>, s: Seq<char>)
    requires
        m.contains_key(key),
        m[key] == Json::Str(s),
    ensures
        gives(required_text(m, key), s),
{
    reveal(required);
    reveal(required_text);
}

/// A field that holds the token of a literal is read as the literal.
pub proof fn lemma_reads_token<T: Literal>(m: Fields, key: Seq<char>, t: T)
    requires
        m.contains_key(key),
        m[key] == token_json(t),
    ensures
        gives(required_token::<T>(m, key), t),
{
    reveal(required);
    reveal(required_token);
    t.lemma_token_parses();
}

/// A field that holds the string `literal` is read as it.
pub proof fn lemma_reads_literal(m: Fields, key: Seq<char>, literal: Seq<char>)
    requires
        m.contains_key(key),
        m[key] == Json::Str(literal),
    ensures
        gives(required_literal(m, key, literal), literal),
{
    reveal(required);
    reveal(required_text);
    reveal(required_literal);
}

/// A field that holds an array is read as its items.
pub proof fn lemma_reads_array(m: Fields, key: Seq<char>, items: Seq<Json>)
    requires
        m.contains_key(key),
        m[key] == Json::Array(items),
    ensures
        gives(required_array(m, key), items),
        gives(optional_array(m, key), Some(items)),
{
    reveal(required);
    reveal(required_array);
    reveal(optional_array);
}

/// A field that holds an array of strings is read as their texts.
pub proof fn lemma_reads_texts(m: Fields, key: Seq<char>, items: Seq<Seq<char>>)
    requires
        m.contains_key(key),
        m[key] == texts_json(items),
    ensures
        gives(required_texts(m, key), items),
{
    reveal(required);
    reveal(required_array);
    reveal(required_texts);
    lemma_texts_roundtrip(items);
}

/// An object that says under `type` that it is a `tag` is read as one.
pub proof fn lemma_reads_tag(m: Fields, tag: Seq<char>)
    requires
        m.contains_key(type_key()),
        m[type_key()] == Json::Str(tag),
    ensures
        gives(tagged(m, tag), tag),
{
    reveal(tagged);
}

/// An object that says under `type` the token of a kind is read as of that
/// kind.
pub proof fn lemma_reads_kind<T: Literal>(m: Fields, kind: T)
    requires
        m.contains_key(type_key()),
        m[type_key()] == token_json(kind),
    ensures
        gives(kind_of::<T>(m), kind),
{
    reveal(kind_of);
    kind.lemma_token_parses();
}

/// A field that is there exactly where `s` is a text, and then holds it, is
/// read as `s`.
pub proof fn lemma_reads_opt_text(m: Fields, key: Seq<char>, s: Option<Seq<char>>)
    requires
        m.contains_key(key) <==> s is Some,
        s matches Some(x) ==> m[key] == Json::Str(x),
    ensures
        gives(optional_text(m, key), s),
{
    reveal(optional_text);
}

/// A field that is there exactly where `b` is a boolean, and then holds it,
/// is read as `b`.
pub proof fn lemma_reads_opt_bool(m: Fields, key: Seq<char>, b: Option<bool>)
    requires
        m.contains_key(key) <==> b is Some,
        b matches Some(x) ==> m[key] == Json::Bool(x),
    ensures
        gives(optional_bool(m, key), b),
{
    reveal(optional_bool);
}

/// A field that is there exactly where `n` is a number, and then holds it,
/// is read as `n`.
pub proof fn lemma_reads_opt_u32(m: Fields, key: Seq<char>, n: Option<u32>)
    requires
        m.contains_key(key) <==> n is Some,
        n matches Some(x) ==> m[key] == u32_json(x),
    ensures
        gives(optional_u32(m, key), n),
{
    reveal(optional_u32);
}

/// A field that is there exactly where `n` is a number, and then holds it,
/// is read as `n`.
pub proof fn lemma_reads_opt_number(m: Fields, key: Seq<char>, n: Option<Num>)
    requires
        m.contains_key(key) <==> n is Some,
        n matches Some(x) ==> m[key] == Json::Number(x),
    ensures
        gives(optional_number(m, key), n),
{
    reveal(optional_number);
}

/// A field that is there exactly where `t` is a literal, and then holds its
/// token, is read as `t`.
pub proof fn lemma_reads_opt_token<T: Literal>(m: Fields, key: Seq<char>, t: Option<T>)
    requires
        m.contains_key(key) <==> t is Some,
        t matches Some(x) ==> m[key] == token_json(x),
    ensures
        gives(optional_token::<T>(m, key), t),
{
    reveal(optional_token);
    lemma_opt_token_parses(t);
}

/// A field that is there exactly where `j` is a value other than `null`, and
/// then holds it, is read as `j`.
pub proof fn lemma_reads_opt_json(m: Fields, key: Seq<char>, j: Option<Json>)
    requires
        !(j matches Some(x) && x is Null),
        m.contains_key(key) <==> j is Some,
        j matches Some(x) ==> m[key] == x,
    ensures
        gives(optional_json(m, key), j),
{
    reveal(optional_json);
}

/// A field that is not there is read as no array, and one that holds an
/// array as its items.
pub proof fn lemma_reads_opt_array(m: Fields, key: Seq<char>, items: Option<Seq<Json>>)
    requires
        m.contains_key(key) <==> items is Some,
        items matches Some(x) ==> m[key] == Json::Array(x),
    ensures
        gives(optional_array(m, key), items),
{
    reveal(optional_array);
}

} // verus!

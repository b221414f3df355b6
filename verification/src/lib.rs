//! Adaptive Cards as typed values, and their exact mapping to and from JSON.
//!
//! An Adaptive Card is a declarative description of a piece of user
//! interface: a root document ([`card::AdaptiveCard`]) with a body of
//! elements ([`card::CardElement`]) and with actions ([`actions::Action`]).
//! Renderers exchange cards as JSON. This crate holds the cards as values of
//! Rust types, writes them as `serde_json` values and reads them back, and it
//! is verified with Verus: every function has a contract, and the contracts
//! are proved.
//!
//! # Writing and reading
//!
//! Every type of the model has `encode`, which gives the JSON value that
//! stands for a value, and `decode`, which gives the value that a JSON value
//! stands for, or the first incompatibility that it meets
//! ([`error::DecodeError`]).
//!
//! ```
//! use adaptive_card_rs::card::{AdaptiveCard, CardElement, TextBlock, TextSize, Version};
//!
//! let card = AdaptiveCard {
//!     version: Version::V1_3,
//!     body: vec![CardElement::TextBlock(TextBlock {
//!         text: "Hello, Adaptive Card!".to_string(),
//!         size: Some(TextSize::Large),
//!         ..Default::default()
//!     })],
//!     ..Default::default()
//! };
//! let json = card.encode();
//! assert_eq!(json["body"][0]["type"], "TextBlock");
//! assert_eq!(AdaptiveCard::decode(&json), Ok(card));
//! ```
//!
//! # The wire format
//!
//! * An element or an action is an object that says under `type` of which
//!   kind it is: `TextBlock`, `Input.Text`, `Action.OpenUrl` and so on. The
//!   fields of the kind stand in the same object.
//! * A field without a value is a key that is absent. Nothing is written as
//!   `null`, and `null` is read as no value.
//! * A literal is written as its token: `large`, `extraLarge`, `1.3`.
//! * The width of a column is a bare number for a weight, and a string for
//!   `auto`, `stretch` and pixels (`"200px"`).
//! * An `Action.ShowCard` holds a whole card under `card`. Reading stops with
//!   an error where elements and actions are nested deeper than a limit
//!   ([`card::MAX_DEPTH`] by default).
//! * Keys that the model does not know are passed over.
//!
//! A value whose fields were set by hand can be one that the wire format does
//! not express: a card whose `schema` is not the schema address, a text run
//! whose `type_field` is not `TextRun`, a submit action whose `data` is
//! `null`. Such a value is written field by field all the same, and
//! `is_well_formed` tells it apart before it is written.
//!
//! # What is proved
//!
//! The meaning of `encode` and `decode` is given by specification functions
//! on the mathematical models of the types (`encode_spec`, `decode_spec`), over
//! the model of JSON in [`json`]. On top of the contracts that tie the code to
//! them, these laws are proved for every type:
//!
//! * `lemma_roundtrip`: reading what was written gives the value back, for
//!   every well-formed value that is nested no deeper than the limit in
//!   force. [`laws`] states the same of `encode` and `decode` themselves.
//! * `lemma_written` and `lemma_written_keys`: what is written is the fields
//!   that have a value, each under its key, and nothing else.
//! * `lemma_within_nesting`: every value is within the limit that is its own
//!   nesting, so that no well-formed value is left out of the round trip.
//! * `lemma_decoded`: what is read is well formed, and nested no deeper than
//!   the limit.
//! * `lemma_base_is_flat`: the fields that nearly every element carries
//!   ([`card::BaseFields`]) stand among the fields of the element.
//! * `lemma_unknown_tag`: a `type` outside the kinds of its family is refused
//!   as an unknown tag.
//!
//! The constructors and accessors of `serde_json` that the code calls are not
//! proved but believed; they stand in [`json`], each with what is believed of
//! it.

pub mod actions;
pub mod card;
pub mod common;
pub mod error;
pub mod field;
pub mod inputs;
pub mod json;
pub mod keys;
pub mod laws;
pub mod literal;
pub mod object;
pub mod text;

//! The round trip, stated of the functions that write and read: what `decode`
//! reads of what `encode` has written is the value that was written.
//!
//! Each of the first three laws takes the value, what `encode` gave for it
//! and what `decode` gave for that, and asks of the two results no more than
//! the contracts of `encode` and `decode` promise. The last says that no
//! well-formed card is left out: every card is read back under a limit that
//! is great enough. The laws of the single types, on which these rest, stand
//! with the types (`lemma_roundtrip`).

use crate::actions::{Action, ActionView};
use crate::card::{AdaptiveCard, AdaptiveCardView, CardElement, CardElementView};
use crate::error::{decoded, DecodeError};
use crate::field::gives;
use crate::json::value_json;
use serde_json::Value;
use vstd::prelude::*;

verus! {

/// A well-formed card that is nested no deeper than `limit` is read back as
/// it was written.
pub proof fn card_roundtrip(
    card: AdaptiveCard,
    limit: nat,
    written: Value,
    read: Result<AdaptiveCard, DecodeError>,
)
    requires
        card@.well_formed(),
        card@.within(limit),
        value_json(written) == card@.encode_spec(),
        decoded(read) == AdaptiveCardView::decode_spec(value_json(written), limit),
    ensures
        read matches Ok(back) && back@ == card@,
{
    card@.lemma_roundtrip(limit);
}

/// A well-formed element that is nested no deeper than `limit` is read back
/// as it was written.
pub proof fn element_roundtrip(
    element: CardElement,
    limit: nat,
    written: Value,
    read: Result<CardElement, DecodeError>,
)
    requires
        element@.well_formed(),
        element@.within(limit),
        value_json(written) == element@.encode_spec(),
        decoded(read) == CardElementView::decode_spec(value_json(written), limit),
    ensures
        read matches Ok(back) && back@ == element@,
{
    element@.lemma_roundtrip(limit);
}

/// A well-formed action that is nested no deeper than `limit` is read back
/// as it was written.
pub proof fn action_roundtrip(
    action: Action,
    limit: nat,
    written: Value,
    read: Result<Action, DecodeError>,
)
    requires
        action@.well_formed(),
        action@.within(limit),
        value_json(written) == action@.encode_spec(),
        decoded(read) == ActionView::decode_spec(value_json(written), limit),
    ensures
        read matches Ok(back) && back@ == action@,
{
    action@.lemma_roundtrip(limit);
}

/// Every well-formed card is read back as it was written, under every limit
/// from its nesting on.
pub proof fn card_roundtrip_under_its_nesting(card: AdaptiveCardView, limit: nat)
    requires
        card.well_formed(),
        card.nesting() <= limit,
    ensures
        gives(AdaptiveCardView::decode_spec(card.encode_spec(), limit), card),
{
    card.lemma_within_nesting();
    card.lemma_within_more(card.nesting(), limit);
    card.lemma_roundtrip(limit);
}

} // verus!

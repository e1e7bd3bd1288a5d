//! A payload that bundles a text payload with an integer payload.
use vstd::prelude::*;
use crate::workloads::{COLLECTION_SIZE_START, COLLECTION_SIZE_END, inty, is_sentence, noun_keys, noun_values, stringy};

verus! {

#[derive(Debug, Clone)]
pub struct Payload {
    pub stringy: stringy::Payload,
    pub inty: inty::Payload,
}

impl Payload {
    /// A random text payload and a random integer payload, drawn in that
    /// order.
    pub fn rand() -> (r: Payload)
        ensures
            is_sentence(r.stringy.body@),
            COLLECTION_SIZE_START <= r.stringy.messages.len() < COLLECTION_SIZE_END,
            forall|i: int| 0 <= i < r.stringy.messages.len() ==> is_sentence(#[trigger] r.stringy.messages[i]@),
            1 <= r.stringy.configuration@.len() < COLLECTION_SIZE_END,
            noun_keys(r.stringy.configuration@),
            noun_values(r.stringy.configuration@),
            is_sentence(r.inty.header@),
            1 <= r.inty.configuration@.len() < COLLECTION_SIZE_END,
            noun_keys(r.inty.configuration@),
            COLLECTION_SIZE_START <= r.inty.ids.len() < COLLECTION_SIZE_END,
    {
        Payload { stringy: stringy::Payload::rand(), inty: inty::Payload::rand() }
    }
}

} // verus!

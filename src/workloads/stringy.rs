//! A payload of text: a body, named string settings and a list of messages.
use vstd::prelude::*;
use std::collections::HashMap;
use crate::workloads::{
    COLLECTION_SIZE_START, COLLECTION_SIZE_END, distinct_nouns, has_key, insert_entry, is_noun,
    is_sentence, joined, noun, noun_keys, noun_values, pick_nouns, random_in, spaced, views,
};

verus! {

#[derive(Debug, Clone)]
pub struct Payload {
    pub body: String,
    pub messages: Vec<String>,
    pub configuration: HashMap<String, String>,
}

/// Each message draw holds distinct nouns, as many as the collection size
/// range gives.
pub open spec fn sentence_draws(m: Seq<Vec<&str>>) -> bool {
    forall|i: int| 0 <= i < m.len() ==> distinct_nouns(views((#[trigger] m[i])@))
        && COLLECTION_SIZE_START <= m[i].len() < COLLECTION_SIZE_END
}

impl Payload {
    /// The payload made of drawn values: body and messages joined by
    /// spaces, and the settings in order (a later one replaces an earlier one
    /// of the same name).
    pub fn from_draws(body: &Vec<&str>, messages: &Vec<Vec<&str>>, settings: &Vec<(&str, &str)>) -> (r: Payload)
        ensures
            r.body@ == joined(views(body@), seq![' ']),
            r.messages.len() == messages.len(),
            forall|i: int| 0 <= i < messages.len() ==> (#[trigger] r.messages@[i])@ == joined(views(messages@[i]@), seq![' ']),
            sentence_draws(messages@) ==> forall|i: int| 0 <= i < r.messages.len() ==> is_sentence((#[trigger] r.messages@[i])@),
            forall|i: int| 0 <= i < settings.len() ==> has_key(r.configuration@, (#[trigger] settings@[i]).0@),
            forall|j: String| #[trigger] r.configuration@.contains_key(j) ==> exists|i: int|
                0 <= i < settings.len() && (#[trigger] settings@[i]).0@ == j@ && r.configuration@[j]@ == settings@[i].1@,
            r.configuration@.len() <= settings.len(),
            settings.len() > 0 ==> r.configuration@.len() >= 1,
    {
        let body = spaced(body);
        let mut out: Vec<String> = Vec::with_capacity(messages.len());
        while out.len() < messages.len()
            invariant
                out.len() <= messages.len(),
                forall|i: int| 0 <= i < out.len() ==> (#[trigger] out@[i])@ == joined(views(messages@[i]@), seq![' ']),
                sentence_draws(messages@) ==> forall|i: int| 0 <= i < out.len() ==> is_sentence((#[trigger] out@[i])@),
            decreases messages.len() - out.len(),
        {
            let m = spaced(&messages[out.len()]);
            out.push(m);
        }
        let mut configuration: HashMap<String, String> = HashMap::new();
        let mut i: usize = 0;
        while i < settings.len()
            invariant
                i <= settings.len(),
                configuration@.len() <= i,
                i > 0 ==> configuration@.len() >= 1,
                forall|k: int| 0 <= k < i ==> has_key(configuration@, (#[trigger] settings@[k]).0@),
                forall|j: String| #[trigger] configuration@.contains_key(j) ==> exists|k: int|
                    0 <= k < i && (#[trigger] settings@[k]).0@ == j@ && configuration@[j]@ == settings@[k].1@,
            decreases settings.len() - i,
        {
            let (name, value) = settings[i];
            let ghost before = configuration@;
            let v = value.to_owned();
            let ghost vv = v;
            insert_entry(&mut configuration, name.to_owned(), v);
            proof {
                assert forall|k: int| 0 <= k < i + 1 implies has_key(configuration@, (#[trigger] settings@[k]).0@) by {
                    if k < i {
                        let key = settings@[k].0@;
                        if key != name@ {
                            assert(has_key(before, key));
                            let j = choose|j: String| #[trigger] before.contains_key(j) && j@ == key;
                            assert(configuration@.contains_key(j));
                        }
                    }
                }
                assert forall|j: String| #[trigger] configuration@.contains_key(j) implies exists|k: int|
                    0 <= k < i + 1 && (#[trigger] settings@[k]).0@ == j@ && configuration@[j]@ == settings@[k].1@ by {
                    if j@ == name@ && configuration@[j] == vv {
                        assert(settings@[i as int].0@ == j@);
                    } else {
                        assert(before.contains_key(j));
                    }
                }
            }
            i = i + 1;
        }
        Payload { body, messages: out, configuration }
    }

    /// A random payload: a body and messages of distinct nouns, and settings
    /// whose names and values are nouns; each count is drawn from the
    /// collection size range.
    pub fn rand() -> (r: Payload)
        ensures
            is_sentence(r.body@),
            COLLECTION_SIZE_START <= r.messages.len() < COLLECTION_SIZE_END,
            forall|i: int| 0 <= i < r.messages.len() ==> is_sentence(#[trigger] r.messages[i]@),
            1 <= r.configuration@.len() < COLLECTION_SIZE_END,
            noun_keys(r.configuration@),
            noun_values(r.configuration@),
    {
        let n_words = random_in(COLLECTION_SIZE_START, COLLECTION_SIZE_END);
        let body = pick_nouns(n_words);
        let n_configs = random_in(COLLECTION_SIZE_START, COLLECTION_SIZE_END);
        let mut settings: Vec<(&str, &str)> = Vec::new();
        while settings.len() < n_configs
            invariant
                settings.len() <= n_configs,
                forall|k: int| 0 <= k < settings.len() ==> is_noun((#[trigger] settings@[k]).0@) && is_noun(settings@[k].1@),
            decreases n_configs - settings.len(),
        {
            settings.push((noun(), noun()));
        }
        let n_messages = random_in(COLLECTION_SIZE_START, COLLECTION_SIZE_END);
        let mut messages: Vec<Vec<&str>> = Vec::with_capacity(n_messages);
        while messages.len() < n_messages
            invariant
                messages.len() <= n_messages,
                sentence_draws(messages@),
            decreases n_messages - messages.len(),
        {
            let n = random_in(COLLECTION_SIZE_START, COLLECTION_SIZE_END);
            messages.push(pick_nouns(n));
        }
        let r = Payload::from_draws(&body, &messages, &settings);
        proof {
            crate::workloads::lemma_phrase(body@);
            assert forall|j: String| #[trigger] r.configuration@.contains_key(j) implies is_noun(j@) && is_noun(r.configuration@[j]@) by {
                let k = choose|k: int| 0 <= k < settings.len() && (#[trigger] settings@[k]).0@ == j@
                    && r.configuration@[j]@ == settings@[k].1@;
            }
        }
        r
    }
}

} // verus!

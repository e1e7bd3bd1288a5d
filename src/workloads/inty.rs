//! A payload of integers: a header, named integer settings and a list of ids.
use vstd::prelude::*;
use std::collections::HashMap;
use crate::workloads::{
    COLLECTION_SIZE_START, COLLECTION_SIZE_END, has_key, insert_entry, is_noun,
    is_sentence, joined, noun, noun_keys, pick_nouns, random_in, random_i64, spaced, views,
};

verus! {

#[derive(Debug, Clone)]
pub struct Payload {
    pub header: String,
    pub configuration: HashMap<String, i64>,
    pub ids: Vec<i64>,
}

impl Payload {
    /// The payload made of drawn values: the header words joined by spaces,
    /// the settings in order (a later one replaces an earlier one of the same
    /// name) and the ids.
    pub fn from_draws(header: &Vec<&str>, settings: &Vec<(&str, i64)>, ids: Vec<i64>) -> (r: Payload)
        ensures
            r.header@ == joined(views(header@), seq![' ']),
            r.ids@ == ids@,
            forall|i: int| 0 <= i < settings.len() ==> has_key(r.configuration@, (#[trigger] settings@[i]).0@),
            forall|j: String| #[trigger] r.configuration@.contains_key(j) ==> exists|i: int|
                0 <= i < settings.len() && (#[trigger] settings@[i]).0@ == j@ && r.configuration@[j] == settings@[i].1,
            r.configuration@.len() <= settings.len(),
            settings.len() > 0 ==> r.configuration@.len() >= 1,
    {
        let header = spaced(header);
        let mut configuration: HashMap<String, i64> = HashMap::new();
        let mut i: usize = 0;
        while i < settings.len()
            invariant
                i <= settings.len(),
                configuration@.len() <= i,
                i > 0 ==> configuration@.len() >= 1,
                forall|k: int| 0 <= k < i ==> has_key(configuration@, (#[trigger] settings@[k]).0@),
                forall|j: String| #[trigger] configuration@.contains_key(j) ==> exists|k: int|
                    0 <= k < i && (#[trigger] settings@[k]).0@ == j@ && configuration@[j] == settings@[k].1,
            decreases settings.len() - i,
        {
            let (name, value) = settings[i];
            let ghost before = configuration@;
            insert_entry(&mut configuration, name.to_owned(), value);
            proof {
                assert forall|k: int| 0 <= k < i + 1 implies has_key(configuration@, (#[trigger] settings@[k]).0@) by {
                    if k < i {
                        let key = settings@[k].0@;
                        if key != name@ {
                            assert(has_key(before, key));
                            let j = choose|j: String| #[trigger] before.contains_key(j) && j@ == key;
                            assert(configuration@.contains_key(j));
                        }
                    }
                }
                assert forall|j: String| #[trigger] configuration@.contains_key(j) implies exists|k: int|
                    0 <= k < i + 1 && (#[trigger] settings@[k]).0@ == j@ && configuration@[j] == settings@[k].1 by {
                    if j@ == name@ && configuration@[j] == value {
                        assert(settings@[i as int].0@ == j@);
                    } else {
                        assert(before.contains_key(j));
                    }
                }
            }
            i = i + 1;
        }
        Payload { header, configuration, ids }
    }

    /// A random payload: a header of distinct nouns, settings named by
    /// nouns, and ids; each count is drawn from the collection size range.
    pub fn rand() -> (r: Payload)
        ensures
            is_sentence(r.header@),
            1 <= r.configuration@.len() < COLLECTION_SIZE_END,
            noun_keys(r.configuration@),
            COLLECTION_SIZE_START <= r.ids.len() < COLLECTION_SIZE_END,
    {
        let n_words = random_in(COLLECTION_SIZE_START, COLLECTION_SIZE_END);
        let header = pick_nouns(n_words);
        let n_configs = random_in(COLLECTION_SIZE_START, COLLECTION_SIZE_END);
        let mut settings: Vec<(&str, i64)> = Vec::new();
        while settings.len() < n_configs
            invariant
                settings.len() <= n_configs,
                forall|k: int| 0 <= k < settings.len() ==> is_noun((#[trigger] settings@[k]).0@),
            decreases n_configs - settings.len(),
        {
            settings.push((noun(), random_i64()));
        }
        let n_ids = random_in(COLLECTION_SIZE_START, COLLECTION_SIZE_END);
        let mut ids: Vec<i64> = Vec::with_capacity(n_ids);
        while ids.len() < n_ids
            invariant
                ids.len() <= n_ids,
            decreases n_ids - ids.len(),
        {
            ids.push(random_i64());
        }
        let r = Payload::from_draws(&header, &settings, ids);
        proof {
            crate::workloads::lemma_phrase(header@);
            assert forall|j: String| #[trigger] r.configuration@.contains_key(j) implies is_noun(j@) by {
                let k = choose|k: int| 0 <= k < settings.len() && (#[trigger] settings@[k]).0@ == j@
                    && r.configuration@[j] == settings@[k].1;
            }
        }
        r
    }
}

} // verus!

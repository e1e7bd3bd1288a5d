//! The three payload shapes that the service returns, and their random
//! generation from a list of nouns.
use vstd::prelude::*;
use vstd::string::StringExecFns;
use std::collections::HashMap;
use rand::Rng;
use rand::seq::IndexedRandom;

pub mod inty;
pub mod mixed;
pub mod stringy;

verus! {

/// Collection sizes are drawn from `COLLECTION_SIZE_START..COLLECTION_SIZE_END`.
pub const COLLECTION_SIZE_START: usize = 5;
pub const COLLECTION_SIZE_END: usize = 15;

/// Number of nouns in the list that words are drawn from.
pub const NOUN_COUNT: usize = 981;

/// Whether `w` is one of the nouns of `names::NOUNS`.
pub uninterp spec fn is_noun(w: Seq<char>) -> bool;

/// A word of the noun list: non-empty and without a space.
pub open spec fn is_word(s: Seq<char>) -> bool {
    s.len() > 0 && !s.contains(' ')
}

/// Pairwise distinct nouns of the list.
pub open spec fn distinct_nouns(ws: Seq<Seq<char>>) -> bool {
    &&& forall|i: int| 0 <= i < ws.len() ==> is_noun(#[trigger] ws[i]) && is_word(ws[i])
    &&& forall|i: int, j: int| 0 <= i < j < ws.len() ==> ws[i] != ws[j]
}

/// The characters of each drawn word.
pub open spec fn views(v: Seq<&str>) -> Seq<Seq<char>> {
    v.map_values(|s: &str| s@)
}

/// `s` is `k` distinct nouns of the list joined by single spaces.
pub open spec fn phrase_of(s: Seq<char>, k: nat) -> bool {
    exists|ws: Seq<Seq<char>>|
        ws.len() == k && distinct_nouns(ws) && #[trigger] joined(ws, seq![' ']) == s
}

/// `s` is a non-empty phrase whose word count is drawn from the collection
/// size range.
pub open spec fn is_sentence(s: Seq<char>) -> bool {
    &&& s.len() > 0
    &&& exists|k: nat| COLLECTION_SIZE_START <= k < COLLECTION_SIZE_END && #[trigger] phrase_of(s, k)
}

/// Words drawn for a request of `n`: all of them, up to the list's length.
pub open spec fn drawn(n: usize) -> nat {
    if n < NOUN_COUNT { n as nat } else { NOUN_COUNT as nat }
}

/// Some key of `m` has the characters `s`.
pub open spec fn has_key<V>(m: Map<String, V>, s: Seq<char>) -> bool {
    exists|j: String| #[trigger] m.contains_key(j) && j@ == s
}

/// `after` is `before` with the value of the key whose characters are `k`
/// set to `v`, that key added if there was none.
pub open spec fn inserted<V>(before: Map<String, V>, after: Map<String, V>, k: Seq<char>, v: V) -> bool {
    &&& exists|j: String| #[trigger] after.contains_key(j) && j@ == k && after[j] == v
    &&& forall|j: String| #[trigger] after.contains_key(j) ==> (j@ == k && after[j] == v) || (j@ != k
        && before.contains_key(j) && after[j] == before[j])
    &&& forall|j: String| #[trigger] before.contains_key(j) && j@ != k ==> after.contains_key(j)
}

/// Every key of `m` is a noun of the list.
pub open spec fn noun_keys<V>(m: Map<String, V>) -> bool {
    forall|j: String| #[trigger] m.contains_key(j) ==> is_noun(j@)
}

/// Every value of `m` is a noun of the list.
pub open spec fn noun_values(m: Map<String, String>) -> bool {
    forall|j: String| #[trigger] m.contains_key(j) ==> is_noun(m[j]@)
}

proof fn lemma_joined_nonempty(parts: Seq<Seq<char>>, sep: Seq<char>)
    requires
        parts.len() > 0,
        parts[0].len() > 0,
    ensures
        joined(parts, sep).len() > 0,
    decreases parts.len(),
{
    if parts.len() > 1 {
        lemma_joined_nonempty(parts.drop_last(), sep);
    }
}

/// Words drawn as `pick_nouns` draws them, joined by spaces, make a phrase;
/// a sentence where their number is in the collection size range.
pub(crate) proof fn lemma_phrase(nouns: Seq<&str>)
    requires
        distinct_nouns(views(nouns)),
    ensures
        phrase_of(joined(views(nouns), seq![' ']), nouns.len()),
        nouns.len() > 0 ==> joined(views(nouns), seq![' ']).len() > 0,
        COLLECTION_SIZE_START <= nouns.len() < COLLECTION_SIZE_END ==> is_sentence(joined(views(nouns), seq![' '])),
{
    let ws = views(nouns);
    assert(ws.len() == nouns.len());
    if nouns.len() > 0 {
        assert(ws[0] == nouns[0]@);
        lemma_joined_nonempty(ws, seq![' ']);
    }
    if COLLECTION_SIZE_START <= nouns.len() < COLLECTION_SIZE_END {
        assert(phrase_of(joined(ws, seq![' ']), nouns.len()));
    }
}

/// `parts` joined with `sep` between each two.
pub open spec fn joined(parts: Seq<Seq<char>>, sep: Seq<char>) -> Seq<char>
    decreases parts.len(),
{
    if parts.len() == 0 {
        Seq::empty()
    } else if parts.len() == 1 {
        parts[0]
    } else {
        joined(parts.drop_last(), sep) + sep + parts.last()
    }
}

/// Relies on rand's thread-local generator and `Rng::random_range`: a value
/// in `low..high`, which must not be empty.
#[verifier::external_body]
pub(crate) fn random_in(low: usize, high: usize) -> (r: usize)
    requires
        low < high,
    ensures
        low <= r < high,
{
    rand::rng().random_range(low..high)
}

/// Relies on rand's thread-local generator and `Rng::random`: any `i64`.
#[verifier::external_body]
pub(crate) fn random_i64() -> (r: i64) {
    rand::rng().random()
}

/// Relies on `IndexedRandom::choose_multiple` over `names::NOUNS`: nouns at
/// distinct positions, `amount` of them or all if the list is shorter. The
/// list has 981 nouns, distinct, non-empty and without spaces.
#[verifier::external_body]
pub(crate) fn pick_nouns(amount: usize) -> (r: Vec<&'static str>)
    ensures
        r.len() == drawn(amount),
        distinct_nouns(views(r@)),
{
    names::NOUNS.choose_multiple(&mut rand::rng(), amount).copied().collect()
}

/// Relies on `IndexedRandom::choose` over `names::NOUNS`: one noun, since the
/// list is not empty; nouns are non-empty and without spaces.
#[verifier::external_body]
pub(crate) fn pick_noun() -> (r: Option<&'static str>)
    ensures
        r is Some,
        is_noun(r->0@),
        is_word(r->0@),
{
    names::NOUNS.choose(&mut rand::rng()).copied()
}

/// The parts with `sep` between each two.
pub(crate) fn join(parts: &Vec<&str>, sep: &str) -> (r: String)
    ensures
        r@ == joined(parts@.map_values(|s: &str| s@), sep@),
{
    let mut r = String::new();
    let mut i: usize = 0;
    while i < parts.len()
        invariant
            i <= parts.len(),
            r@ == joined(parts@.take(i as int).map_values(|s: &str| s@), sep@),
        decreases parts.len() - i,
    {
        let ghost prev = parts@.take(i as int).map_values(|s: &str| s@);
        let ghost next = parts@.take(i + 1).map_values(|s: &str| s@);
        if i > 0 {
            r.append(sep);
        }
        r.append(parts[i]);
        proof {
            assert(next.drop_last() =~= prev);
            assert(next.last() == parts@[i as int]@);
            if i == 0 {
                assert(prev.len() == 0);
                assert(joined(prev, sep@) =~= Seq::<char>::empty());
                assert(r@ =~= next[0]);
            } else {
                assert(r@ =~= joined(prev, sep@) + sep@ + next.last());
            }
        }
        i = i + 1;
    }
    proof {
        assert(parts@.take(i as int) =~= parts@);
    }
    r
}

/// Relies on `HashMap::insert`: `k` is added, or the value of the key equal
/// to it replaced; other entries stay.
#[verifier::external_body]
pub(crate) fn insert_entry<V>(m: &mut HashMap<String, V>, k: String, v: V)
    ensures
        old(m)@.len() <= final(m)@.len() <= old(m)@.len() + 1,
        final(m)@.len() >= 1,
        inserted(old(m)@, final(m)@, k@, v),
{
    m.insert(k, v);
}

/// A random string of `n` distinct nouns separated by single spaces (fewer
/// if the noun list is shorter).
pub fn words(n: usize) -> (r: String)
    ensures
        phrase_of(r@, drawn(n)),
        n >= 1 ==> r@.len() > 0,
{
    let nouns = pick_nouns(n);
    spaced(&nouns)
}

/// The drawn words joined by single spaces.
pub(crate) fn spaced(nouns: &Vec<&str>) -> (r: String)
    ensures
        r@ == joined(views(nouns@), seq![' ']),
        distinct_nouns(views(nouns@)) ==> phrase_of(r@, nouns.len() as nat),
        distinct_nouns(views(nouns@)) && nouns.len() > 0 ==> r@.len() > 0,
        distinct_nouns(views(nouns@)) && COLLECTION_SIZE_START <= nouns.len() < COLLECTION_SIZE_END ==> is_sentence(r@),
{
    let r = join(nouns, " ");
    proof {
        reveal_strlit(" ");
        assert(" "@ == seq![' ']);
        if distinct_nouns(views(nouns@)) {
            lemma_phrase(nouns@);
        }
    }
    r
}

/// A random noun of the list.
pub(crate) fn noun() -> (r: &'static str)
    ensures
        is_noun(r@),
        is_word(r@),
{
    let w = pick_noun();
    match w {
        Some(w) => w,
        None => "",
    }
}

/// A random noun of the list.
pub fn word() -> (r: String)
    ensures
        is_noun(r@),
        is_word(r@),
{
    noun().to_owned()
}

} // verus!

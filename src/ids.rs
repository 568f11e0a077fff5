//! Fresh identifiers for streams and sessions.
use vstd::prelude::*;
use vstd::set_lib::{lemma_int_range, lemma_len_subset, set_int_range};

verus! {

/// Relies on uuid::Uuid::new_v4 and Uuid::as_u128: a random version-4 UUID,
/// as an integer. Nothing is promised of its value.
#[verifier::external_body]
pub(crate) fn new_uuid() -> (r: u128) {
    uuid::Uuid::new_v4().as_u128()
}

fn holds(v: &Vec<u128>, x: u128) -> (r: bool)
    ensures
        r == v@.contains(x),
{
    let mut i: usize = 0;
    while i < v.len()
        invariant
            i <= v@.len(),
            forall|k: int| 0 <= k < i ==> v@[k] != x,
        decreases v@.len() - i,
    {
        if v[i] == x {
            assert(v@[i as int] == x);
            return true;
        }
        i = i + 1;
    }
    false
}

/// The smallest id that `v` does not hold; it is at most the length of `v`.
fn smallest_free(v: &Vec<u128>) -> (r: u128)
    ensures
        !v@.contains(r),
{
    let ghost s = v@.map_values(|x: u128| x as int).to_set();
    let mut c: u128 = 0;
    let n = v.len();
    while holds(v, c)
        invariant
            n == v@.len(),
            c as int <= v@.len(),
            s == v@.map_values(|x: u128| x as int).to_set(),
            forall|x: u128| x < c ==> #[trigger] v@.contains(x),
        decreases v@.len() - c,
    {
        proof {
            assert forall|x: int| set_int_range(0, c + 1).contains(x) implies s.contains(x) by {
                let y = x as u128;
                assert(y < c || y == c);
                assert(v@.contains(y));
                let j = choose|j: int| 0 <= j < v@.len() && v@[j] == y;
                assert(v@.map_values(|x: u128| x as int)[j] == x);
            }
            lemma_int_range(0, c + 1);
            v@.map_values(|x: u128| x as int).lemma_cardinality_of_set();
            lemma_len_subset(set_int_range(0, c + 1), s);
            assert(c + 1 <= n);
        }
        c = c + 1;
    }
    c
}

/// A random id that `taken` does not hold: if the drawn one is taken, the
/// smallest free one instead.
pub(crate) fn fresh_id(taken: &Vec<u128>) -> (r: u128)
    ensures
        !taken@.contains(r),
{
    let id = new_uuid();
    if holds(taken, id) {
        smallest_free(taken)
    } else {
        id
    }
}

/// `n` random ids, pairwise distinct: an id drawn twice is replaced by the
/// smallest one not yet handed out.
pub(crate) fn fresh_ids(n: usize) -> (r: Vec<u128>)
    ensures
        r@.len() == n,
        r@.no_duplicates(),
{
    let mut ids: Vec<u128> = Vec::new();
    let mut k: usize = 0;
    while k < n
        invariant
            k <= n,
            ids@.len() == k,
            ids@.no_duplicates(),
        decreases n - k,
    {
        let id = fresh_id(&ids);
        ids.push(id);
        k = k + 1;
    }
    ids
}

} // verus!

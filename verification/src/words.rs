//! Building the playable word pool and drawing a secret word from it.

use vstd::prelude::*;

use rand::RngExt;
use vstd::string::StrSliceExecFns;

verus! {

broadcast use vstd::seq_lib::group_filter_ensures;

/// A word of this character length may enter the pool.
pub open spec fn length_qualifies(w: Seq<char>, min_len: int, max_len: int) -> bool {
    min_len <= w.len() <= max_len
}

/// The pool a candidate list yields: exactly the candidates whose length
/// qualifies, kept in the order they arrived in.
pub open spec fn pool_of(candidates: Seq<String>, min_len: int, max_len: int) -> Seq<String> {
    candidates.filter(|w: String| length_qualifies(w@, min_len, max_len))
}

/// Keeps exactly the candidates whose character length lies in
/// `[min_len, max_len]`, preserving their relative order.
pub fn filter_words(candidates: &Vec<String>, min_len: usize, max_len: usize) -> (pool: Vec<
    String,
>)
    ensures
        pool@ == pool_of(candidates@, min_len as int, max_len as int),
{
    let ghost pred = |w: String| length_qualifies(w@, min_len as int, max_len as int);
    let mut pool: Vec<String> = Vec::new();
    let mut k: usize = 0;
    while k < candidates.len()
        invariant
            k <= candidates@.len(),
            pool@ == candidates@.take(k as int).filter(pred),
            pred == (|w: String| length_qualifies(w@, min_len as int, max_len as int)),
        decreases candidates@.len() - k,
    {
        let len = candidates[k].as_str().unicode_len();
        proof {
            assert(candidates@.take(k + 1) =~= candidates@.take(k as int).push(
                candidates@[k as int],
            ));
            candidates@.take(k as int).lemma_filter_push(candidates@[k as int], pred);
        }
        if min_len <= len && len <= max_len {
            pool.push(candidates[k].clone());
        }
        k += 1;
    }
    proof {
        assert(candidates@.take(k as int) =~= candidates@);
    }
    pool
}

/// Every word the filter keeps qualifies, and every qualifying candidate
/// is kept: the filter is exactly the length predicate.
pub proof fn lemma_filter_words_exact(candidates: Seq<String>, min_len: int, max_len: int)
    ensures
        forall|i: int|
            0 <= i < pool_of(candidates, min_len, max_len).len() ==> length_qualifies(
                #[trigger] pool_of(candidates, min_len, max_len)[i]@,
                min_len,
                max_len,
            ),
        forall|i: int|
            0 <= i < candidates.len() && length_qualifies(#[trigger] candidates[i]@, min_len, max_len)
                ==> pool_of(candidates, min_len, max_len).contains(candidates[i]),
        pool_of(candidates, min_len, max_len).len() <= candidates.len(),
{
    let pred = |w: String| length_qualifies(w@, min_len, max_len);
    candidates.filter_lemma(pred);
}

/// Relies on rand's `RngExt::random_range` over `0..n` on the thread's
/// generator: it returns an index drawn from that range, so strictly
/// below `n`; it panics only when the range is empty, which the
/// precondition rules out.
#[verifier::external_body]
fn random_below(n: usize) -> (r: usize)
    requires
        n > 0,
    ensures
        r < n,
{
    let mut rng = rand::rng();
    rng.random_range(0..n)
}

/// The lowercase form of a word, as `str::to_lowercase` computes it.
pub uninterp spec fn lower_of(s: Seq<char>) -> Seq<char>;

/// Relies on `str::to_lowercase`: the result is a function of the
/// characters alone.
#[verifier::external_body]
fn lowercase(s: &str) -> (r: String)
    ensures
        r@ == lower_of(s@),
{
    s.to_lowercase()
}

/// Collects the characters of a string slice into a vector.
fn chars_of(s: &str) -> (r: Vec<char>)
    ensures
        r@ == s@,
{
    let n = s.unicode_len();
    let mut r: Vec<char> = Vec::new();
    let mut k: usize = 0;
    while k < n
        invariant
            k <= n,
            n == s@.len(),
            r@.len() == k,
            forall|i: int| 0 <= i < r@.len() ==> r@[i] == s@[i],
        decreases n - k,
    {
        r.push(s.get_char(k));
        k += 1;
    }
    proof {
        assert(r@ =~= s@);
    }
    r
}

/// Deterministic selection: the lower-cased characters of the pool word
/// at a caller-chosen index. Lets a caller inject the index in place of
/// the random draw.
pub fn secret_at(pool: &Vec<String>, idx: usize) -> (secret: Vec<char>)
    requires
        idx < pool@.len(),
    ensures
        secret@ == lower_of(pool@[idx as int]@),
{
    let low = lowercase(pool[idx].as_str());
    chars_of(low.as_str())
}

/// Picks one pool word uniformly at random and hands back its
/// lower-cased characters as the round's secret.
pub fn select_word(pool: &Vec<String>) -> (secret: Vec<char>)
    requires
        pool@.len() > 0,
    ensures
        exists|i: int| 0 <= i < pool@.len() && secret@ == lower_of(pool@[i]@),
{
    let idx = random_below(pool.len());
    let secret = secret_at(pool, idx);
    proof {
        assert(0 <= idx < pool@.len() && secret@ == lower_of(pool@[idx as int]@));
    }
    secret
}

} // verus!

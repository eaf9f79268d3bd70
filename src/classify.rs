//! Classification of a domain value into one state: the predicates run in
//! the state's declared order and the first one that succeeds decides.
use vstd::prelude::*;

verus! {

/// Classification found no matching state.
#[derive(Clone, Copy, Debug)]
pub enum Error {
    InvalidState,
}

/// The first success in `s` at or after `k`.
pub open spec fn first_success_from(s: Seq<bool>, k: int) -> Option<int>
    decreases s.len() - k,
{
    if k < 0 || k >= s.len() {
        None
    } else if s[k] {
        Some(k)
    } else {
        first_success_from(s, k + 1)
    }
}

/// The outcome of classification, given the outcome of each predicate in
/// declared order: the index of the first success, or `InvalidState`.
pub open spec fn classification(s: Seq<bool>) -> Result<usize, Error> {
    match first_success_from(s, 0) {
        Some(i) => Ok(i as usize),
        None => Err(Error::InvalidState),
    }
}

proof fn lemma_first_success_from(s: Seq<bool>, k: int)
    requires
        0 <= k <= s.len(),
        forall|j: int| 0 <= j < k ==> !s[j],
    ensures
        first_success_from(s, k) matches Some(i) ==> 0 <= i < s.len() && s[i] && forall|j: int|
            0 <= j < i ==> !s[j],
        first_success_from(s, k) is None ==> forall|j: int| 0 <= j < s.len() ==> !s[j],
    decreases s.len() - k,
{
    if k < s.len() && !s[k] {
        lemma_first_success_from(s, k + 1);
    }
}

/// The first success is what classification returns: `Ok(i)` exactly when
/// predicate `i` succeeds and none before it does.
pub proof fn lemma_classification_first(s: Seq<bool>)
    requires
        s.len() <= usize::MAX,
    ensures
        classification(s) matches Ok(i) ==> i < s.len() && s[i as int] && forall|j: int|
            0 <= j < i ==> !s[j],
        classification(s) is Err <==> forall|j: int| 0 <= j < s.len() ==> !s[j],
{
    lemma_first_success_from(s, 0);
    if classification(s) is Err {
        assert forall|j: int| 0 <= j < s.len() implies !s[j] by {}
    } else {
        let i = first_success_from(s, 0)->0;
        assert(s[i]);
    }
}

/// Classifies one domain value from the outcomes of its predicates, in the
/// state's declared order.
pub fn classify(outcomes: &Vec<bool>) -> (r: Result<usize, Error>)
    ensures
        r == classification(outcomes@),
{
    let mut i: usize = 0;
    while i < outcomes.len()
        invariant
            i <= outcomes@.len(),
            first_success_from(outcomes@, 0) == first_success_from(outcomes@, i as int),
        decreases outcomes@.len() - i,
    {
        if outcomes[i] {
            return Ok(i);
        }
        i = i + 1;
    }
    Err(Error::InvalidState)
}

/// The outcome of classifying every value of a batch, index for index.
pub open spec fn batch_classification(rows: Seq<Seq<bool>>) -> Seq<Result<usize, Error>> {
    rows.map_values(|s: Seq<bool>| classification(s))
}

/// The outcomes of each row of a batch, as mathematical values.
pub open spec fn rows_view(rows: Seq<Vec<bool>>) -> Seq<Seq<bool>> {
    rows.map_values(|v: Vec<bool>| v@)
}

/// Classifies a batch on one thread: the result at each index is the
/// classification of the value at that index.
pub fn classify_batch(rows: &Vec<Vec<bool>>) -> (r: Vec<Result<usize, Error>>)
    ensures
        r@ == batch_classification(rows_view(rows@)),
{
    let mut r: Vec<Result<usize, Error>> = Vec::new();
    let mut i: usize = 0;
    while i < rows.len()
        invariant
            i <= rows@.len(),
            r@ == batch_classification(rows_view(rows@)).subrange(0, i as int),
        decreases rows@.len() - i,
    {
        let c = classify(&rows[i]);
        r.push(c);
        i = i + 1;
        assert(r@ =~= batch_classification(rows_view(rows@)).subrange(0, i as int));
    }
    assert(r@ =~= batch_classification(rows_view(rows@)));
    r
}

/// Some result in `done` is tagged with index `i`.
pub open spec fn index_present(done: Seq<(usize, Result<usize, Error>)>, i: int) -> bool {
    exists|k: int| 0 <= k < done.len() && (#[trigger] done[k]).0 == i
}

/// The indices of `done` are exactly `0..n`, each once.
pub open spec fn is_index_permutation(done: Seq<(usize, Result<usize, Error>)>, n: nat) -> bool {
    &&& done.len() == n
    &&& forall|k: int| 0 <= k < done.len() ==> (#[trigger] done[k]).0 < n
    &&& forall|i: int| 0 <= i < n ==> #[trigger] index_present(done, i)
    &&& forall|a: int, b: int| 0 <= a < done.len() && 0 <= b < done.len() && a != b ==> done[a].0 != done[b].0
}

/// Puts results that arrived in any order, each tagged with the index of
/// its input, back into input order.
pub fn reassemble(done: &Vec<(usize, Result<usize, Error>)>) -> (r: Vec<Result<usize, Error>>)
    requires
        is_index_permutation(done@, done@.len()),
    ensures
        r@.len() == done@.len(),
        forall|k: int| 0 <= k < done@.len() ==> r@[(#[trigger] done@[k]).0 as int] == done@[k].1,
{
    let n = done.len();
    let mut r: Vec<Result<usize, Error>> = Vec::new();
    let mut i: usize = 0;
    while i < n
        invariant
            n == done@.len(),
            i <= n,
            r@.len() == i,
        decreases n - i,
    {
        r.push(Err(Error::InvalidState));
        i = i + 1;
    }
    let mut k: usize = 0;
    while k < n
        invariant
            n == done@.len(),
            is_index_permutation(done@, done@.len()),
            k <= n,
            r@.len() == n,
            forall|j: int| 0 <= j < k ==> r@[(#[trigger] done@[j]).0 as int] == done@[j].1,
        decreases n - k,
    {
        let (idx, res) = done[k];
        r.set(idx, res);
        proof {
            assert forall|j: int| 0 <= j < k implies r@[(#[trigger] done@[j]).0 as int] == done@[j].1 by {
                assert(done@[j].0 != done@[k as int].0);
            }
        }
        k = k + 1;
    }
    r
}

/// First match wins: when predicate `y` succeeds and none before it does,
/// the value classifies as `y`, whatever later predicates (such as `z`)
/// would say.
pub proof fn lemma_first_match_wins(s: Seq<bool>, y: int, z: int)
    requires
        0 <= y < z < s.len(),
        s.len() <= usize::MAX,
        s[y],
        s[z],
        forall|j: int| 0 <= j < y ==> !s[j],
    ensures
        classification(s) == Ok::<usize, Error>(y as usize),
        classification(s) != Ok::<usize, Error>(z as usize),
{
    lemma_first_success_from(s, 0);
    lemma_classification_first(s);
    let i = first_success_from(s, 0)->0;
    assert(first_success_from(s, 0) is Some) by {
        if first_success_from(s, 0) is None {
            assert(!s[y]);
        }
    }
    assert(i == y) by {
        if i < y {
            assert(!s[i]);
        }
        if i > y {
            assert(!s[y]);
        }
    }
}

/// Batch order is kept on both paths: the result at each index is the
/// classification of the input at that index, whether the batch ran in
/// sequence or its results arrived in any order and were put back by index.
pub proof fn lemma_batch_order(rows: Seq<Seq<bool>>, done: Seq<(usize, Result<usize, Error>)>, out: Seq<Result<usize, Error>>)
    requires
        is_index_permutation(done, rows.len()),
        forall|k: int| 0 <= k < done.len() ==> (#[trigger] done[k]).1 == classification(rows[done[k].0 as int]),
        out.len() == done.len(),
        forall|k: int| 0 <= k < done.len() ==> out[(#[trigger] done[k]).0 as int] == done[k].1,
    ensures
        out == batch_classification(rows),
{
    assert forall|i: int| 0 <= i < rows.len() implies out[i] == batch_classification(rows)[i] by {
        assert(index_present(done, i));
        let k = choose|k: int| 0 <= k < done.len() && (#[trigger] done[k]).0 == i;
        assert(out[i] == done[k].1);
    }
    assert(out =~= batch_classification(rows));
}

} // verus!

//! Names for the synthetic nodes of one rendering pass.
//!
//! A pass asks for a node by a prefix that says what kind of node it is. It
//! gets back the prefix followed by the number of earlier requests for that
//! prefix, in round brackets. Each prefix counts on its own, from zero.

use vstd::prelude::*;
use vstd::hash_map::StringHashMap;
use crate::decimal::{
    decimal,
    is_digit,
    lemma_decimal_injective,
    lemma_decimal_is_digits,
    push_decimal,
};

verus! {

/// How often `prefix` has been requested, by the registry's counts.
pub open spec fn count_of(counts: Map<Seq<char>, nat>, prefix: Seq<char>) -> nat {
    if counts.contains_key(prefix) {
        counts[prefix]
    } else {
        0
    }
}

/// The label of occurrence `n` of `prefix`: the prefix, then `n` in decimal
/// between round brackets.
pub open spec fn label_text(prefix: Seq<char>, n: nat) -> Seq<char> {
    prefix + "("@ + decimal(n) + ")"@
}

/// The counts after one more request for `prefix`.
pub open spec fn bump(counts: Map<Seq<char>, nat>, prefix: Seq<char>) -> Map<Seq<char>, nat> {
    counts.insert(prefix, count_of(counts, prefix) + 1)
}

/// The counts after the requests `prefixes`, made in this order on a fresh
/// registry.
pub open spec fn counts_after(prefixes: Seq<Seq<char>>) -> Map<Seq<char>, nat>
    decreases prefixes.len(),
{
    if prefixes.len() == 0 {
        Map::empty()
    } else {
        bump(counts_after(prefixes.drop_last()), prefixes.last())
    }
}

/// The label returned to request number `k` of `prefixes`, made in this
/// order on a fresh registry.
pub open spec fn label_at(prefixes: Seq<Seq<char>>, k: int) -> Seq<char> {
    label_text(prefixes[k], count_of(counts_after(prefixes.take(k)), prefixes[k]))
}

/// How many of `prefixes` are `prefix`.
pub open spec fn occurrences(prefixes: Seq<Seq<char>>, prefix: Seq<char>) -> nat
    decreases prefixes.len(),
{
    if prefixes.len() == 0 {
        0
    } else if prefixes.last() == prefix {
        occurrences(prefixes.drop_last(), prefix) + 1
    } else {
        occurrences(prefixes.drop_last(), prefix)
    }
}

/// The registry of one rendering pass: for each prefix, how many nodes were
/// requested under it so far.
pub struct Context {
    external_nodes: StringHashMap<usize>,
}

impl View for Context {
    type V = Map<Seq<char>, nat>;

    closed spec fn view(&self) -> Map<Seq<char>, nat> {
        self.external_nodes@.map_values(|n: usize| n as nat)
    }
}

impl Context {
    /// A registry in which no prefix has been requested yet.
    pub fn new() -> (cx: Self)
        ensures
            cx@ == Map::<Seq<char>, nat>::empty(),
    {
        let cx = Self { external_nodes: StringHashMap::new() };
        assert(cx@ =~= Map::<Seq<char>, nat>::empty());
        cx
    }

    /// Hands out the label of a new node under `node_prefix` and counts the
    /// request. A counter that has reached `usize::MAX` cannot count on.
    pub fn external_node_label(&mut self, node_prefix: String) -> (label: String)
        requires
            count_of(old(self)@, node_prefix@) < usize::MAX,
        ensures
            label@ == label_text(node_prefix@, count_of(old(self)@, node_prefix@)),
            final(self)@ == bump(old(self)@, node_prefix@),
    {
        let count: usize = match self.external_nodes.get(node_prefix.as_str()) {
            Some(n) => *n,
            None => 0,
        };
        let mut label = node_prefix.clone();
        label.append("(");
        push_decimal(&mut label, count as u64);
        label.append(")");
        self.external_nodes.insert(node_prefix, count + 1);
        assert(self@ =~= bump(old(self)@, node_prefix@));
        label
    }
}

/// A label tells which prefix and which occurrence it was made for: two
/// labels are equal only if both agree.
pub proof fn lemma_label_injective(p: Seq<char>, m: nat, q: Seq<char>, n: nat)
    requires
        label_text(p, m) == label_text(q, n),
    ensures
        p == q,
        m == n,
{
    reveal_strlit("(");
    reveal_strlit(")");
    let dp = decimal(m);
    let dq = decimal(n);
    let lp = label_text(p, m);
    let lq = label_text(q, n);
    lemma_decimal_is_digits(m);
    lemma_decimal_is_digits(n);
    assert(lp.len() == p.len() + dp.len() + 2);
    assert(lq.len() == q.len() + dq.len() + 2);
    assert(lp[p.len() as int] == '(');
    assert(lq[q.len() as int] == '(');
    // Where the prefixes differ in length, the bracket that closes the
    // longer one would have to be a digit of the other label's numeral.
    if p.len() > q.len() {
        let k = p.len() - q.len() - 1;
        assert(lq[p.len() as int] == dq[k]);
        assert(is_digit(dq[k]));
        assert(false);
    }
    if q.len() > p.len() {
        let k = q.len() - p.len() - 1;
        assert(lp[q.len() as int] == dp[k]);
        assert(is_digit(dp[k]));
        assert(false);
    }
    assert forall|i: int| 0 <= i < p.len() implies p[i] == q[i] by {
        assert(lp[i] == p[i]);
        assert(lq[i] == q[i]);
    }
    assert(p =~= q);
    assert forall|i: int| 0 <= i < dp.len() implies dp[i] == dq[i] by {
        assert(lp[p.len() + 1 + i] == dp[i]);
        assert(lq[q.len() + 1 + i] == dq[i]);
    }
    assert(dp =~= dq);
    lemma_decimal_injective(m, n);
}

/// A label is never the decimal numeral of a number: a synthetic node
/// cannot be taken for a block.
pub proof fn lemma_label_is_no_numeral(prefix: Seq<char>, n: nat, m: nat)
    ensures
        label_text(prefix, n) != decimal(m),
{
    reveal_strlit(")");
    let label = label_text(prefix, n);
    lemma_decimal_is_digits(m);
    if label == decimal(m) {
        assert(label.last() == ')');
        assert(is_digit(decimal(m)[decimal(m).len() - 1]));
        assert(false);
    }
}

/// A prefix's count is the number of requests made for it: requests for
/// other prefixes leave it alone.
pub proof fn lemma_count_is_occurrences(prefixes: Seq<Seq<char>>, prefix: Seq<char>)
    ensures
        count_of(counts_after(prefixes), prefix) == occurrences(prefixes, prefix),
    decreases prefixes.len(),
{
    if prefixes.len() > 0 {
        lemma_count_is_occurrences(prefixes.drop_last(), prefix);
        lemma_count_is_occurrences(prefixes.drop_last(), prefixes.last());
    }
}

/// The label of a request holds the number of earlier requests for the
/// same prefix, whatever else was requested in between.
pub proof fn lemma_label_counts_earlier_requests(prefixes: Seq<Seq<char>>, k: int)
    requires
        0 <= k < prefixes.len(),
    ensures
        label_at(prefixes, k) == label_text(
            prefixes[k],
            occurrences(prefixes.take(k), prefixes[k]),
        ),
{
    lemma_count_is_occurrences(prefixes.take(k), prefixes[k]);
}

/// Later requests only add to the number of occurrences of a prefix.
proof fn lemma_occurrences_grow(prefixes: Seq<Seq<char>>, prefix: Seq<char>, a: int, b: int)
    requires
        0 <= a <= b <= prefixes.len(),
    ensures
        occurrences(prefixes.take(a), prefix) <= occurrences(prefixes.take(b), prefix),
    decreases b - a,
{
    if a < b {
        lemma_occurrences_grow(prefixes, prefix, a, b - 1);
        assert(prefixes.take(b).drop_last() =~= prefixes.take(b - 1));
    }
}

/// Requesting one prefix `n` times on a fresh registry yields its
/// occurrences 0, 1, .., `n - 1`, in this order.
pub proof fn lemma_same_prefix_labels(prefix: Seq<char>, n: nat, k: int)
    requires
        0 <= k < n,
    ensures
        label_at(Seq::new(n, |i: int| prefix), k) == label_text(prefix, k as nat),
{
    let prefixes = Seq::new(n, |i: int| prefix);
    lemma_count_is_occurrences(prefixes.take(k), prefix);
    lemma_occurrences_of_repeated(prefixes, prefix, k);
}

/// Among requests that are all for `prefix`, the first `k` hold it `k` times.
proof fn lemma_occurrences_of_repeated(prefixes: Seq<Seq<char>>, prefix: Seq<char>, k: int)
    requires
        0 <= k <= prefixes.len(),
        forall|i: int| 0 <= i < prefixes.len() ==> prefixes[i] == prefix,
    ensures
        occurrences(prefixes.take(k), prefix) == k,
    decreases k,
{
    if k > 0 {
        lemma_occurrences_of_repeated(prefixes, prefix, k - 1);
        assert(prefixes.take(k).drop_last() =~= prefixes.take(k - 1));
        assert(prefixes.take(k).last() == prefixes[k - 1]);
    }
}

/// No two requests of a pass are answered with the same label, whatever
/// prefixes they name.
pub proof fn lemma_labels_never_repeat(prefixes: Seq<Seq<char>>, i: int, j: int)
    requires
        0 <= i < j < prefixes.len(),
    ensures
        label_at(prefixes, i) != label_at(prefixes, j),
{
    let ci = count_of(counts_after(prefixes.take(i)), prefixes[i]);
    let cj = count_of(counts_after(prefixes.take(j)), prefixes[j]);
    if label_at(prefixes, i) == label_at(prefixes, j) {
        lemma_label_injective(prefixes[i], ci, prefixes[j], cj);
        let p = prefixes[i];
        lemma_count_is_occurrences(prefixes.take(i), p);
        lemma_count_is_occurrences(prefixes.take(j), p);
        lemma_occurrences_grow(prefixes, p, i + 1, j);
        assert(prefixes.take(i + 1).drop_last() =~= prefixes.take(i));
        assert(prefixes.take(i + 1).last() == p);
        assert(false);
    }
}

} // verus!

//! Deterministic fault sampling.

use vstd::prelude::*;

use crate::binary64::{draw_scaled, lemma_draws_are_below_one, Binary64};
use crate::config::FaultRule;
use crate::op::FsOp;
use crate::sampler::key::{
    draw_of, fault_words, std_rng_words, uniform, SampleKey, FAULT_STREAM,
};

verus! {

/// Whether a rule of the given rate fires on a random word: the uniform draw
/// lies below the rate.
pub open spec fn fires(word: u64, rate: Binary64) -> bool {
    rate.above(draw_scaled(uniform(word) as int))
}

/// The rules that target `op`, in order.
pub open spec fn matching(rules: Seq<FaultRule>, op: FsOp) -> Seq<FaultRule> {
    rules.filter(|rule: FaultRule| rule.op == op)
}

/// The errno of the first rule, from position `from` on, that fires on its
/// word; word and rule are paired by position.
pub open spec fn first_fired(rules: Seq<FaultRule>, words: Seq<u64>, from: int) -> Option<i32>
    decreases rules.len() - from,
{
    if from >= rules.len() {
        None
    } else if fires(words[from], rules[from].rate) {
        Some(rules[from].errno)
    } else {
        first_fired(rules, words, from + 1)
    }
}

/// Sample whether a fault should be injected.
///
/// Returns the errno of the fault that fires, if one does. The rules that
/// target the key's operation are tried in order, each against a fresh uniform
/// draw; the first that fires wins.
pub fn sample_fault(rules: &[FaultRule], key: SampleKey) -> (fault: Option<i32>)
    ensures
        fault == first_fired(
            matching(rules@, key.op),
            std_rng_words(key.mixed(FAULT_STREAM), rules@.len()),
            0,
        ),
{
    let words = fault_words(key, rules.len());
    pick_fault(rules, key.op, &words)
}

/// The fault that the given random words select: one word is used up for each
/// rule that targets `op`.
pub fn pick_fault(rules: &[FaultRule], op: FsOp, words: &Vec<u64>) -> (fault: Option<i32>)
    requires
        words@.len() >= rules@.len(),
    ensures
        fault == first_fired(matching(rules@, op), words@, 0),
{
    let mut i: usize = 0;
    let mut used: usize = 0;
    proof {
        assert(rules@.take(0) =~= Seq::<FaultRule>::empty());
        reveal(Seq::filter);
    }
    while i < rules.len()
        invariant
            i <= rules@.len(),
            words@.len() >= rules@.len(),
            used <= i,
            used == matching(rules@.take(i as int), op).len(),
            first_fired(matching(rules@, op), words@, 0) == first_fired(
                matching(rules@, op),
                words@,
                used as int,
            ),
        decreases rules@.len() - i,
    {
        proof {
            lemma_matching_prefix(rules@, op, i as int);
        }
        let rule = rules[i];
        if rule.op == op {
            if rule.rate.exceeds_draw(draw_of(words[used])) {
                return Some(rule.errno);
            }
            used = used + 1;
        }
        i = i + 1;
    }
    proof {
        assert(rules@.take(i as int) =~= rules@);
    }
    None
}

/// The matching rules of a prefix are a prefix of the matching rules, and the
/// next rule, if it matches, comes right after them.
proof fn lemma_matching_prefix(rules: Seq<FaultRule>, op: FsOp, i: int)
    requires
        0 <= i < rules.len(),
    ensures
        matching(rules.take(i + 1), op) == (if rules[i].op == op {
            matching(rules.take(i), op).push(rules[i])
        } else {
            matching(rules.take(i), op)
        }),
        rules[i].op == op ==> {
            &&& matching(rules.take(i), op).len() < matching(rules, op).len()
            &&& matching(rules, op)[matching(rules.take(i), op).len() as int] == rules[i]
        },
{
    reveal(Seq::filter);
    let keep = |rule: FaultRule| rule.op == op;
    assert(rules.take(i + 1).drop_last() =~= rules.take(i));
    assert(rules =~= rules.take(i + 1) + rules.skip(i + 1));
    Seq::filter_distributes_over_add(rules.take(i + 1), rules.skip(i + 1), keep);
}

// --- Laws ---

/// A rule for another operation makes no difference, wherever it stands.
pub proof fn other_rules_do_not_matter(
    before: Seq<FaultRule>,
    rule: FaultRule,
    after: Seq<FaultRule>,
    op: FsOp,
)
    requires
        rule.op != op,
    ensures
        matching(before + seq![rule] + after, op) == matching(before + after, op),
{
    reveal(Seq::filter);
    let keep = |r: FaultRule| r.op == op;
    Seq::filter_distributes_over_add(before + seq![rule], after, keep);
    Seq::filter_distributes_over_add(before, seq![rule], keep);
    Seq::filter_distributes_over_add(before, after, keep);
    let one = seq![rule];
    assert(one.drop_last() =~= Seq::<FaultRule>::empty());
    assert(one.drop_last().filter(keep) =~= Seq::<FaultRule>::empty());
    assert(one.last() == rule && !keep(rule));
    assert(one.filter(keep) =~= Seq::<FaultRule>::empty());
    assert(before.filter(keep) + Seq::<FaultRule>::empty() =~= before.filter(keep));
}

/// A rule of rate one fires on every draw.
pub proof fn rate_one_always_fires(word: u64, rate: Binary64)
    requires
        rate.is_ratio(1, 1),
    ensures
        fires(word, rate),
{
    lemma_draws_are_below_one(uniform(word) as int);
}

/// A rule of rate zero never fires.
pub proof fn rate_zero_never_fires(word: u64, rate: Binary64)
    requires
        rate.is_ratio(0, 1),
    ensures
        !fires(word, rate),
{
    lemma_draws_are_below_one(uniform(word) as int);
}

/// A draw on which a rule fires also fires one of a higher rate.
pub proof fn higher_rates_fire_more(word: u64, low: Binary64, high: Binary64)
    requires
        low.finite(),
        high.finite(),
        low.scaled() <= high.scaled(),
        fires(word, low),
    ensures
        fires(word, high),
{
}

/// If the first rule for an operation has rate one, the operation always fails
/// with its errno.
pub proof fn certain_fault_wins(rules: Seq<FaultRule>, op: FsOp, words: Seq<u64>)
    requires
        matching(rules, op).len() > 0,
        matching(rules, op)[0].rate.is_ratio(1, 1),
    ensures
        first_fired(matching(rules, op), words, 0) == Some(matching(rules, op)[0].errno),
{
    rate_one_always_fires(words[0], matching(rules, op)[0].rate);
}

/// Where every rule for an operation has rate zero, it never fails.
pub proof fn no_fault_without_a_rate(rules: Seq<FaultRule>, op: FsOp, words: Seq<u64>)
    requires
        forall|i: int|
            0 <= i < rules.len() && (#[trigger] rules[i]).op == op ==> rules[i].rate.is_ratio(0, 1),
    ensures
        first_fired(matching(rules, op), words, 0) is None,
{
    let kept = matching(rules, op);
    assert forall|i: int| 0 <= i < kept.len() implies (#[trigger] kept[i]).rate.is_ratio(0, 1) by {
        rules.lemma_filter_contains_rev(|rule: FaultRule| rule.op == op, kept[i]);
    }
    lemma_none_fires(kept, words, 0);
}

proof fn lemma_none_fires(rules: Seq<FaultRule>, words: Seq<u64>, from: int)
    requires
        0 <= from,
        forall|i: int| 0 <= i < rules.len() ==> (#[trigger] rules[i]).rate.is_ratio(0, 1),
    ensures
        first_fired(rules, words, from) is None,
    decreases rules.len() - from,
{
    if from < rules.len() {
        rate_zero_never_fires(words[from], rules[from].rate);
        lemma_none_fires(rules, words, from + 1);
    }
}

/// A fault that is injected comes from a rule for the operation.
pub proof fn faults_come_from_matching_rules(rules: Seq<FaultRule>, op: FsOp, words: Seq<u64>)
    ensures
        first_fired(matching(rules, op), words, 0) matches Some(errno) ==> exists|i: int|
            0 <= i < rules.len() && (#[trigger] rules[i]).op == op && rules[i].errno == errno,
{
    let kept = matching(rules, op);
    if let Some(errno) = first_fired(kept, words, 0) {
        let j = lemma_fired_rule(kept, words, 0);
        rules.lemma_filter_contains_rev(|rule: FaultRule| rule.op == op, kept[j]);
    }
}

proof fn lemma_fired_rule(rules: Seq<FaultRule>, words: Seq<u64>, from: int) -> (j: int)
    requires
        0 <= from,
        first_fired(rules, words, from) is Some,
    ensures
        from <= j < rules.len(),
        first_fired(rules, words, from) == Some(rules[j].errno),
    decreases rules.len() - from,
{
    if fires(words[from], rules[from].rate) {
        from
    } else {
        lemma_fired_rule(rules, words, from + 1)
    }
}

/// A rule fires on exactly those words whose upper 53 bits, as a fraction of
/// 2^53, lie below its rate: a rate of `numerator` / `denominator` fires on that
/// part of all words.
pub proof fn rules_fire_below_their_rate(
    word: u64,
    rate: Binary64,
    numerator: int,
    denominator: int,
)
    requires
        rate.is_ratio(numerator, denominator),
        denominator > 0,
    ensures
        fires(word, rate) <==> (word / 2048) * denominator < numerator
            * 0x0020_0000_0000_0000,
{
    let k = (word / 2048) as int;
    let p = vstd::arithmetic::power2::pow2(1021) as int;
    vstd::arithmetic::power2::lemma_pow2_pos(1021);
    vstd::arithmetic::power2::lemma_pow2_adds(53, 1021);
    vstd::arithmetic::power2::lemma2_to64_rest();
    let scaled = rate.scaled();
    assert(scaled * denominator == numerator * (0x0020_0000_0000_0000 * p));
    assert(scaled > k * p <==> k * denominator < numerator * 0x0020_0000_0000_0000)
        by (nonlinear_arith)
        requires
            scaled * denominator == numerator * (0x0020_0000_0000_0000 * p),
            denominator > 0,
            p > 0,
    ;
}

/// How many of the first `n` rules are for `op`.
pub open spec fn rules_before(rules: Seq<FaultRule>, op: FsOp, n: int) -> int
    decreases n,
{
    if n <= 0 {
        0
    } else {
        rules_before(rules, op, n - 1) + if rules[n - 1].op == op {
            1int
        } else {
            0int
        }
    }
}

/// Whether the rule at position `i` is for `op` and fires: each rule for `op` has
/// a word of its own, in order.
pub open spec fn rule_fires(rules: Seq<FaultRule>, op: FsOp, words: Seq<u64>, i: int) -> bool {
    rules[i].op == op && fires(words[rules_before(rules, op, i)], rules[i].rate)
}

/// The first rule for the operation that fires on its word gives the fault, and
/// there is a fault only if one fires.
pub proof fn the_first_rule_that_fires_wins(
    rules: Seq<FaultRule>,
    op: FsOp,
    words: Seq<u64>,
    i: int,
)
    requires
        0 <= i <= rules.len(),
        forall|j: int| 0 <= j < i ==> !#[trigger] rule_fires(rules, op, words, j),
    ensures
        i < rules.len() && rule_fires(rules, op, words, i) ==> first_fired(
            matching(rules, op),
            words,
            0,
        ) == Some(rules[i].errno),
        i == rules.len() ==> first_fired(matching(rules, op), words, 0) is None,
{
    lemma_none_before(rules, op, words, i);
    if i < rules.len() {
        lemma_matching_prefix(rules, op, i);
    } else {
        assert(rules.take(i) =~= rules);
    }
}

proof fn lemma_none_before(rules: Seq<FaultRule>, op: FsOp, words: Seq<u64>, i: int)
    requires
        0 <= i <= rules.len(),
        forall|j: int| 0 <= j < i ==> !#[trigger] rule_fires(rules, op, words, j),
    ensures
        matching(rules.take(i), op).len() == rules_before(rules, op, i),
        first_fired(matching(rules, op), words, 0) == first_fired(
            matching(rules, op),
            words,
            rules_before(rules, op, i),
        ),
    decreases i,
{
    reveal(Seq::filter);
    if i > 0 {
        lemma_none_before(rules, op, words, i - 1);
        lemma_matching_prefix(rules, op, i - 1);
        assert(!rule_fires(rules, op, words, i - 1));
    } else {
        assert(rules.take(0) =~= Seq::<FaultRule>::empty());
    }
}

} // verus!

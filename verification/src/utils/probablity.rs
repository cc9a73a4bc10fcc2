//! Decisions taken with a given probability, and biased and weighted
//! choice among the items of a sequence.

use vstd::prelude::*;
use super::random::{index_of, xorshift, Random};

verus! {

/// The probability, in tenths, that a word stands for: one of `0` to `10`.
pub open spec fn tenths_of(word: u64) -> nat {
    (word % 11) as nat
}

/// A decision taken with the probability `num / den`, and the state of the
/// generator after it. Where the probability is one, the decision is taken
/// without a draw. Otherwise a probability is drawn, in tenths, and the
/// decision is that it lies below `num / den`.
pub open spec fn ratio_accept(s: u64, num: nat, den: nat) -> (bool, u64) {
    if num == den && den != 0 {
        (true, s)
    } else {
        let word = xorshift(s);
        (tenths_of(word) * den < 10 * num, word)
    }
}

/// `b` to the power `e`.
pub open spec fn power(b: nat, e: nat) -> nat
    decreases e,
{
    if e == 0 {
        1
    } else {
        b * power(b, (e - 1) as nat)
    }
}

/// The weight of the item at `i` among `len` items, for the factor
/// `num / den`: the factor to the power `i`, scaled by `den` to the power
/// `len - 1` so that every weight is a whole number.
pub open spec fn biased_weight(num: nat, den: nat, len: nat, i: nat) -> nat {
    power(num, i) * power(den, (len - 1 - i) as nat)
}

/// The sum of the weights of the first `n` items.
pub open spec fn biased_sum(num: nat, den: nat, len: nat, n: nat) -> nat
    decreases n,
{
    if n == 0 {
        0
    } else {
        biased_sum(num, den, len, (n - 1) as nat) + biased_weight(num, den, len, (n - 1) as nat)
    }
}

/// The index chosen among the first `n` of `len` items, and the state of
/// the generator after the choice. The items are tried from the last down;
/// each is accepted with the probability that its weight has in the sum of
/// the weights up to it.
pub open spec fn biased_pick(s: u64, num: nat, den: nat, len: nat, n: nat) -> (int, u64)
    decreases n,
{
    if n == 0 {
        (0, s)
    } else {
        let (accept, next) = ratio_accept(
            s,
            biased_weight(num, den, len, (n - 1) as nat),
            biased_sum(num, den, len, n),
        );
        if accept {
            (n - 1, next)
        } else {
            biased_pick(next, num, den, len, (n - 1) as nat)
        }
    }
}

/// A biased choice among the first `n` items is one of them.
pub proof fn lemma_biased_pick_range(s: u64, num: nat, den: nat, len: nat, n: nat)
    ensures
        0 <= biased_pick(s, num, den, len, n).0,
        n > 0 ==> biased_pick(s, num, den, len, n).0 < n,
    decreases n,
{
    if n > 0 {
        let (accept, next) = ratio_accept(
            s,
            biased_weight(num, den, len, (n - 1) as nat),
            biased_sum(num, den, len, n),
        );
        lemma_biased_pick_range(next, num, den, len, (n - 1) as nat);
    }
}

/// The sum of the weights from the index `from` on.
pub open spec fn weight_sum(weights: Seq<u16>, from: int) -> nat
    decreases weights.len() - from,
{
    if from < 0 || from >= weights.len() {
        0
    } else {
        weights[from] as nat + weight_sum(weights, from + 1)
    }
}

/// The index chosen among the items from `i` on, and the state of the
/// generator after the choice. The items are tried in order; each is
/// accepted with the probability that its weight has in the sum of the
/// weights from it on. If none is accepted, which happens only where every
/// weight is zero, an index is drawn with equal probability for each.
pub open spec fn weighted_pick(s: u64, weights: Seq<u16>, i: int) -> (int, u64)
    decreases weights.len() - i,
{
    if i < 0 || i >= weights.len() {
        let word = xorshift(s);
        (index_of(word, weights.len() as usize) as int, word)
    } else {
        let (accept, next) = ratio_accept(s, weights[i] as nat, weight_sum(weights, i));
        if accept {
            (i, next)
        } else {
            weighted_pick(next, weights, i + 1)
        }
    }
}

/// The weights of a sequence of pairs of an item and its weight.
pub open spec fn weights_of<T>(d: Seq<(T, u16)>) -> Seq<u16> {
    d.map_values(|p: (T, u16)| p.1)
}

/// A weighted choice is one of the items.
pub proof fn lemma_weighted_pick_range(s: u64, weights: Seq<u16>, i: int)
    requires
        0 <= i,
        weights.len() > 0,
    ensures
        0 <= weighted_pick(s, weights, i).0 < weights.len(),
    decreases weights.len() - i,
{
    if i < weights.len() {
        let (accept, next) = ratio_accept(s, weights[i] as nat, weight_sum(weights, i));
        if !accept {
            lemma_weighted_pick_range(next, weights, i + 1);
        }
    }
}

/// The largest factor, above and below the line, that a biased choice
/// takes.
pub const MAX_FACTOR: u8 = 16;

/// The largest number of items that a biased choice takes. Every weight
/// then fits in 128 bits.
pub const MAX_BIASED_LEN: usize = 30;

proof fn lemma_power_bound(b: nat, e: nat)
    requires
        b <= 16,
        e <= 29,
    ensures
        power(b, e) <= power(16, e),
        power(16, e) <= 0x1_0000_0000_0000_0000_0000_0000_0000_0,
        power(16, e) >= 1,
    decreases e,
{
    if e > 0 {
        lemma_power_bound(b, (e - 1) as nat);
        let p = power(b, (e - 1) as nat);
        let q = power(16, (e - 1) as nat);
        assert(b * p <= 16 * q) by (nonlinear_arith)
            requires
                b <= 16,
                p <= q,
        ;
    }
    assert(power(16, 29) == 0x1_0000_0000_0000_0000_0000_0000_0000_0) by {
        reveal_with_fuel(power, 30);
    }
    lemma_power16_monotone(e, 29);
}

proof fn lemma_power16_monotone(a: nat, b: nat)
    requires
        a <= b,
    ensures
        1 <= power(16, a) <= power(16, b),
    decreases b,
{
    if a < b {
        lemma_power16_monotone(a, (b - 1) as nat);
    } else if a > 0 {
        lemma_power16_monotone((a - 1) as nat, (a - 1) as nat);
    }
}

proof fn lemma_power16_add(a: nat, b: nat)
    ensures
        power(16, a) * power(16, b) == power(16, a + b),
    decreases a,
{
    if a > 0 {
        lemma_power16_add((a - 1) as nat, b);
        let p = power(16, (a - 1) as nat);
        let q = power(16, b);
        assert((16 * p) * q == 16 * (p * q)) by (nonlinear_arith);
    } else {
        assert(power(16, 0) == 1);
        assert(1 * power(16, b) == power(16, b));
    }
}

/// Every weight of a biased choice among at most thirty items, with a
/// factor of at most sixteen over at most sixteen, is below two to the
/// power 116.
proof fn lemma_weight_bound(num: nat, den: nat, len: nat, i: nat)
    requires
        num <= 16,
        den <= 16,
        i < len <= 30,
    ensures
        biased_weight(num, den, len, i) <= 0x1_0000_0000_0000_0000_0000_0000_0000_0,
{
    let j = (len - 1 - i) as nat;
    lemma_power_bound(num, i);
    lemma_power_bound(den, j);
    lemma_power16_add(i, j);
    lemma_power_bound(16, i + j);
    let a = power(num, i);
    let b = power(den, j);
    let c = power(16, i);
    let d = power(16, j);
    assert(a * b <= c * d) by (nonlinear_arith)
        requires
            a <= c,
            b <= d,
    ;
}

proof fn lemma_sum_bound(num: nat, den: nat, len: nat, k: nat)
    requires
        num <= 16,
        den <= 16,
        k <= len <= 30,
    ensures
        biased_sum(num, den, len, k) <= k * 0x1_0000_0000_0000_0000_0000_0000_0000_0,
    decreases k,
{
    if k > 0 {
        lemma_sum_bound(num, den, len, (k - 1) as nat);
        lemma_weight_bound(num, den, len, (k - 1) as nat);
    }
}

proof fn lemma_weight_sum_bound(weights: Seq<u16>, from: int)
    requires
        0 <= from <= weights.len(),
    ensures
        weight_sum(weights, from) <= (weights.len() - from) * 0xffff,
    decreases weights.len() - from,
{
    if from < weights.len() {
        lemma_weight_sum_bound(weights, from + 1);
    }
}

/// Decisions taken with a given probability.
pub struct Probablity(pub Random);

impl Probablity {
    /// Decisions that draw from `rng`.
    pub fn new(rng: Random) -> (r: Probablity)
        ensures
            r.0 == rng,
    {
        Probablity(rng)
    }

    /// A random probability in tenths: one of `0` to `10`.
    pub fn prob(&mut self) -> (r: u8)
        ensures
            r == tenths_of(xorshift(old(self).0.0)),
            r <= 10,
            final(self).0.0 == xorshift(old(self).0.0),
    {
        let k = self.0.rand_in_range(0, 11);
        k as u8
    }

    /// Decides with the probability `num / den`.
    pub fn probablity_ratio(&mut self, num: u128, den: u128) -> (r: bool)
        requires
            10 * num <= u128::MAX,
            10 * den <= u128::MAX,
        ensures
            (r, final(self).0.0) == ratio_accept(old(self).0.0, num as nat, den as nat),
    {
        if num == den && den != 0 {
            return true;
        }
        let k = self.prob() as u128;
        assert(k * den <= 10 * den) by (nonlinear_arith)
            requires
                k <= 10,
        ;
        k * den < 10 * num
    }

    /// Decides with a probability given in tenths: true with certainty, and
    /// without a draw, for ten tenths; otherwise true when a probability
    /// drawn at random lies below the given one.
    pub fn probablity(&mut self, tenths: u8) -> (r: bool)
        ensures
            (r, final(self).0.0) == ratio_accept(old(self).0.0, tenths as nat, 10),
            tenths == 10 ==> r && final(self).0.0 == old(self).0.0,
            tenths != 10 ==> r == (tenths_of(xorshift(old(self).0.0)) < tenths) && final(self).0.0
                == xorshift(old(self).0.0),
    {
        self.probablity_ratio(tenths as u128, 10)
    }

    /// Calls `true_func` with the probability given in tenths, and
    /// otherwise `false_func` if there is one.
    pub fn with_probablity<F: FnOnce(), G: FnOnce()>(
        &mut self,
        tenths: u8,
        true_func: F,
        false_func: Option<G>,
    )
        requires
            call_requires(true_func, ()),
            false_func matches Some(g) ==> call_requires(g, ()),
        ensures
            final(self).0.0 == ratio_accept(old(self).0.0, tenths as nat, 10).1,
            ratio_accept(old(self).0.0, tenths as nat, 10).0 ==> call_ensures(true_func, (), ()),
            !ratio_accept(old(self).0.0, tenths as nat, 10).0 ==> (false_func matches Some(g)
                ==> call_ensures(g, (), ())),
    {
        if self.probablity(tenths) {
            true_func();
        } else if let Some(false_func) = false_func {
            false_func();
        }
    }

    /// Calls one of the functions, each with equal probability.
    pub fn with_equal_probablity<F: Fn()>(&mut self, funcs: &[F])
        requires
            funcs@.len() > 0,
            forall|i: int| 0 <= i < funcs@.len() ==> call_requires(#[trigger] funcs@[i], ()),
        ensures
            final(self).0.0 == xorshift(old(self).0.0),
            call_ensures(
                funcs@[(xorshift(old(self).0.0) % (funcs@.len() as u64)) as int],
                (),
                (),
            ),
    {
        let idx = (self.0.rand() % (funcs.len() as u64)) as usize;
        (funcs[idx])();
    }

    /// An element of `array`, the later ones preferred: the weight of each
    /// element is that of the one before it times `num / den`.
    pub fn choose_biased<'a, U>(&mut self, array: &'a [U], num: u8, den: u8) -> (r: &'a U)
        requires
            0 < array@.len() <= MAX_BIASED_LEN,
            num <= MAX_FACTOR,
            0 < den <= MAX_FACTOR,
        ensures
            *r == array@[biased_pick(
                old(self).0.0,
                num as nat,
                den as nat,
                array@.len(),
                array@.len(),
            ).0],
            final(self).0.0 == biased_pick(
                old(self).0.0,
                num as nat,
                den as nat,
                array@.len(),
                array@.len(),
            ).1,
    {
        let len = array.len();
        let ghost n = num as nat;
        let ghost d = den as nat;
        let ghost l = len as nat;
        let mut weights: Vec<u128> = Vec::new();
        let mut total: u128 = 0;
        let mut i: usize = 0;
        while i < len
            invariant
                i <= len,
                len == l,
                0 < l <= 30,
                n == num,
                d == den,
                n <= 16,
                0 < d <= 16,
                weights@.len() == i,
                forall|j: int| 0 <= j < i ==> #[trigger] weights@[j] == biased_weight(n, d, l, j as nat),
                total == biased_sum(n, d, l, i as nat),
                total <= i * 0x1_0000_0000_0000_0000_0000_0000_0000_0,
                self.0.0 == old(self).0.0,
            decreases len - i,
        {
            let a = Self::small_power(num, i);
            let b = Self::small_power(den, len - 1 - i);
            proof {
                lemma_weight_bound(n, d, l, i as nat);
            }
            let w = a * b;
            weights.push(w);
            total = total + w;
            i = i + 1;
        }
        let ghost start = self.0.0;
        let mut k: usize = len;
        while k > 0
            invariant
                k <= len,
                len == l,
                0 < l <= 30,
                n <= 16,
                0 < d <= 16,
                len == array@.len(),
                weights@.len() == len,
                forall|j: int| 0 <= j < len ==> #[trigger] weights@[j] == biased_weight(n, d, l, j as nat),
                total == biased_sum(n, d, l, k as nat),
                start == old(self).0.0,
                n == num,
                d == den,
                biased_pick(self.0.0, n, d, l, k as nat) == biased_pick(start, n, d, l, l),
            decreases k,
        {
            let w = weights[k - 1];
            let ghost before = self.0.0;
            proof {
                lemma_weight_bound(n, d, l, (k - 1) as nat);
                lemma_sum_bound(n, d, l, k as nat);
            }
            let accept = self.probablity_ratio(w, total);
            assert(biased_pick(before, n, d, l, k as nat) == if accept {
                ((k - 1) as int, self.0.0)
            } else {
                biased_pick(self.0.0, n, d, l, (k - 1) as nat)
            });
            if accept {
                return &array[k - 1];
            }
            total = total - w;
            k = k - 1;
        }
        &array[0]
    }

    fn small_power(b: u8, e: usize) -> (r: u128)
        requires
            b <= 16,
            e <= 29,
        ensures
            r == power(b as nat, e as nat),
    {
        let mut r: u128 = 1;
        let mut i: usize = 0;
        while i < e
            invariant
                i <= e <= 29,
                b <= 16,
                r == power(b as nat, i as nat),
            decreases e - i,
        {
            proof {
                lemma_power_bound(b as nat, i as nat);
                lemma_power_bound(16, i as nat);
                assert(r * b == b * r) by (nonlinear_arith);
                assert(r * b <= 0x1_0000_0000_0000_0000_0000_0000_0000_0 * 16) by (nonlinear_arith)
                    requires
                        r <= 0x1_0000_0000_0000_0000_0000_0000_0000_0,
                        b <= 16,
                ;
            }
            r = r * (b as u128);
            i = i + 1;
        }
        r
    }

    /// The first part of one of the pairs in `d`, chosen by the weights in
    /// their second parts.
    pub fn choose_weighted_baised<'a, T>(&mut self, d: &'a [(T, u16)]) -> (r: &'a T)
        requires
            d@.len() > 0,
        ensures
            *r == d@[weighted_pick(old(self).0.0, weights_of(d@), 0).0].0,
            final(self).0.0 == weighted_pick(old(self).0.0, weights_of(d@), 0).1,
            0 <= weighted_pick(old(self).0.0, weights_of(d@), 0).0 < d@.len(),
    {
        let ghost weights = weights_of(d@);
        proof {
            lemma_weighted_pick_range(self.0.0, weights, 0);
        }
        let len = d.len();
        let mut total: u128 = 0;
        let mut i: usize = len;
        while i > 0
            invariant
                i <= len,
                len == d@.len(),
                weights == weights_of(d@),
                total == weight_sum(weights, i as int),
                total <= (len - i) * 0xffff,
            decreases i,
        {
            i = i - 1;
            total = total + d[i].1 as u128;
        }
        let mut k: usize = 0;
        while k < len
            invariant
                k <= len,
                len == d@.len(),
                len > 0,
                weights == weights_of(d@),
                total == weight_sum(weights, k as int),
                weighted_pick(self.0.0, weights, k as int) == weighted_pick(
                    old(self).0.0,
                    weights,
                    0,
                ),
            decreases len - k,
        {
            let w = d[k].1 as u128;
            let ghost before = self.0.0;
            proof {
                lemma_weight_sum_bound(weights, k as int);
            }
            let accept = self.probablity_ratio(w, total);
            assert(weighted_pick(before, weights, k as int) == if accept {
                (k as int, self.0.0)
            } else {
                weighted_pick(self.0.0, weights, k + 1)
            });
            if accept {
                return &d[k].0;
            }
            total = total - w;
            k = k + 1;
        }
        let idx = self.0.rand_idx(len);
        &d[idx].0
    }
}

} // verus!

//! A xorshift random number generator.

use vstd::prelude::*;
use vstd::string::*;
use super::float::FloatLiteral;
use super::text::push_char;

verus! {

/// One step of the generator: the state is mixed with itself shifted left
/// by 13, right by 17 and left by 43.
pub open spec fn xorshift(s: u64) -> u64 {
    let a = s ^ (s << 13);
    let b = a ^ (a >> 17);
    b ^ (b << 43)
}

/// The state of the generator after `n` steps.
pub open spec fn xorshift_n(s: u64, n: nat) -> u64
    decreases n,
{
    if n == 0 {
        s
    } else {
        xorshift(xorshift_n(s, (n - 1) as nat))
    }
}

/// The index that a word selects in a sequence of `len` items.
pub open spec fn index_of(word: u64, len: usize) -> usize {
    if len == 0 {
        0
    } else {
        ((word as usize) % len) as usize
    }
}

/// The number that a word selects between `min` and `max`: `min` plus the
/// word taken modulo the width of the range, in wrapping arithmetic.
pub open spec fn in_range(word: u64, min: isize, max: isize) -> isize {
    min.wrapping_add((word % (max.wrapping_sub(min) as u64)) as isize)
}

/// The characters that random strings are made of.
pub open spec fn printable() -> Seq<char> {
    "ABCDEFGHIJKLMNOPQRSTUVWXYZabcdefghijklmnopqrstyvwxyz1234567890~!@#$%^&*()_+[];'./,{}:<>?`-="@
}

/// The number of characters that random strings are made of.
pub const PRINTABLE_LEN: usize = 91;

/// The string of `n` characters drawn with the successive words that
/// follow the state `s`.
pub open spec fn random_chars(s: u64, n: nat) -> Seq<char>
    decreases n,
{
    if n == 0 {
        Seq::empty()
    } else {
        random_chars(s, (n - 1) as nat).push(
            printable()[(xorshift_n(s, n) % (PRINTABLE_LEN as u64)) as int],
        )
    }
}

/// The numbers from `0` up to but not including `n`, in order.
pub open spec fn indices(n: nat) -> Seq<usize> {
    Seq::new(n, |i: int| i as usize)
}

/// The items drawn from `pool` in `n` draws without replacement: each draw
/// takes the item at a random index out of the pool. There are no more
/// draws than the pool has items.
pub open spec fn sample(s: u64, pool: Seq<usize>, n: nat) -> Seq<usize>
    decreases n,
{
    if n == 0 || pool.len() == 0 {
        Seq::empty()
    } else {
        let word = xorshift(s);
        let j = index_of(word, pool.len() as usize) as int;
        seq![pool[j]] + sample(word, pool.remove(j), (n - 1) as nat)
    }
}

/// The state of the generator after `n` draws without replacement from a
/// pool of `len` items.
pub open spec fn sample_state(s: u64, len: nat, n: nat) -> u64 {
    xorshift_n(s, if n <= len {
        n
    } else {
        len
    })
}

/// The largest value of a 32-bit signed integer, by which floating-point
/// numbers are scaled.
pub const FLOAT_SCALE: u64 = 0x7fff_ffff;

/// A xorshift generator of 64-bit words.
pub struct Random(pub u64);

impl Random {
    /// A generator that starts from `seed`, or from `timestamp` where the
    /// seed is zero.
    pub fn new(seed: u64, timestamp: u64) -> (r: Random)
        ensures
            r.0 == if seed == 0 {
                timestamp
            } else {
                seed
            },
    {
        if seed == 0 {
            Random(timestamp)
        } else {
            Random(seed)
        }
    }

    /// The next word; it becomes the generator's state.
    pub fn rand(&mut self) -> (r: u64)
        ensures
            r == xorshift(old(self).0),
            final(self).0 == r,
    {
        self.0 = self.0 ^ (self.0 << 13);
        self.0 = self.0 ^ (self.0 >> 17);
        self.0 = self.0 ^ (self.0 << 43);
        self.0
    }

    /// The low 8 bits of the next word.
    pub fn _rand8(&mut self) -> (r: u8)
        ensures
            r == xorshift(old(self).0) as u8,
            final(self).0 == xorshift(old(self).0),
    {
        #[verifier::truncate]
        (self.rand() as u8)
    }

    /// The low 32 bits of the next word.
    pub fn _rand32(&mut self) -> (r: u32)
        ensures
            r == xorshift(old(self).0) as u32,
            final(self).0 == xorshift(old(self).0),
    {
        #[verifier::truncate]
        (self.rand() as u32)
    }

    /// The next word.
    pub fn _rand64(&mut self) -> (r: u64)
        ensures
            r == xorshift(old(self).0),
            final(self).0 == r,
    {
        self.rand()
    }

    /// An index into a sequence of `len` items: the next word modulo `len`,
    /// or zero for an empty sequence, for which no word is drawn.
    pub fn rand_idx(&mut self, len: usize) -> (r: usize)
        ensures
            r == index_of(xorshift(old(self).0), len),
            len > 0 ==> r < len && final(self).0 == xorshift(old(self).0),
            len == 0 ==> r == 0 && final(self).0 == old(self).0,
    {
        if len == 0 {
            return 0;
        }
        let word = self.rand();
        (#[verifier::truncate]
        (word as usize)) % len
    }

    /// A number in the range from `min` up to but not including `max`. For
    /// an empty range the result is `min` and no word is drawn.
    pub fn rand_in_range(&mut self, min: isize, max: isize) -> (r: isize)
        ensures
            min == max ==> r == min && final(self).0 == old(self).0,
            min != max ==> r == in_range(xorshift(old(self).0), min, max) && final(self).0
                == xorshift(old(self).0),
            0 < max - min <= isize::MAX ==> min <= r < max && r == min + xorshift(old(self).0) % ((
            max - min) as u64),
    {
        if min == max {
            return min;
        }
        let width: u64 = #[verifier::truncate]
        (max.wrapping_sub(min) as u64);
        assert(width != 0) by {
            let d = max.wrapping_sub(min);
            assert(d != 0);
            assert(d as u64 != 0) by (bit_vector)
                requires
                    d != 0,
            ;
        }
        let word = self.rand();
        min.wrapping_add(#[verifier::truncate]
        ((word % width) as isize))
    }

    /// The element of `array` at a random index.
    pub fn random_element<'a, U>(&mut self, array: &'a [U]) -> (r: &'a U)
        requires
            0 < array@.len(),
        ensures
            *r == array@[(xorshift(old(self).0) % (array@.len() as u64)) as int],
            final(self).0 == xorshift(old(self).0),
    {
        let len = array.len();
        let idx = (self.rand() % (len as u64)) as usize;
        &array[idx]
    }

    /// References to `n` elements of `array` at random indices, no index
    /// taken twice, or to all of them in a random order where `array` has
    /// fewer than `n`.
    pub fn get_n_random_elements<'a, U>(&mut self, array: &'a [U], n: usize) -> (r: Vec<&'a U>)
        ensures
            r@.len() == sample(old(self).0, indices(array@.len()), n as nat).len(),
            r@.len() == if n <= array@.len() {
                n
            } else {
                array@.len() as usize
            },
            forall|i: int|
                0 <= i < r@.len() ==> *#[trigger] r@[i] == array@[sample(
                    old(self).0,
                    indices(array@.len()),
                    n as nat,
                )[i] as int],
            final(self).0 == sample_state(old(self).0, array@.len(), n as nat),
            forall|i: int|
                0 <= i < r@.len() ==> #[trigger] sample(
                    old(self).0,
                    indices(array@.len()),
                    n as nat,
                )[i] < array@.len(),
    {
        let len = array.len();
        let mut pool: Vec<usize> = Vec::new();
        let mut k: usize = 0;
        while k < len
            invariant
                k <= len,
                pool@ == indices(k as nat),
            decreases len - k,
        {
            pool.push(k);
            assert(pool@ =~= indices((k + 1) as nat));
            k = k + 1;
        }
        let ghost all = sample(self.0, indices(len as nat), n as nat);
        let mut out: Vec<&'a U> = Vec::new();
        let mut i: usize = 0;
        while i < n && pool.len() > 0
            invariant
                i <= n,
                len == array@.len(),
                i + pool@.len() == len,
                out@.len() == i,
                self.0 == xorshift_n(old(self).0, i as nat),
                forall|j: int| 0 <= j < pool@.len() ==> #[trigger] pool@[j] < len,
                all.len() == i + sample(self.0, pool@, (n - i) as nat).len(),
                forall|j: int| 0 <= j < i ==> *#[trigger] out@[j] == array@[all[j] as int],
                forall|j: int| 0 <= j < i ==> #[trigger] all[j] < len,
                all == sample(old(self).0, indices(array@.len()), n as nat),
                all.subrange(i as int, all.len() as int) == sample(self.0, pool@, (n - i) as nat),
            decreases pool@.len(),
        {
            let ghost rest = sample(self.0, pool@, (n - i) as nat);
            let j = self.rand_idx(pool.len());
            let idx = pool.remove(j);
            assert(rest[0] == idx);
            assert(all[i as int] == all.subrange(i as int, all.len() as int)[0]);
            out.push(&array[idx]);
            assert(all.subrange(i + 1, all.len() as int) =~= rest.subrange(1, rest.len() as int));
            assert(rest.subrange(1, rest.len() as int) =~= sample(
                self.0,
                pool@,
                (n - i - 1) as nat,
            ));
            i = i + 1;
        }
        assert(sample(self.0, pool@, (n - i) as nat).len() == 0);
        out
    }

    /// A floating-point number: a random 32-bit signed integer scaled by
    /// `max` over the largest 32-bit signed integer.
    pub fn float_in_range(&mut self, _min: isize, max: isize) -> (r: FloatLiteral)
        ensures
            r.wf(),
            r.denom == FLOAT_SCALE,
            r.numer == in_range(xorshift(old(self).0), -0x8000_0000isize, 0x7fff_ffffisize) * max,
            isize::MAX > 0xffff_ffff ==> r.numer == (-0x8000_0000 + xorshift(old(self).0)
                % 0xffff_ffff) * max,
            final(self).0 == xorshift(old(self).0),
    {
        let r = self.rand_in_range(-0x8000_0000, 0x7fff_ffff);
        assert(-0x8000_0000_0000_0000 * 0x8000_0000_0000_0000 <= r * max <= 0x8000_0000_0000_0000
            * 0x8000_0000_0000_0000) by (nonlinear_arith)
            requires
                -0x8000_0000_0000_0000 <= r < 0x8000_0000_0000_0000,
                -0x8000_0000_0000_0000 <= max < 0x8000_0000_0000_0000,
        ;
        FloatLiteral { numer: (r as i128) * (max as i128), denom: FLOAT_SCALE }
    }

    /// A string of `len` characters, each drawn from the printable
    /// characters.
    pub fn random_string(&mut self, len: u64) -> (r: String)
        ensures
            r@ == random_chars(old(self).0, len as nat),
            final(self).0 == xorshift_n(old(self).0, len as nat),
    {
        let alphabet = "ABCDEFGHIJKLMNOPQRSTUVWXYZabcdefghijklmnopqrstyvwxyz1234567890~!@#$%^&*()_+[];'./,{}:<>?`-=";
        proof {
            reveal_strlit(
                "ABCDEFGHIJKLMNOPQRSTUVWXYZabcdefghijklmnopqrstyvwxyz1234567890~!@#$%^&*()_+[];'./,{}:<>?`-=",
            );
        }
        assert(alphabet@.len() == PRINTABLE_LEN);
        let mut s = String::new();
        let mut i: u64 = 0;
        while i < len
            invariant
                i <= len,
                alphabet@ == printable(),
                alphabet@.len() == PRINTABLE_LEN,
                s@ == random_chars(old(self).0, i as nat),
                self.0 == xorshift_n(old(self).0, i as nat),
            decreases len - i,
        {
            let k = self.rand_in_range(0, PRINTABLE_LEN as isize);
            push_char(&mut s, alphabet.get_char(k as usize));
            i = i + 1;
        }
        s
    }
}

} // verus!

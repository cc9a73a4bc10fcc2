//! Integers that tend to sit at the edges of what an engine handles.

use vstd::prelude::*;

verus! {

/// The number of interesting integers.
pub const INTERESTING_COUNT: usize = 61;

/// The interesting integers.
pub open spec fn spec_interesting_ints() -> Seq<i64> {
    seq![
        // The edges of the integers that a double holds exactly.
        -9007199254740993i64, 9007199254740992i64, -9007199254740991i64,
        // Around the largest unsigned 32-bit integer, negated.
        -4294967297i64, -4294967296i64, -4294967295i64,
        // Around the smallest signed 32-bit integer.
        -2147483649i64, -2147483648i64, -2147483647i64,
        // Negated powers of two near the 32-bit range.
        -1073741824i64, -536870912i64, -268435456i64,
        // Around two to the power 16, negated.
        -65537i64, -65536i64, -65535i64,
        // Other negated powers of two.
        -4096i64, -1024i64, -256i64, -128i64,
        // Numbers around zero.
        -2i64, -1i64, 0i64, 1i64, 2i64, 3i64, 4i64, 5i64, 6i64, 7i64, 8i64, 9i64, 10i64, 16i64, 64i64, 0i64,
        // Around two to the power 7.
        127i64, 128i64, 129i64,
        // Around two to the power 8.
        255i64, 256i64, 257i64,
        // Other round numbers.
        512i64, 1000i64, 1024i64, 4096i64, 10000i64,
        // Around two to the power 16.
        65535i64, 65536i64, 65537i64,
        // Powers of two near the 32-bit range.
        268435456i64, 536870912i64, 1073741824i64,
        // Around the largest signed 32-bit integer.
        2147483647i64, 2147483648i64, 2147483649i64,
        // Around the largest unsigned 32-bit integer.
        4294967295i64, 4294967296i64, 4294967297i64,
        // The edges of the integers that a double holds exactly.
        9007199254740991i64, 9007199254740992i64, 9007199254740993i64,
    ]
}

/// The interesting integers.
pub fn interesting_ints() -> (r: [i64; 61])
    ensures
        r@ == spec_interesting_ints(),
{
    let r: [i64; 61] = [
        // The edges of the integers that a double holds exactly.
        -9007199254740993, 9007199254740992, -9007199254740991,
        // Around the largest unsigned 32-bit integer, negated.
        -4294967297, -4294967296, -4294967295,
        // Around the smallest signed 32-bit integer.
        -2147483649, -2147483648, -2147483647,
        // Negated powers of two near the 32-bit range.
        -1073741824, -536870912, -268435456,
        // Around two to the power 16, negated.
        -65537, -65536, -65535,
        // Other negated powers of two.
        -4096, -1024, -256, -128,
        // Numbers around zero.
        -2, -1, 0, 1, 2, 3, 4, 5, 6, 7, 8, 9, 10, 16, 64, 0,
        // Around two to the power 7.
        127, 128, 129,
        // Around two to the power 8.
        255, 256, 257,
        // Other round numbers.
        512, 1000, 1024, 4096, 10000,
        // Around two to the power 16.
        65535, 65536, 65537,
        // Powers of two near the 32-bit range.
        268435456, 536870912, 1073741824,
        // Around the largest signed 32-bit integer.
        2147483647, 2147483648, 2147483649,
        // Around the largest unsigned 32-bit integer.
        4294967295, 4294967296, 4294967297,
        // The edges of the integers that a double holds exactly.
        9007199254740991, 9007199254740992, 9007199254740993,
    ];
    assert(r@ =~= spec_interesting_ints());
    r
}

} // verus!

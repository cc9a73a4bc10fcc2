//! The names of the typed arrays and of the properties that programs use.

use vstd::prelude::*;

verus! {

/// The names that stand in for the constructor of a typed array.
pub open spec fn spec_typed_array_names() -> Seq<Seq<char>> {
    seq![
        "Array"@,
        "Int8Array"@,
        "Uint8Array"@,
        "Uint8ClampedArray"@,
        "Int16Array"@,
        "Uint16Array"@,
        "Int32Array"@,
        "Uint32Array"@,
        "Float32Array"@,
        "Float64Array"@,
    ]
}

/// The names that stand in for the constructor of a typed array.
pub fn typed_array_names() -> (r: [&'static str; 10])
    ensures
        r@.map_values(|s: &'static str| s@) == spec_typed_array_names(),
{
    let r = [
        "Array",
        "Int8Array",
        "Uint8Array",
        "Uint8ClampedArray",
        "Int16Array",
        "Uint16Array",
        "Int32Array",
        "Uint32Array",
        "Float32Array",
        "Float64Array",
    ];
    assert(r@.map_values(|s: &'static str| s@) =~= spec_typed_array_names());
    r
}

/// The names of the properties that programs read, write and delete.
pub open spec fn spec_properties() -> Seq<Seq<char>> {
    seq!["a"@, "b"@, "c"@, "d"@, "w"@, "x"@, "y"@, "z"@]
}

/// The names of the properties that programs read, write and delete.
pub fn properties() -> (r: [&'static str; 8])
    ensures
        r@.map_values(|s: &'static str| s@) == spec_properties(),
{
    let r = ["a", "b", "c", "d", "w", "x", "y", "z"];
    assert(r@.map_values(|s: &'static str| s@) =~= spec_properties());
    r
}

} // verus!

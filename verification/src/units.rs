//! Whole-token amounts scaled to the base units the remote service counts.

use vstd::prelude::*;

verus! {

/// How many base units one whole token stands for: the service counts in
/// units of 10^-18, while the forms collect whole tokens.
pub const BASE_UNITS_PER_TOKEN: u128 = 1_000_000_000_000_000_000;

/// A whole-token amount expressed in base units.
pub open spec fn in_base_units(amount: u64) -> int {
    amount * BASE_UNITS_PER_TOKEN
}

/// Scales one whole-token amount to base units. This cannot overflow: the
/// largest 64-bit amount scaled by 10^18 still fits in 128 bits.
pub fn to_base_units(amount: u64) -> (r: u128)
    ensures
        r == in_base_units(amount),
{
    (amount as u128) * BASE_UNITS_PER_TOKEN
}

/// Scales a table of whole-token amounts, entry by entry, to base units,
/// keeping the shape of the table.
pub fn amounts_to_base_units(input: &Vec<Vec<u64>>) -> (r: Vec<Vec<u128>>)
    ensures
        r@.len() == input@.len(),
        forall|i: int| 0 <= i < input@.len() ==> #[trigger] r@[i]@.len() == input@[i]@.len(),
        forall|i: int, j: int|
            0 <= i < input@.len() && 0 <= j < input@[i]@.len() ==> #[trigger] r@[i]@[j]
                == in_base_units(input@[i]@[j]),
{
    let mut out: Vec<Vec<u128>> = Vec::new();
    let n = input.len();
    let mut i: usize = 0;
    while i < n
        invariant
            n == input@.len(),
            0 <= i <= n,
            out@.len() == i,
            forall|k: int| 0 <= k < i ==> #[trigger] out@[k]@.len() == input@[k]@.len(),
            forall|k: int, j: int|
                0 <= k < i && 0 <= j < input@[k]@.len() ==> #[trigger] out@[k]@[j]
                    == in_base_units(input@[k]@[j]),
        decreases n - i,
    {
        let row = &input[i];
        let m = row.len();
        let mut out_row: Vec<u128> = Vec::new();
        let mut j: usize = 0;
        while j < m
            invariant
                m == row@.len(),
                0 <= j <= m,
                out_row@.len() == j,
                forall|t: int| 0 <= t < j ==> #[trigger] out_row@[t] == in_base_units(row@[t]),
            decreases m - j,
        {
            out_row.push(to_base_units(row[j]));
            j += 1;
        }
        out.push(out_row);
        i += 1;
    }
    out
}

} // verus!

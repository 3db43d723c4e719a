//! Vectors as arrays.

use vstd::prelude::*;

verus! {

/// Wraps std's `TryFrom<Vec<T>>` for `[T; N]`, reached through `try_into`.
/// std documents it so: a vector of exactly `N` items comes back as the
/// array of those items, and any other vector comes back itself, as the
/// error.
#[verifier::external_body]
fn try_into_array<T, const N: usize>(v: Vec<T>) -> (converted: Result<[T; N], Vec<T>>)
    ensures
        match converted {
            Ok(array) => v.len() == N && array@ == v@,
            Err(vector) => v.len() != N && vector == v,
        },
{
    v.try_into()
}

/// Converts a vector into an array of length `N`.
///
/// The vector must hold exactly `N` items.
pub fn vec_to_arr_of_n<T, const N: usize>(v: Vec<T>) -> (a: [T; N])
    requires
        v.len() == N,
    ensures
        a@ == v@,
{
    match try_into_array::<T, N>(v) {
        Ok(a) => a,
        Err(_) => unreached(),
    }
}

} // verus!

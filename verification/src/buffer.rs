//! Small helpers for building the byte buffers that back memory regions.

use vstd::prelude::*;

verus! {

/// Allocate a buffer of `n` zero bytes.
pub fn zeroed_bytes(n: usize) -> (r: Vec<u8>)
    ensures
        r@.len() == n,
        forall|i: int| 0 <= i < n ==> r@[i] == 0u8,
{
    let mut v: Vec<u8> = Vec::new();
    let mut k: usize = 0;
    while k < n
        invariant
            k <= n,
            v@.len() == k,
            forall|i: int| 0 <= i < k ==> v@[i] == 0u8,
        decreases n - k,
    {
        v.push(0);
        k = k + 1;
    }
    v
}

/// Copy `src` into a fresh buffer of length `n`, zero-padding or truncating.
pub fn bytes_with_prefix(src: &Vec<u8>, n: usize) -> (r: Vec<u8>)
    ensures
        r@.len() == n,
        forall|i: int| 0 <= i < n ==> r@[i] == (if i < src@.len() { src@[i] } else { 0u8 }),
{
    let mut v: Vec<u8> = Vec::new();
    let mut k: usize = 0;
    while k < n
        invariant
            k <= n,
            v@.len() == k,
            forall|i: int| 0 <= i < k ==> v@[i] == (if i < src@.len() { src@[i] } else { 0u8 }),
        decreases n - k,
    {
        if k < src.len() {
            let b = src[k];
            v.push(b);
        } else {
            v.push(0);
        }
        k = k + 1;
    }
    v
}

} // verus!

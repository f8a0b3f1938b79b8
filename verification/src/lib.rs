//! A thin facade over a host kernel's dynamic memory primitives.
//!
//! The kernel's allocator lives behind externally linked symbols; this
//! crate holds the seam's own logic: the values handed across it. The
//! facade inspects nothing, transforms nothing and retains nothing, so
//! each function here states bit-for-bit identity between what the
//! caller supplies and what crosses the seam. The unchecked foreign
//! calls themselves stand outside the verified library, wired to these
//! functions so that every value entering or leaving the kernel passes
//! through a proved pass-through point.
//!
//! Addresses are carried as raw machine words (`u64`): the seam gives
//! them no lifetime, aliasing or provenance guarantees.

use vstd::prelude::*;

verus! {

/// The byte count the facade hands to the kernel's allocation symbol
/// for a request of `size`: the caller's count, unchanged. No upper
/// bound is checked at this layer.
pub fn allocate_request(size: usize) -> (forwarded: usize)
    ensures
        forwarded == size,
{
    size
}

/// The address the facade returns to its caller once the kernel's
/// allocation symbol has answered `kernel_ret`: the kernel's value,
/// unchanged. A null (zero) answer is the kernel's out-of-memory
/// indicator and is propagated verbatim.
pub fn allocate_result(kernel_ret: u64) -> (returned: u64)
    ensures
        returned == kernel_ret,
{
    kernel_ret
}

/// The address the facade hands to the kernel's free symbol when the
/// caller releases `addr`: the caller's address, unchanged. Ownership
/// of the address transfers out; the seam keeps no record of it.
pub fn release_request(addr: u64) -> (forwarded: u64)
    ensures
        forwarded == addr,
{
    addr
}

/// The facade holds no hidden state: a run of successive allocations
/// returns exactly the kernel's answers, in order, with no caching,
/// reordering or coalescing.
pub fn allocate_run(kernel_rets: &Vec<u64>) -> (returned: Vec<u64>)
    ensures
        returned@ == kernel_rets@,
{
    let mut returned: Vec<u64> = Vec::new();
    let mut i: usize = 0;
    while i < kernel_rets.len()
        invariant
            i <= kernel_rets@.len(),
            returned@ == kernel_rets@.take(i as int),
        decreases kernel_rets@.len() - i,
    {
        let answer = allocate_result(kernel_rets[i]);
        returned.push(answer);
        i = i + 1;
    }
    returned
}

} // verus!

//! Forwarding WASI calls of a guest module to the host: the guest passes
//! addresses relative to its own linear memory, which the host sees at a base
//! address, so address arguments are rebased before forwarding.

use vstd::prelude::*;

verus! {

/// The host address of a guest address: the guest memory's base plus the offset.
pub fn host_address(base: i32, offset: i32) -> (r: i32)
    requires
        i32::MIN <= base + offset <= i32::MAX,
    ensures
        r == base + offset,
{
    base + offset
}

/// The arguments forwarded for `clock_time_get(clock_id, precision, time_ptr)`:
/// the result pointer is rebased, the others pass unchanged.
pub fn clock_time_get_args(base: i32, clock_id: i32, precision: i64, time_ptr: i32) -> (r: (i32, i64, i32))
    requires
        i32::MIN <= base + time_ptr <= i32::MAX,
    ensures
        r == (clock_id, precision, (base + time_ptr) as i32),
{
    (clock_id, precision, host_address(base, time_ptr))
}

/// The arguments forwarded for `fd_write(fd, iovs_ptr, iovs_len, nwritten_ptr)`:
/// both pointers are rebased, the others pass unchanged.
pub fn fd_write_args(base: i32, fd: i32, iovs: i32, iovs_len: i32, nwritten: i32) -> (r: (i32, i32, i32, i32))
    requires
        i32::MIN <= base + iovs <= i32::MAX,
        i32::MIN <= base + nwritten <= i32::MAX,
    ensures
        r == (fd, (iovs + base) as i32, iovs_len, (nwritten + base) as i32),
{
    (fd, host_address(base, iovs), iovs_len, host_address(base, nwritten))
}

} // verus!

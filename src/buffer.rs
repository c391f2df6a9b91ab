//! Checks on buffers that foreign code hands in as an address and a length.

use vstd::prelude::*;

use crate::digits::decimal;
use crate::digits::push_decimal;
use crate::error::Error;
use crate::error::ErrorView;
use crate::registry::result_view;

verus! {

/// A buffer of `size` bytes at `addr` is usable: it is not empty, it is no
/// larger than `isize::MAX`, and, at a non-null address, it does not run past
/// the end of the address space.
pub open spec fn safe_buffer(size: usize, addr: usize) -> bool {
    &&& 0 < size <= isize::MAX
    &&& (addr == 0 || addr + size <= usize::MAX)
}

/// Whether a buffer of `size` bytes at `addr` is usable (see `safe_buffer`).
pub fn is_safe_buffer_size(size: usize, addr: usize) -> (r: bool)
    ensures
        r == safe_buffer(size, addr),
{
    if size == 0 || size > isize::MAX as usize {
        return false;
    }
    if addr != 0 && addr > usize::MAX - size {
        return false;
    }
    true
}

/// The outcome of checking the buffer `param_name` of `len` bytes at `addr`.
pub open spec fn buffer_check(addr: usize, len: usize, param_name: Seq<char>) -> Result<(), ErrorView> {
    if addr == 0 {
        Err(ErrorView::NullParameter(param_name))
    } else if !safe_buffer(len, addr) {
        Err(
            ErrorView::Other(
                "Buffer size "@ + decimal(len as nat) + " is invalid for parameter '"@ + param_name
                    + "'"@,
            ),
        )
    } else {
        Ok(())
    }
}

/// Checks the buffer named `param_name` of `len` bytes at `addr` before it
/// is read: a null address fails with `NullParameter`, an unusable size with
/// `Other`.
pub fn check_buffer(addr: usize, len: usize, param_name: &str) -> (r: Result<(), Error>)
    ensures
        result_view(r) == buffer_check(addr, len, param_name@),
{
    if addr == 0 {
        return Err(Error::NullParameter(String::from_str(param_name)));
    }
    if !is_safe_buffer_size(len, addr) {
        let mut m = String::from_str("Buffer size ");
        push_decimal(&mut m, len as u128);
        m.append(" is invalid for parameter '");
        m.append(param_name);
        m.append("'");
        return Err(Error::Other(m));
    }
    Ok(())
}

} // verus!

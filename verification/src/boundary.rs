//! The decisions of the flat C-callable boundary, separated from the pointer
//! handling that must surround them: how a hostname is truncated and
//! terminated for a caller-supplied buffer, and how read and write results
//! collapse to the boundary's integer sentinels (a count, `0` for "try
//! later", `-1` for hard failure).

use crate::descriptor::IoError;
use vstd::prelude::*;

verus! {

/// Why a hostname could not be rendered into the caller's buffer.
#[derive(Clone, Copy, Debug, PartialEq, Eq, Structural)]
pub enum HostnameCopyError {
    /// The buffer cannot hold even a truncated non-empty result.
    BufferTooSmall,
    /// The bytes to copy contain an interior zero byte, which a
    /// zero-terminated string cannot represent.
    InteriorNul,
}

/// How many hostname bytes fit before the terminator in a buffer of
/// `capacity` bytes.
pub open spec fn truncated_len(name: Seq<u8>, capacity: nat) -> int {
    vstd::math::min(name.len() as int, capacity as int - 1)
}

/// Build the zero-terminated, truncated-if-necessary copy of `name` that the
/// boundary writes into a caller buffer of `capacity` bytes.
pub fn hostname_copy(name: &Vec<u8>, capacity: usize) -> (r: Result<Vec<u8>, HostnameCopyError>)
    ensures
        match r {
            Ok(out) => {
                &&& capacity >= 1
                &&& name@.len() == 0 || capacity >= 2
                &&& out@ == name@.take(truncated_len(name@, capacity as nat)) + seq![0u8]
                &&& out@.len() <= capacity
                &&& forall|j: int|
                    0 <= j < truncated_len(name@, capacity as nat) ==> name@[j] != 0
            },
            Err(HostnameCopyError::BufferTooSmall) => capacity == 0 || (capacity == 1
                && name@.len() > 0),
            Err(HostnameCopyError::InteriorNul) => exists|j: int|
                0 <= j < truncated_len(name@, capacity as nat) && name@[j] == 0,
        },
{
    if capacity == 0 || (capacity == 1 && name.len() > 0) {
        return Err(HostnameCopyError::BufferTooSmall);
    }
    let k = if name.len() < capacity - 1 {
        name.len()
    } else {
        capacity - 1
    };
    let mut out: Vec<u8> = Vec::new();
    let mut i: usize = 0;
    while i < k
        invariant
            i <= k,
            k == truncated_len(name@, capacity as nat),
            k <= name@.len(),
            out@ == name@.take(i as int),
            forall|j: int| 0 <= j < i ==> name@[j] != 0,
        decreases k - i,
    {
        let b = name[i];
        if b == 0 {
            return Err(HostnameCopyError::InteriorNul);
        }
        out.push(b);
        proof {
            assert(name@.take(i + 1) =~= name@.take(i as int).push(name@[i as int]));
        }
        i = i + 1;
    }
    out.push(0);
    Ok(out)
}

/// The boundary's read sentinel: a hard failure is `-1`, a transient
/// would-block or interrupted condition is `0` (try again next tick), and a
/// successful count is itself — or `-1` in the corner where it cannot be
/// represented.
pub fn read_sentinel(r: &Result<usize, IoError>) -> (s: isize)
    ensures
        match r {
            Ok(n) => (n <= isize::MAX ==> s == n) && (n > isize::MAX ==> s == -1),
            Err(e) => s == if e == IoError::WouldBlock || e == IoError::Interrupted {
                0
            } else {
                -1
            },
        },
{
    match r {
        Ok(n) => {
            if *n <= isize::MAX as usize {
                *n as isize
            } else {
                -1
            }
        },
        Err(IoError::WouldBlock) => 0,
        Err(IoError::Interrupted) => 0,
        Err(_) => -1,
    }
}

/// The boundary's write sentinel: as for reads, except that only would-block
/// is transient — an interrupted send is reported as a failure.
pub fn write_sentinel(r: &Result<usize, IoError>) -> (s: isize)
    ensures
        match r {
            Ok(n) => (n <= isize::MAX ==> s == n) && (n > isize::MAX ==> s == -1),
            Err(e) => s == if e == IoError::WouldBlock {
                0
            } else {
                -1
            },
        },
{
    match r {
        Ok(n) => {
            if *n <= isize::MAX as usize {
                *n as isize
            } else {
                -1
            }
        },
        Err(IoError::WouldBlock) => 0,
        Err(_) => -1,
    }
}

} // verus!

//! What the layer takes from the system's headers and from chance.

use rand::distributions::{Alphanumeric, DistString};
use vstd::prelude::*;

verus! {

/// `libc::SEEK_SET`: an offset counts from the start of a file.
#[verifier::external_body]
pub(crate) fn seek_set() -> (whence: i32)
    ensures
        whence == 0,
{
    libc::SEEK_SET
}

/// `libc::SEEK_CUR`: an offset counts from the place that was reached.
#[verifier::external_body]
pub(crate) fn seek_cur() -> (whence: i32)
    ensures
        whence == 1,
{
    libc::SEEK_CUR
}

/// `libc::SEEK_END`: an offset counts from the end of a file.
#[verifier::external_body]
pub(crate) fn seek_end() -> (whence: i32)
    ensures
        whence == 2,
{
    libc::SEEK_END
}

/// The descriptor that stands for the working directory on Linux.
pub open spec fn working_directory() -> int {
    -100
}

/// `libc::AT_FDCWD`: the descriptor that stands for the working directory. The
/// number is that of Linux.
#[verifier::external_body]
pub(crate) fn at_fdcwd() -> (fd: i32)
    ensures
        fd == working_directory(),
{
    libc::AT_FDCWD
}

/// A letter or a digit of ASCII.
pub open spec fn is_alphanumeric(c: char) -> bool {
    ||| 'a' <= c <= 'z'
    ||| 'A' <= c <= 'Z'
    ||| '0' <= c <= '9'
}

/// `DistString::sample_string` of `rand::distributions::Alphanumeric`, with the
/// thread's generator: as many letters and digits as asked for. Which ones they
/// are is left to chance.
#[verifier::external_body]
pub(crate) fn random_text(length: usize) -> (text: String)
    ensures
        text@.len() == length,
        forall|i: int| 0 <= i < text@.len() ==> is_alphanumeric(#[trigger] text@[i]),
{
    Alphanumeric.sample_string(&mut rand::thread_rng(), length)
}

} // verus!

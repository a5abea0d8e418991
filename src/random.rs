use vstd::prelude::*;

verus! {

/// Why a request for random bytes failed.
#[derive(Clone, Copy, Debug, PartialEq, Eq, Structural)]
pub enum RandError {
    /// The kernel call itself failed.
    CallFailure,
    /// The call succeeded but filled fewer bytes than requested.
    PartiallyRandomized,
}

/// The outcome of a `getrandom` call that asked for `requested` bytes and
/// returned `rc`: success only when every requested byte was filled.
pub fn getrandom_result(rc: isize, requested: usize) -> (r: Result<(), RandError>)
    ensures
        rc == -1 ==> r == Err::<(), RandError>(RandError::CallFailure),
        rc != -1 && rc != requested ==> r == Err::<(), RandError>(RandError::PartiallyRandomized),
        rc == requested ==> r == Ok::<(), RandError>(()),
{
    if rc == -1 {
        Err(RandError::CallFailure)
    } else if rc < 0 || rc as usize != requested {
        Err(RandError::PartiallyRandomized)
    } else {
        Ok(())
    }
}

/// Hands back `buf` once a `getrandom` call on the whole of it returned `rc`,
/// and only if that call filled every byte of it.
pub fn random_bytes_result(rc: isize, buf: Vec<u8>) -> (r: Result<Vec<u8>, RandError>)
    ensures
        rc == -1 ==> r == Err::<Vec<u8>, RandError>(RandError::CallFailure),
        rc != -1 && rc != buf@.len() ==> r == Err::<Vec<u8>, RandError>(
            RandError::PartiallyRandomized,
        ),
        rc == buf@.len() ==> r is Ok && r->Ok_0@ == buf@,
{
    match getrandom_result(rc, buf.len()) {
        Ok(()) => Ok(buf),
        Err(e) => Err(e),
    }
}

} // verus!

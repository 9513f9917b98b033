use errno::Errno;
use vstd::prelude::*;

verus! {

/// `errno::Errno`, an operating system error number. It is carried through
/// as it came; nothing is stated of what it holds.
#[verifier::external_type_specification]
#[verifier::external_body]
pub struct ExErrno(Errno);

/// Why the operating system refused to install or remove a hook.
///
/// The library never makes one of these itself: it hands on what the caller
/// reported.
#[derive(Debug, PartialEq, Eq)]
pub enum Error {
    /// A Windows failure, by its `HRESULT`.
    Windows(i32),
    /// A Unix failure, by its error number.
    Unix(Errno),
}

impl Clone for Error {
    fn clone(&self) -> (copy: Self)
        ensures
            copy == *self,
    {
        match self {
            Error::Windows(code) => Error::Windows(*code),
            Error::Unix(errno) => Error::Unix(*errno),
        }
    }
}

} // verus!

use vstd::prelude::*;

verus! {

/// I/O errors of the operating system; carried, never inspected.
#[verifier::external_type_specification]
#[verifier::external_body]
pub struct ExIoError(std::io::Error);

/// The POSIX error number for an invalid argument.
pub open spec fn einval() -> i32 {
    22
}

/// `libc::EINVAL`.  Claims: it is 22.  libc's source defines it so for the
/// targets this library serves (macOS, where the host extension runs, and
/// Linux); a few other targets (Hurd, Haiku, Emscripten) use other numbers,
/// and for them this claim would be false.
#[verifier::external_body]
pub(crate) fn invalid_argument() -> (code: i32)
    ensures
        code == einval(),
{
    libc::EINVAL
}

} // verus!

//! Failures of system calls, and what the error-number table says of them.

use vstd::prelude::*;

verus! {

/// A failure reported by the layer that makes the system calls.
#[derive(Clone, Copy, Debug, PartialEq, Eq, Structural)]
pub enum OsError {
    /// The system call failed and left this error number.
    Sys(i32),
    /// An argument that names a path could not be handed to the system.
    InvalidPath,
}

/// The symbolic name that the error-number table of the target platform gives
/// to `code`, such as `EINPROGRESS`; numbers it does not list share one name.
pub uninterp spec fn errno_symbol(code: int) -> Seq<char>;

/// Whether `code` is the target platform's error number for an operation that
/// was started and has not finished yet.
pub uninterp spec fn errno_in_progress(code: int) -> bool;

/// Looks `code` up with `nix::errno::Errno::from_raw` and renders the entry
/// with its `Debug` impl, which prints the name of the enum's variant. The
/// name depends on nothing but the number.
#[verifier::external_body]
pub(crate) fn symbol_of_errno(code: i32) -> (symbol: String)
    ensures
        symbol@ == errno_symbol(code as int),
{
    format!("{:?}", nix::errno::Errno::from_raw(code))
}

/// Looks `code` up with `nix::errno::Errno::from_raw` and tells whether the
/// entry is the variant `EINPROGRESS`. The answer depends on nothing but the
/// number.
#[verifier::external_body]
pub(crate) fn errno_is_in_progress(code: i32) -> (pending: bool)
    ensures
        pending == errno_in_progress(code as int),
{
    matches!(nix::errno::Errno::from_raw(code), nix::errno::Errno::EINPROGRESS)
}

/// The text of a failed system call whose error number has the name
/// `symbol`: the name between `Sys(` and `)`.
pub fn sys_text(symbol: &str) -> (text: String)
    ensures
        text@ == "Sys("@ + symbol@ + ")"@,
{
    let mut text = String::from_str("Sys(");
    text.append(symbol);
    text.append(")");
    text
}

impl OsError {
    /// The failure in words: `Sys(` and `)` around the name of the error
    /// number, or `InvalidPath`.
    pub open spec fn spec_text(&self) -> Seq<char> {
        match *self {
            OsError::Sys(code) => "Sys("@ + errno_symbol(code as int) + ")"@,
            OsError::InvalidPath => "InvalidPath"@,
        }
    }

    /// The failure in words.
    pub fn text(&self) -> (text: String)
        ensures
            text@ == self.spec_text(),
    {
        match self {
            OsError::Sys(code) => {
                let symbol = symbol_of_errno(*code);
                sys_text(symbol.as_str())
            },
            OsError::InvalidPath => String::from_str("InvalidPath"),
        }
    }

    /// Whether the failure only says that the operation is still under way.
    pub open spec fn spec_is_in_progress(&self) -> bool {
        match *self {
            OsError::Sys(code) => errno_in_progress(code as int),
            OsError::InvalidPath => false,
        }
    }

    /// Whether the failure only says that the operation is still under way,
    /// which is what a connect on a non-blocking socket is expected to
    /// report.
    #[verifier::when_used_as_spec(spec_is_in_progress)]
    pub fn is_in_progress(&self) -> (pending: bool)
        ensures
            pending == self.spec_is_in_progress(),
    {
        match self {
            OsError::Sys(code) => errno_is_in_progress(*code),
            OsError::InvalidPath => false,
        }
    }
}

} // verus!

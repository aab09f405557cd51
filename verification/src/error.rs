use vstd::prelude::*;

verus! {

/// The closed error taxonomy of this library.
///
/// Every failure of a native probing call is translated at the boundary into
/// one of these variants; callers never observe raw return codes or raw
/// pointers. Each variant carries plain data only.
#[derive(Clone, Copy, Debug, PartialEq, Eq, Structural)]
pub enum BlkIdError {
    /// Text returned by the native library was not valid UTF-8; carries the
    /// length of the longest valid prefix.
    Utf8(usize),
    /// A string handed to the native library held an interior NUL byte;
    /// carries the position of the first such byte.
    Nul(usize),
    /// A native call failed; carries the OS error code observed right after
    /// the call returned its failure sentinel.
    Io(i32),
}

pub type BlkIdResult<T> = Result<T, BlkIdError>;

/// Raw return values of native calls that signal failure by a sentinel value.
pub trait RawResult: Sized + Copy {
    /// What counts as a failure sentinel for this raw type.
    spec fn spec_is_error(self) -> bool;

    /// Whether this raw value signals failure.
    fn is_error(self) -> (r: bool)
        ensures
            r == self.spec_is_error(),
    ;
}

impl RawResult for i32 {
    open spec fn spec_is_error(self) -> bool {
        self < 0
    }

    fn is_error(self) -> (r: bool) {
        self < 0
    }
}

impl RawResult for i64 {
    open spec fn spec_is_error(self) -> bool {
        self < 0
    }

    fn is_error(self) -> (r: bool) {
        self < 0
    }
}

/// Translates a raw native return value into a structured result: a failure
/// sentinel becomes `Io` carrying the OS error code that the caller read
/// right after the native call, and any other value passes through unchanged.
pub fn c_result<T: RawResult>(value: T, os_error_code: i32) -> (r: BlkIdResult<T>)
    ensures
        value.spec_is_error() ==> r == Result::<T, BlkIdError>::Err(BlkIdError::Io(os_error_code)),
        !value.spec_is_error() ==> r == Result::<T, BlkIdError>::Ok(value),
{
    if value.is_error() {
        Err(BlkIdError::Io(os_error_code))
    } else {
        Ok(value)
    }
}

} // verus!

//! String wrappers with verified length constraints.

use vstd::prelude::*;

verus! {

/// The error returned when a string breaks the length constraints of
/// [`CheckedString`].
#[derive(Debug, Clone, Copy, PartialEq, Eq, Structural)]
pub enum ConstraintsViolated {
    /// The string was longer than the maximum.
    TooLong {
        /// The exceeded maximum length.
        max: u32,
        /// The offending length.
        got: usize,
    },
    /// The string was shorter than the minimum.
    TooShort {
        /// The violated minimum length.
        min: u32,
        /// The offending length.
        got: usize,
    },
}

/// Wrapper around a [`String`] which checks the minimum and maximum length
/// of the string, counted in characters.
///
/// A `MAX_LEN` of `0` disables the maximum.
#[derive(Debug, Clone, PartialEq, Eq, Hash)]
pub struct CheckedString<const MIN_LEN: u32, const MAX_LEN: u32> {
    inner: String,
}

impl<const MIN_LEN: u32, const MAX_LEN: u32> CheckedString<MIN_LEN, MAX_LEN> {
    /// The characters of the wrapped string.
    pub closed spec fn view(self) -> Seq<char> {
        self.inner@
    }

    /// The wrapped string's length lies within the bounds.
    pub open spec fn wf(self) -> bool {
        &&& MIN_LEN <= self.view().len()
        &&& MAX_LEN > 0 ==> self.view().len() <= MAX_LEN
    }

    /// Instantiate a new `CheckedString`.
    ///
    /// Returns the string's length and the violated bound when the string
    /// is shorter than `MIN_LEN` or, for a `MAX_LEN` above zero, longer
    /// than `MAX_LEN`; a too short string is reported before a too long
    /// one.
    pub fn new(str: String) -> (r: Result<Self, ConstraintsViolated>)
        ensures
            match r {
                Ok(checked) => {
                    &&& checked@ == str@
                    &&& MIN_LEN <= str@.len()
                    &&& MAX_LEN > 0 ==> str@.len() <= MAX_LEN
                },
                Err(e) => if str@.len() < MIN_LEN {
                    e matches ConstraintsViolated::TooShort { min, got } && min == MIN_LEN && got
                        == str@.len()
                } else {
                    &&& MAX_LEN > 0 && str@.len() > MAX_LEN
                    &&& e matches ConstraintsViolated::TooLong { max, got } && max == MAX_LEN
                        && got == str@.len()
                },
            },
    {
        let len = str.as_str().unicode_len();
        if (len as u64) < (MIN_LEN as u64) {
            return Err(ConstraintsViolated::TooShort { min: MIN_LEN, got: len });
        }
        if MAX_LEN > 0 && (len as u64) > (MAX_LEN as u64) {
            return Err(ConstraintsViolated::TooLong { max: MAX_LEN, got: len });
        }
        Ok(CheckedString { inner: str })
    }

    /// Convert the string into its inner type.
    pub fn into_inner(self) -> (r: String)
        ensures
            r@ == self@,
    {
        self.inner
    }

    /// Borrow the wrapped string.
    pub fn as_str(&self) -> (r: &str)
        ensures
            r@ == self@,
    {
        self.inner.as_str()
    }

    /// Borrow the wrapped string as a `String`.
    pub fn as_string(&self) -> (r: &String)
        ensures
            r@ == self@,
    {
        &self.inner
    }
}

/// Error returned by [`NotEmptyString::new`] for an empty input.
#[derive(Debug, Clone, Copy, PartialEq, Eq, Structural)]
pub struct EmptyNotAllowed;

/// Wrapper around [`String`] that requires it not to be empty.
#[derive(Debug, Clone, PartialEq, Eq, Hash)]
pub struct NotEmptyString {
    inner: String,
}

impl NotEmptyString {
    /// The characters of the wrapped string.
    pub closed spec fn view(self) -> Seq<char> {
        self.inner@
    }

    /// Construct a new [`NotEmptyString`].
    ///
    /// Errors exactly when the input string is empty.
    pub fn new(input: String) -> (r: Result<Self, EmptyNotAllowed>)
        ensures
            match r {
                Ok(s) => s@ == input@ && input@.len() > 0,
                Err(_) => input@.len() == 0,
            },
    {
        if input.as_str().is_empty() {
            return Err(EmptyNotAllowed);
        }
        Ok(NotEmptyString { inner: input })
    }

    /// Convert into the inner string.
    pub fn into_inner(self) -> (r: String)
        ensures
            r@ == self@,
    {
        self.inner
    }
}

/// A string holding a secret, kept in a wrapper of its own so that it is
/// never rendered by accident where an ordinary string would be.
#[derive(Clone)]
pub struct SecureString {
    inner: String,
}

impl SecureString {
    /// The characters of the wrapped string.
    pub closed spec fn view(self) -> Seq<char> {
        self.inner@
    }

    /// Constructs a new secure string.
    pub fn new(value: String) -> (r: Self)
        ensures
            r@ == value@,
    {
        SecureString { inner: value }
    }

    /// Convert into the inner string.
    pub fn into_inner(self) -> (r: String)
        ensures
            r@ == self@,
    {
        self.inner
    }

    /// Borrow the wrapped string.
    pub fn as_str(&self) -> (r: &str)
        ensures
            r@ == self@,
    {
        self.inner.as_str()
    }
}


} // verus!

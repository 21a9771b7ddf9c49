use vstd::prelude::*;

verus! {

/// A two-variant success / failure container.
#[derive(Debug, PartialEq, Eq)]
pub enum MyResult<T, E> {
    Success(T),
    Failure(E),
}

impl<T, E> MyResult<T, E> {
    /// Whether this is the success variant.
    pub fn is_ok(&self) -> (r: bool)
        ensures
            r == (*self is Success),
    {
        match self {
            MyResult::Success(_) => true,
            _ => false,
        }
    }

    /// Whether this is the failure variant.
    pub fn is_err(&self) -> (r: bool)
        ensures
            r == (*self is Failure),
    {
        match self {
            MyResult::Failure(_) => true,
            _ => false,
        }
    }

    /// The value carried by a success; calling it on a failure is a
    /// programming error.
    pub fn unwrap(self) -> (r: T)
        requires
            self is Success,
        ensures
            self == MyResult::<T, E>::Success(r),
    {
        match self {
            MyResult::Success(val) => val,
            MyResult::Failure(_) => vstd::pervasive::unreached(),
        }
    }

    /// The error carried by a failure; calling it on a success is a
    /// programming error.
    pub fn unwrap_err(self) -> (r: E)
        requires
            self is Failure,
        ensures
            self == MyResult::<T, E>::Failure(r),
    {
        match self {
            MyResult::Failure(err) => err,
            MyResult::Success(_) => vstd::pervasive::unreached(),
        }
    }
}

/// The host result that a `MyResult` stands for: success to `Ok`, failure
/// to `Err`, the carried value unchanged.
pub open spec fn as_result<T, E>(m: MyResult<T, E>) -> Result<T, E> {
    match m {
        MyResult::Success(v) => Ok(v),
        MyResult::Failure(e) => Err(e),
    }
}

/// Converts into the host result so that `?` can propagate a failure; what
/// it returns is `as_result(value)`.
impl<T, E> From<MyResult<T, E>> for Result<T, E> {
    fn from(value: MyResult<T, E>) -> (r: Result<T, E>) {
        match value {
            MyResult::Success(val) => Ok(val),
            MyResult::Failure(err) => Err(err),
        }
    }
}

impl<T, E> vstd::std_specs::convert::FromSpecImpl<MyResult<T, E>> for Result<T, E> {
    open spec fn obeys_from_spec() -> bool {
        true
    }

    open spec fn from_spec(v: MyResult<T, E>) -> Result<T, E> {
        as_result(v)
    }
}

} // verus!

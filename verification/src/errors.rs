//! A tagged-union error type combining two leaf error kinds, with the
//! conversions that let a caller propagate either kind as the common enum.

use vstd::prelude::*;

verus! {

/// The failure of the first operation.
#[derive(Debug)]
pub struct ErrorA;

/// The failure of the second operation.
#[derive(Debug)]
pub struct ErrorB;

/// A common error holding either leaf kind, tagged by its source.
#[derive(Debug)]
pub enum Error {
    A(ErrorA),
    B(ErrorB),
}

impl From<ErrorA> for Error {
    fn from(err: ErrorA) -> (r: Error)
        ensures
            r == Error::A(err),
    {
        Error::A(err)
    }
}

impl vstd::std_specs::convert::FromSpecImpl<ErrorA> for Error {
    open spec fn obeys_from_spec() -> bool {
        true
    }

    open spec fn from_spec(err: ErrorA) -> Error {
        Error::A(err)
    }
}

impl From<ErrorB> for Error {
    fn from(err: ErrorB) -> (r: Error)
        ensures
            r == Error::B(err),
    {
        Error::B(err)
    }
}

impl vstd::std_specs::convert::FromSpecImpl<ErrorB> for Error {
    open spec fn obeys_from_spec() -> bool {
        true
    }

    open spec fn from_spec(err: ErrorB) -> Error {
        Error::B(err)
    }
}

/// The first operation; it always fails with its leaf error.
pub fn do_a() -> (r: Result<u16, ErrorA>)
    ensures
        r == Err::<u16, ErrorA>(ErrorA),
{
    Err(ErrorA)
}

/// The second operation; it always fails with its leaf error.
pub fn do_b() -> (r: Result<u32, ErrorB>)
    ensures
        r == Err::<u32, ErrorB>(ErrorB),
{
    Err(ErrorB)
}

/// Runs both operations, short-circuiting on the first failure and lifting
/// its leaf error into the common enum. Since the first operation always
/// fails, the result is always its error, tagged.
pub fn do_both() -> (r: Result<(u16, u32), Error>)
    ensures
        r == Err::<(u16, u32), Error>(Error::A(ErrorA)),
{
    let a = match do_a() {
        Ok(v) => v,
        Err(e) => {
            return Err(Error::from(e));
        },
    };
    let b = match do_b() {
        Ok(v) => v,
        Err(e) => {
            return Err(Error::from(e));
        },
    };
    Ok((a, b))
}

} // verus!

use vstd::prelude::*;

verus! {

/// Status reported by the animation engine, or raised by this library on its behalf.
#[derive(Debug, Clone, Copy, PartialEq, Eq, Hash, Structural)]
pub enum SG_Error {
    SG_ERROR_OK,
    /// Samples of a numeric type other than the session's were supplied.
    SG_ERROR_INVALID_INPUT_TRAITS,
    /// The engine reported no animation node.
    SG_ERROR_INVALID_ANIMATION_NODE,
    /// A channel name could not be decoded as text.
    SG_ERROR_INVALID_ANIMATION_CHANNEL,
    /// Any other status, by its raw engine code.
    SG_ERROR_ENGINE(i32),
}

/// A non-OK engine status, carried as an error value.
#[derive(Debug, Clone, Copy, PartialEq, Eq, Hash, Structural)]
pub struct Error(pub SG_Error);

pub type Result<T> = core::result::Result<T, Error>;

impl Error {
    pub fn code(&self) -> (r: SG_Error)
        ensures
            r == self.0,
    {
        self.0
    }

    pub fn is_ok(&self) -> (r: bool)
        ensures
            r == (self.0 == SG_Error::SG_ERROR_OK),
    {
        self.0 == SG_Error::SG_ERROR_OK
    }
}

impl SG_Error {
    pub fn into_result(self) -> (r: Result<()>)
        ensures
            self == SG_Error::SG_ERROR_OK ==> r == Ok::<(), Error>(()),
            self != SG_Error::SG_ERROR_OK ==> r == Err::<(), Error>(Error(self)),
    {
        if self == SG_Error::SG_ERROR_OK {
            Ok(())
        } else {
            Err(Error(self))
        }
    }
}

impl From<SG_Error> for Error {
    fn from(error_code: SG_Error) -> (r: Error)
        ensures
            r == Error(error_code),
    {
        Error(error_code)
    }
}

impl vstd::std_specs::convert::FromSpecImpl<SG_Error> for Error {
    open spec fn obeys_from_spec() -> bool {
        true
    }

    open spec fn from_spec(v: SG_Error) -> Error {
        Error(v)
    }
}

} // verus!

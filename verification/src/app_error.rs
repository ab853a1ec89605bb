use vstd::prelude::*;

verus! {

/// The error of every fallible operation of the simulation: a human-readable message.
#[derive(Clone, Debug)]
pub struct AppError {
    err: String,
}

/// The result of every fallible operation of the simulation.
pub type AppResult<T> = Result<T, AppError>;

impl AppError {
    /// The message that the error carries.
    pub closed spec fn message(&self) -> Seq<char> {
        self.err@
    }

    pub fn new(err: String) -> (r: AppError)
        ensures
            r.message() == err@,
    {
        AppError { err }
    }

    /// The message, as it is displayed.
    pub fn to_string(&self) -> (r: String)
        ensures
            r@ == self.message(),
    {
        self.err.clone()
    }
}

impl From<String> for AppError {
    fn from(err: String) -> (r: AppError) {
        AppError { err }
    }
}

impl vstd::std_specs::convert::FromSpecImpl<String> for AppError {
    open spec fn obeys_from_spec() -> bool {
        true
    }

    closed spec fn from_spec(err: String) -> AppError {
        AppError { err }
    }
}

/// An error made from a message carries that message.
pub proof fn lemma_from_string_keeps_message(err: String)
    ensures
        <AppError as vstd::std_specs::convert::FromSpec<String>>::from_spec(err).message() == err@,
{
}

} // verus!

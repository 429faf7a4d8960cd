use vstd::prelude::*;

verus! {

/// What can go wrong between a caller and a worker.
#[derive(Debug, Clone, PartialEq, Eq)]
pub enum Error {
    /// The worker was shut down before the call was made.
    WorkerHasStopped,
    /// A failure that carries its own description: an interpreter error, a
    /// channel that closed under a call, or a worker thread that died.
    Runtime(String),
    /// A value could not be read as the type that the caller asked for.
    JsonDecode(String),
    /// A script called, as a function, a name that stands for none.
    ValueNotCallable(String),
}

impl Error {
    /// The text of the error, as a caller would show it.
    pub open spec fn spec_message(self) -> Seq<char> {
        match self {
            Error::WorkerHasStopped => "Worker has stopped"@,
            Error::Runtime(text) => text@,
            Error::JsonDecode(text) => text@,
            Error::ValueNotCallable(name) => name@ + " is not a function"@,
        }
    }

    /// The text of the error, as a caller would show it.
    pub fn message(&self) -> (text: String)
        ensures
            text@ == self.spec_message(),
    {
        match self {
            Error::WorkerHasStopped => "Worker has stopped".to_owned(),
            Error::Runtime(text) => text.clone(),
            Error::JsonDecode(text) => text.clone(),
            Error::ValueNotCallable(name) => name.clone().concat(" is not a function"),
        }
    }
}

/// Turns the failure of a channel into the error that callers see.
pub fn transport<T>(outcome: Result<T, String>) -> (result: Result<T, Error>)
    ensures
        result == match outcome {
            Ok(value) => Ok::<T, Error>(value),
            Err(text) => Err(Error::Runtime(text)),
        },
{
    match outcome {
        Ok(value) => Ok(value),
        Err(text) => Err(Error::Runtime(text)),
    }
}

} // verus!

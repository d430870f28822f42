//! The envelope in which a command answers.

use vstd::prelude::*;

verus! {

/// An error that has a short name by which the interface tells it apart.
pub trait ToErrorIdentifider {
    fn error_identifier(&self) -> String;
}

/// Either the result of a command or the identifier of its error.
pub struct IpcResponse<D> {
    error: Option<String>,
    result: Option<D>,
}

impl<D> IpcResponse<D> {
    /// The identifier of the error, if the command failed.
    pub closed spec fn error_text(&self) -> Option<Seq<char>> {
        self.error.deep_view()
    }

    /// The result, if the command succeeded.
    pub closed spec fn result_value(&self) -> Option<D> {
        self.result
    }

    /// The answer of a command that succeeded with `value`.
    pub fn ok(value: D) -> (response: Self)
        ensures
            response.error_text() is None,
            response.result_value() == Some(value),
    {
        IpcResponse { error: None, result: Some(value) }
    }

    /// The answer of a command that failed with the error called
    /// `identifier`.
    pub fn error(identifier: &str) -> (response: Self)
        ensures
            response.error_text() == Some(identifier@),
            response.result_value() is None,
    {
        IpcResponse { error: Some(identifier.to_owned()), result: None }
    }

    /// The answer that stands for the outcome of a command. What an error
    /// is called is for the error to say.
    pub fn from<E: ToErrorIdentifider>(value: Result<D, E>) -> (response: Self)
        ensures
            match value {
                Ok(result) => response.error_text() is None && response.result_value() == Some(
                    result,
                ),
                Err(_) => response.error_text() is Some && response.result_value() is None,
            },
    {
        match value {
            Ok(result) => IpcResponse::ok(result),
            Err(error) => {
                let identifier = error.error_identifier();
                IpcResponse::error(identifier.as_str())
            },
        }
    }

    /// The identifier of the error, if the command failed.
    pub fn get_error(&self) -> (identifier: Option<&String>)
        ensures
            identifier.deep_view() == self.error_text(),
    {
        self.error.as_ref()
    }

    /// The result, if the command succeeded.
    pub fn into_result(self) -> (result: Option<D>)
        ensures
            result == self.result_value(),
    {
        self.result
    }
}

} // verus!

//! The envelope every command answer is sent in.
use vstd::prelude::*;

verus! {

/// The payload of an answer that carries no data.
#[derive(Debug, Clone, Copy, Default)]
pub struct EmptyData;

/// A command's answer: a status code (200 success, 500 failure), an
/// optional message and the data on success.
#[derive(Debug, Clone)]
pub struct ApiResponse<T> {
    pub code: u16,
    pub message: Option<String>,
    pub data: Option<T>,
}

/// What a command returns: the answer, or a transport error text.
pub type TauriApiResult<T> = Result<ApiResponse<T>, String>;

impl<T> ApiResponse<T> {
    /// A success carrying `data`.
    pub fn ok(data: T) -> (r: Self)
        ensures
            r.code == 200,
            r.message is None,
            r.data == Some(data),
    {
        ApiResponse { code: 200, message: None, data: Some(data) }
    }

    /// A success carrying `data` and a message.
    pub fn ok_with_message(data: T, message: String) -> (r: Self)
        ensures
            r.code == 200,
            r.message == Some(message),
            r.data == Some(data),
    {
        ApiResponse { code: 200, message: Some(message), data: Some(data) }
    }

    /// A failure with its message and no data.
    pub fn error(message: String) -> (r: Self)
        ensures
            r.code == 500,
            r.message == Some(message),
            r.data is None,
    {
        ApiResponse { code: 500, message: Some(message), data: None }
    }
}

} // verus!

use vstd::prelude::*;
use vstd::string::StringExecFns;

verus! {

/// The status code of a successful response.
pub const CODE_OK: u16 = 200;

/// The status code of a failure when no other code is given.
pub const CODE_ERROR: u16 = 500;

/// The uniform response body: a code that doubles as the HTTP status, a
/// message, and optional data.
#[derive(Debug)]
pub struct ApiResponse<T> {
    pub code: u16,
    pub message: String,
    pub data: Option<T>,
}

/// A response envelope, tagged by whether it carries data and whether it
/// reports success.
#[derive(Debug)]
pub enum R<T> {
    NoDataSuccess(ApiResponse<()>),
    Success(ApiResponse<T>),
    Error(ApiResponse<()>),
    DataError(ApiResponse<T>),
}

pub open spec fn success_text() -> Seq<char> {
    "Success"@
}

pub open spec fn error_text() -> Seq<char> {
    "Internal Server Error"@
}

impl<T> ApiResponse<T> {
    pub fn ok() -> (r: ApiResponse<()>)
        ensures
            r.code == CODE_OK,
            r.message@ == success_text(),
            r.data is None,
    {
        ApiResponse { code: CODE_OK, message: String::from_str("Success"), data: None }
    }

    pub fn ok_with_data(data: T) -> (r: ApiResponse<T>)
        ensures
            r.code == CODE_OK,
            r.message@ == success_text(),
            r.data == Some(data),
    {
        ApiResponse { code: CODE_OK, message: String::from_str("Success"), data: Some(data) }
    }

    pub fn ok_with_message(message: String) -> (r: ApiResponse<()>)
        ensures
            r.code == CODE_OK,
            r.message@ == message@,
            r.data is None,
    {
        ApiResponse { code: CODE_OK, message, data: None }
    }

    pub fn ok_with_data_and_message(data: T, message: String) -> (r: ApiResponse<T>)
        ensures
            r.code == CODE_OK,
            r.message@ == message@,
            r.data == Some(data),
    {
        ApiResponse { code: CODE_OK, message, data: Some(data) }
    }

    pub fn error() -> (r: ApiResponse<()>)
        ensures
            r.code == CODE_ERROR,
            r.message@ == error_text(),
            r.data is None,
    {
        ApiResponse {
            code: CODE_ERROR,
            message: String::from_str("Internal Server Error"),
            data: None,
        }
    }

    pub fn error_with_message(message: String) -> (r: ApiResponse<()>)
        ensures
            r.code == CODE_ERROR,
            r.message@ == message@,
            r.data is None,
    {
        ApiResponse { code: CODE_ERROR, message, data: None }
    }

    pub fn error_with_code_and_message(code: u16, message: String) -> (r: ApiResponse<()>)
        ensures
            r.code == code,
            r.message@ == message@,
            r.data is None,
    {
        ApiResponse { code, message, data: None }
    }

    pub fn error_with_data(data: T) -> (r: ApiResponse<T>)
        ensures
            r.code == CODE_ERROR,
            r.message@ == error_text(),
            r.data == Some(data),
    {
        ApiResponse {
            code: CODE_ERROR,
            message: String::from_str("Internal Server Error"),
            data: Some(data),
        }
    }

    pub fn error_with_code_and_data(code: u16, data: T) -> (r: ApiResponse<T>)
        ensures
            r.code == code,
            r.message@ == error_text(),
            r.data == Some(data),
    {
        ApiResponse {
            code,
            message: String::from_str("Internal Server Error"),
            data: Some(data),
        }
    }

    pub fn error_with_code_and_message_and_data(code: u16, messages: String, data: T) -> (r:
        ApiResponse<T>)
        ensures
            r.code == code,
            r.message@ == messages@,
            r.data == Some(data),
    {
        ApiResponse { code, message: messages, data: Some(data) }
    }

    pub fn is_success(&self) -> (r: bool)
        ensures
            r == (self.code == CODE_OK),
    {
        self.code == CODE_OK
    }

    pub fn is_error(&self) -> (r: bool)
        ensures
            r == (self.code != CODE_OK),
    {
        self.code != CODE_OK
    }
}

impl<T> R<T> {
    /// The code of the wrapped response.
    pub open spec fn code_of(&self) -> u16 {
        match self {
            R::NoDataSuccess(a) => a.code,
            R::Success(a) => a.code,
            R::Error(a) => a.code,
            R::DataError(a) => a.code,
        }
    }

    /// The message of the wrapped response.
    pub open spec fn message_of(&self) -> Seq<char> {
        match self {
            R::NoDataSuccess(a) => a.message@,
            R::Success(a) => a.message@,
            R::Error(a) => a.message@,
            R::DataError(a) => a.message@,
        }
    }

    pub fn ok() -> (r: Self)
        ensures
            r matches R::NoDataSuccess(a) && a.code == CODE_OK && a.message@ == success_text()
                && a.data is None,
    {
        R::NoDataSuccess(ApiResponse::<()>::ok())
    }

    pub fn ok_with_data(data: T) -> (r: Self)
        ensures
            r matches R::Success(a) && a.code == CODE_OK && a.message@ == success_text() && a.data
                == Some(data),
    {
        R::Success(ApiResponse::ok_with_data(data))
    }

    pub fn ok_with_data_and_message(data: T, message: String) -> (r: Self)
        ensures
            r matches R::Success(a) && a.code == CODE_OK && a.message@ == message@ && a.data
                == Some(data),
    {
        R::Success(ApiResponse::ok_with_data_and_message(data, message))
    }

    pub fn error() -> (r: Self)
        ensures
            r matches R::Error(a) && a.code == CODE_ERROR && a.message@ == error_text()
                && a.data is None,
    {
        R::Error(ApiResponse::<()>::error())
    }

    pub fn error_with_message(message: String) -> (r: Self)
        ensures
            r matches R::Error(a) && a.code == CODE_ERROR && a.message@ == message@
                && a.data is None,
    {
        R::Error(ApiResponse::<()>::error_with_code_and_message(CODE_ERROR, message))
    }

    pub fn error_with_code_and_message(code: u16, message: String) -> (r: Self)
        ensures
            r matches R::Error(a) && a.code == code && a.message@ == message@ && a.data is None,
    {
        R::Error(ApiResponse::<()>::error_with_code_and_message(code, message))
    }

    pub fn error_with_data(data: T) -> (r: Self)
        ensures
            r matches R::DataError(a) && a.code == CODE_ERROR && a.message@ == error_text()
                && a.data == Some(data),
    {
        R::DataError(ApiResponse::error_with_data(data))
    }

    pub fn error_with_code_and_data(code: u16, data: T) -> (r: Self)
        ensures
            r matches R::DataError(a) && a.code == code && a.message@ == error_text() && a.data
                == Some(data),
    {
        R::DataError(ApiResponse::error_with_code_and_data(code, data))
    }

    pub fn error_with_code_and_message_and_data(code: u16, messages: String, data: T) -> (r: Self)
        ensures
            r matches R::DataError(a) && a.code == code && a.message@ == messages@ && a.data
                == Some(data),
    {
        R::DataError(ApiResponse::error_with_code_and_message_and_data(code, messages, data))
    }
}

} // verus!

//! The errors that the transport layer answers with, each with its status,
//! its numeric code and its message.

use crate::text::joined;
use vstd::prelude::*;

verus! {

pub const STATUS_OK: u16 = 200;

pub const STATUS_MOVED_PERMANENTLY: u16 = 301;

pub const STATUS_BAD_REQUEST: u16 = 400;

pub const STATUS_UNAUTHORIZED: u16 = 401;

pub const STATUS_FORBIDDEN: u16 = 403;

pub const STATUS_NOT_FOUND: u16 = 404;

pub const STATUS_METHOD_NOT_ALLOWED: u16 = 405;

pub const STATUS_NOT_ACCEPTABLE: u16 = 406;

pub const STATUS_REQUEST_TIMEOUT: u16 = 408;

pub const STATUS_CONFLICT: u16 = 409;

pub const STATUS_INTERNAL_SERVER_ERROR: u16 = 500;

pub const STATUS_NOT_IMPLEMENTED: u16 = 501;

pub const STATUS_SERVICE_UNAVAILABLE: u16 = 503;

/// A text as `{:?}` writes it: in double quotes, with escapes.
pub uninterp spec fn debug_text(text: Seq<char>) -> Seq<char>;

/// `format!` with `{:?}` on a `str`, which is `<str as Debug>::fmt`: the
/// text in double quotes, with escapes. The result depends on the text alone.
#[verifier::external_body]
pub(crate) fn quoted(text: &str) -> (r: String)
    ensures
        r@ == debug_text(text@),
{
    format!("{:?}", text)
}

/// An error of the API proper.
#[derive(Debug, PartialEq, Eq)]
pub enum HTTPAPIError {
    CommandNotFound { message: String },
    CheckInput { message: String },
    InitializeCommand { message: String },
    ReloadCommands { message: String },
    ReloadConfig { message: String },
    EmptyPassword,
    NoPasswordFile,
    SaveNewPassword { message: String },
}

/// An error of authentication. `source` in `Base64Decode` is what the
/// decoder reported.
#[derive(Debug, PartialEq, Eq)]
pub enum HTTPAuthenticationError {
    Base64Decode { data: String, source: String },
    UsernameOrPasswordIsNotSet,
    UsernameOrPasswordIsNotFound { data: String },
    UnknownMethod { method: String },
    InvalidBasicAuthentication { header_value: String },
    InvalidUsernameOrPassword,
}

/// An error that a request is turned down with.
#[derive(Debug, PartialEq, Eq)]
pub enum HTTPError {
    Authentication(HTTPAuthenticationError),
    API(HTTPAPIError),
}

impl Clone for HTTPAPIError {
    fn clone(&self) -> (r: Self)
        ensures
            r == *self,
    {
        match self {
            HTTPAPIError::CommandNotFound { message } => HTTPAPIError::CommandNotFound {
                message: message.clone(),
            },
            HTTPAPIError::CheckInput { message } => HTTPAPIError::CheckInput {
                message: message.clone(),
            },
            HTTPAPIError::InitializeCommand { message } => HTTPAPIError::InitializeCommand {
                message: message.clone(),
            },
            HTTPAPIError::ReloadCommands { message } => HTTPAPIError::ReloadCommands {
                message: message.clone(),
            },
            HTTPAPIError::ReloadConfig { message } => HTTPAPIError::ReloadConfig {
                message: message.clone(),
            },
            HTTPAPIError::EmptyPassword => HTTPAPIError::EmptyPassword,
            HTTPAPIError::NoPasswordFile => HTTPAPIError::NoPasswordFile,
            HTTPAPIError::SaveNewPassword { message } => HTTPAPIError::SaveNewPassword {
                message: message.clone(),
            },
        }
    }
}

impl Clone for HTTPAuthenticationError {
    fn clone(&self) -> (r: Self)
        ensures
            r == *self,
    {
        match self {
            HTTPAuthenticationError::Base64Decode {
                data,
                source,
            } => HTTPAuthenticationError::Base64Decode {
                data: data.clone(),
                source: source.clone(),
            },
            HTTPAuthenticationError::UsernameOrPasswordIsNotSet => HTTPAuthenticationError::UsernameOrPasswordIsNotSet,
            HTTPAuthenticationError::UsernameOrPasswordIsNotFound {
                data,
            } => HTTPAuthenticationError::UsernameOrPasswordIsNotFound { data: data.clone() },
            HTTPAuthenticationError::UnknownMethod {
                method,
            } => HTTPAuthenticationError::UnknownMethod { method: method.clone() },
            HTTPAuthenticationError::InvalidBasicAuthentication {
                header_value,
            } => HTTPAuthenticationError::InvalidBasicAuthentication {
                header_value: header_value.clone(),
            },
            HTTPAuthenticationError::InvalidUsernameOrPassword => HTTPAuthenticationError::InvalidUsernameOrPassword,
        }
    }
}

impl Clone for HTTPError {
    fn clone(&self) -> (r: Self)
        ensures
            r == *self,
    {
        match self {
            HTTPError::Authentication(e) => HTTPError::Authentication(e.clone()),
            HTTPError::API(e) => HTTPError::API(e.clone()),
        }
    }
}

impl HTTPAPIError {
    /// The numeric code that the answer carries.
    pub open spec fn error_code(&self) -> int {
        match self {
            HTTPAPIError::CommandNotFound { .. } => 1002,
            HTTPAPIError::CheckInput { .. } => 1003,
            HTTPAPIError::InitializeCommand { .. } => 1004,
            HTTPAPIError::ReloadCommands { .. } => 1005,
            HTTPAPIError::ReloadConfig { .. } => 1006,
            HTTPAPIError::EmptyPassword => 1007,
            HTTPAPIError::NoPasswordFile => 1008,
            HTTPAPIError::SaveNewPassword { .. } => 1010,
        }
    }

    /// The status that the answer carries.
    pub open spec fn status_code(&self) -> int {
        match self {
            HTTPAPIError::CommandNotFound { .. } => 404,
            HTTPAPIError::CheckInput { .. } => 400,
            HTTPAPIError::InitializeCommand { .. } => 500,
            HTTPAPIError::ReloadCommands { .. } => 500,
            HTTPAPIError::ReloadConfig { .. } => 500,
            HTTPAPIError::EmptyPassword => 400,
            HTTPAPIError::NoPasswordFile => 503,
            HTTPAPIError::SaveNewPassword { .. } => 500,
        }
    }

    /// The message that the answer carries.
    pub open spec fn message_text(&self) -> Seq<char> {
        match self {
            HTTPAPIError::CommandNotFound { message } => debug_text(message@),
            HTTPAPIError::CheckInput { message } => debug_text(message@),
            HTTPAPIError::InitializeCommand { message } => debug_text(message@),
            HTTPAPIError::ReloadCommands { message } => debug_text(message@),
            HTTPAPIError::ReloadConfig { message } => debug_text(message@),
            HTTPAPIError::EmptyPassword => "Password should not be empty"@,
            HTTPAPIError::NoPasswordFile => "Server configuration does not allow client to change the password"@,
            HTTPAPIError::SaveNewPassword { message } =>
                "Could not save new password to configured password file ("@ + debug_text(
                    message@,
                ) + ")"@,
        }
    }

    pub fn http_error_code(&self) -> (code: i32)
        ensures
            code == self.error_code(),
    {
        match self {
            HTTPAPIError::CommandNotFound { .. } => 1002,
            HTTPAPIError::CheckInput { .. } => 1003,
            HTTPAPIError::InitializeCommand { .. } => 1004,
            HTTPAPIError::ReloadCommands { .. } => 1005,
            HTTPAPIError::ReloadConfig { .. } => 1006,
            HTTPAPIError::EmptyPassword => 1007,
            HTTPAPIError::NoPasswordFile => 1008,
            HTTPAPIError::SaveNewPassword { .. } => 1010,
        }
    }

    pub fn http_status_code(&self) -> (status: u16)
        ensures
            status == self.status_code(),
    {
        match self {
            HTTPAPIError::CommandNotFound { .. } => STATUS_NOT_FOUND,
            HTTPAPIError::CheckInput { .. } => STATUS_BAD_REQUEST,
            HTTPAPIError::InitializeCommand { .. } => STATUS_INTERNAL_SERVER_ERROR,
            HTTPAPIError::ReloadCommands { .. } => STATUS_INTERNAL_SERVER_ERROR,
            HTTPAPIError::ReloadConfig { .. } => STATUS_INTERNAL_SERVER_ERROR,
            HTTPAPIError::EmptyPassword => STATUS_BAD_REQUEST,
            HTTPAPIError::NoPasswordFile => STATUS_SERVICE_UNAVAILABLE,
            HTTPAPIError::SaveNewPassword { .. } => STATUS_INTERNAL_SERVER_ERROR,
        }
    }

    /// The message of the error, as the answer carries it.
    pub fn message(&self) -> (text: String)
        ensures
            text@ == self.message_text(),
    {
        match self {
            HTTPAPIError::CommandNotFound { message } => quoted(message.as_str()),
            HTTPAPIError::CheckInput { message } => quoted(message.as_str()),
            HTTPAPIError::InitializeCommand { message } => quoted(message.as_str()),
            HTTPAPIError::ReloadCommands { message } => quoted(message.as_str()),
            HTTPAPIError::ReloadConfig { message } => quoted(message.as_str()),
            HTTPAPIError::EmptyPassword => String::from_str("Password should not be empty"),
            HTTPAPIError::NoPasswordFile => String::from_str(
                "Server configuration does not allow client to change the password",
            ),
            HTTPAPIError::SaveNewPassword { message } => {
                let detail = quoted(message.as_str());
                let mut text = joined(
                    "Could not save new password to configured password file (",
                    detail.as_str(),
                );
                text.append(")");
                text
            },
        }
    }
}

impl HTTPAuthenticationError {
    /// The numeric code that the answer carries.
    pub open spec fn error_code(&self) -> int {
        match self {
            HTTPAuthenticationError::Base64Decode { .. } => 2002,
            HTTPAuthenticationError::UsernameOrPasswordIsNotFound { .. } => 2003,
            HTTPAuthenticationError::UsernameOrPasswordIsNotSet => 2004,
            HTTPAuthenticationError::UnknownMethod { .. } => 2005,
            HTTPAuthenticationError::InvalidBasicAuthentication { .. } => 2006,
            HTTPAuthenticationError::InvalidUsernameOrPassword => 2007,
        }
    }

    /// The status that the answer carries.
    pub open spec fn status_code(&self) -> int {
        match self {
            HTTPAuthenticationError::Base64Decode { .. } => 400,
            HTTPAuthenticationError::UsernameOrPasswordIsNotFound { .. } => 401,
            HTTPAuthenticationError::UsernameOrPasswordIsNotSet => 409,
            HTTPAuthenticationError::UnknownMethod { .. } => 400,
            HTTPAuthenticationError::InvalidBasicAuthentication { .. } => 400,
            HTTPAuthenticationError::InvalidUsernameOrPassword => 401,
        }
    }

    /// The message that the answer carries.
    pub open spec fn message_text(&self) -> Seq<char> {
        match self {
            HTTPAuthenticationError::Base64Decode { data, source } =>
                "could not decode authorization header value "@ + debug_text(data@)
                    + " to base64 ("@ + source@ + ")"@,
            HTTPAuthenticationError::UsernameOrPasswordIsNotSet => "username or password is not set in server configuration"@,
            HTTPAuthenticationError::UsernameOrPasswordIsNotFound { data } =>
                "could not found username or password in "@ + debug_text(data@),
            HTTPAuthenticationError::UnknownMethod { method } => "unknown authentication method "@
                + debug_text(method@),
            HTTPAuthenticationError::InvalidBasicAuthentication { header_value } =>
                "invalid basic authentication with header value "@ + debug_text(header_value@),
            HTTPAuthenticationError::InvalidUsernameOrPassword => "invalid username or password"@,
        }
    }

    pub fn http_error_code(&self) -> (code: i32)
        ensures
            code == self.error_code(),
    {
        match self {
            HTTPAuthenticationError::Base64Decode { .. } => 2002,
            HTTPAuthenticationError::UsernameOrPasswordIsNotFound { .. } => 2003,
            HTTPAuthenticationError::UsernameOrPasswordIsNotSet => 2004,
            HTTPAuthenticationError::UnknownMethod { .. } => 2005,
            HTTPAuthenticationError::InvalidBasicAuthentication { .. } => 2006,
            HTTPAuthenticationError::InvalidUsernameOrPassword => 2007,
        }
    }

    pub fn http_status_code(&self) -> (status: u16)
        ensures
            status == self.status_code(),
    {
        match self {
            HTTPAuthenticationError::Base64Decode { .. } => STATUS_BAD_REQUEST,
            HTTPAuthenticationError::UsernameOrPasswordIsNotFound { .. } => STATUS_UNAUTHORIZED,
            HTTPAuthenticationError::UsernameOrPasswordIsNotSet => STATUS_CONFLICT,
            HTTPAuthenticationError::UnknownMethod { .. } => STATUS_BAD_REQUEST,
            HTTPAuthenticationError::InvalidBasicAuthentication { .. } => STATUS_BAD_REQUEST,
            HTTPAuthenticationError::InvalidUsernameOrPassword => STATUS_UNAUTHORIZED,
        }
    }

    /// The message of the error, as the answer carries it.
    pub fn message(&self) -> (text: String)
        ensures
            text@ == self.message_text(),
    {
        match self {
            HTTPAuthenticationError::Base64Decode { data, source } => {
                let shown = quoted(data.as_str());
                let mut text = joined(
                    "could not decode authorization header value ",
                    shown.as_str(),
                );
                text.append(" to base64 (");
                text.append(source.as_str());
                text.append(")");
                text
            },
            HTTPAuthenticationError::UsernameOrPasswordIsNotSet => String::from_str(
                "username or password is not set in server configuration",
            ),
            HTTPAuthenticationError::UsernameOrPasswordIsNotFound { data } => {
                let shown = quoted(data.as_str());
                joined("could not found username or password in ", shown.as_str())
            },
            HTTPAuthenticationError::UnknownMethod { method } => {
                let shown = quoted(method.as_str());
                joined("unknown authentication method ", shown.as_str())
            },
            HTTPAuthenticationError::InvalidBasicAuthentication { header_value } => {
                let shown = quoted(header_value.as_str());
                joined("invalid basic authentication with header value ", shown.as_str())
            },
            HTTPAuthenticationError::InvalidUsernameOrPassword => String::from_str(
                "invalid username or password",
            ),
        }
    }
}

impl HTTPError {
    /// The message of the error inside.
    pub fn message(&self) -> (text: String)
        ensures
            text@ == match self {
                HTTPError::Authentication(e) => e.message_text(),
                HTTPError::API(e) => e.message_text(),
            },
    {
        match self {
            HTTPError::Authentication(e) => e.message(),
            HTTPError::API(e) => e.message(),
        }
    }
}

/// The status that the exit code of a command is answered with: success for
/// `0`, a status of its own for each of `1` to `9`, and the status of a
/// general failure for every other code.
pub open spec fn exit_status(exit_code: int) -> int {
    if exit_code == 0 {
        200
    } else if exit_code == 1 {
        500
    } else if exit_code == 2 {
        400
    } else if exit_code == 3 {
        403
    } else if exit_code == 4 {
        404
    } else if exit_code == 5 {
        503
    } else if exit_code == 6 {
        406
    } else if exit_code == 7 {
        501
    } else if exit_code == 8 {
        409
    } else if exit_code == 9 {
        408
    } else {
        500
    }
}

/// The status that the exit code of a command is answered with.
pub fn exit_code_to_status_code(exit_code: i32) -> (status: u16)
    ensures
        status == exit_status(exit_code as int),
{
    match exit_code {
        0 => STATUS_OK,
        1 => STATUS_INTERNAL_SERVER_ERROR,
        2 => STATUS_BAD_REQUEST,
        3 => STATUS_FORBIDDEN,
        4 => STATUS_NOT_FOUND,
        5 => STATUS_SERVICE_UNAVAILABLE,
        6 => STATUS_NOT_ACCEPTABLE,
        7 => STATUS_NOT_IMPLEMENTED,
        8 => STATUS_CONFLICT,
        9 => STATUS_REQUEST_TIMEOUT,
        _ => STATUS_INTERNAL_SERVER_ERROR,
    }
}

} // verus!

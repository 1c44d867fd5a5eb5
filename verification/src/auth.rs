//! Basic authentication against the configured user, and the change of the
//! configured password.

use crate::errors::{HTTPAPIError, HTTPAuthenticationError};
use crate::response::{answer, make_api_response_ok, ApiResponse, PayloadModel};
use crate::text::{find_char, lemma_position_from, position};
use sha2::{Digest, Sha512};
use vstd::prelude::*;
use vstd::utf8::{decode_utf8, valid_utf8};

verus! {

/// What base64 decoding gives for a text: the bytes that it encodes, or the
/// decoder's report of what is wrong with it.
pub uninterp spec fn base64_decoding(text: Seq<char>) -> Result<Seq<u8>, Seq<char>>;

/// The SHA-512 digest of the UTF-8 bytes of a text, in lower-case
/// hexadecimal digits.
pub uninterp spec fn sha512_hex(text: Seq<char>) -> Seq<char>;

/// `base64::decode`: decoding with the standard alphabet and padding. The
/// result depends on the text alone. An error comes back as `{:?}` writes
/// it.
#[verifier::external_body]
fn base64_decode(text: &str) -> (r: Result<Vec<u8>, String>)
    ensures
        match r {
            Ok(bytes) => base64_decoding(text@) == Ok::<Seq<u8>, Seq<char>>(bytes@),
            Err(report) => base64_decoding(text@) == Err::<Seq<u8>, Seq<char>>(report@),
        },
{
    match base64::decode(text) {
        Ok(bytes) => Ok(bytes),
        Err(e) => Err(format!("{:?}", e)),
    }
}

/// `String::from_utf8`: the text that the bytes encode, where they are
/// valid UTF-8, and nothing where they are not.
#[verifier::external_body]
fn text_of_bytes(bytes: Vec<u8>) -> (r: Option<String>)
    ensures
        r is Some <==> valid_utf8(bytes@),
        r matches Some(text) ==> text@ == decode_utf8(bytes@),
{
    String::from_utf8(bytes).ok()
}

/// `sha2::Sha512::digest` on the bytes of the text, written by `{:x}`. The
/// result depends on the text alone.
#[verifier::external_body]
fn to_sha512(text: &str) -> (r: String)
    ensures
        r@ == sha512_hex(text@),
{
    format!("{:x}", Sha512::digest(text.as_bytes()))
}

/// How an attempt to authenticate ends.
pub enum Verdict {
    Accepted,
    Base64Decode { data: Seq<char>, source: Seq<char> },
    UsernameOrPasswordIsNotSet,
    UsernameOrPasswordIsNotFound { data: Seq<char> },
    UnknownMethod { method: Seq<char> },
    InvalidBasicAuthentication { header_value: Seq<char> },
    InvalidUsernameOrPassword,
}

/// The verdict that a result stands for.
pub open spec fn verdict_of(r: Result<(), HTTPAuthenticationError>) -> Verdict {
    match r {
        Ok(_) => Verdict::Accepted,
        Err(HTTPAuthenticationError::Base64Decode { data, source }) => Verdict::Base64Decode {
            data: data@,
            source: source@,
        },
        Err(HTTPAuthenticationError::UsernameOrPasswordIsNotSet) => Verdict::UsernameOrPasswordIsNotSet,
        Err(
            HTTPAuthenticationError::UsernameOrPasswordIsNotFound { data },
        ) => Verdict::UsernameOrPasswordIsNotFound { data: data@ },
        Err(HTTPAuthenticationError::UnknownMethod { method }) => Verdict::UnknownMethod {
            method: method@,
        },
        Err(
            HTTPAuthenticationError::InvalidBasicAuthentication { header_value },
        ) => Verdict::InvalidBasicAuthentication { header_value: header_value@ },
        Err(HTTPAuthenticationError::InvalidUsernameOrPassword) => Verdict::InvalidUsernameOrPassword,
    }
}

/// The verdict on a user name and the digest of a password: both must be
/// the configured ones.
pub open spec fn match_verdict(
    server_username: Seq<char>,
    server_password_sha512: Seq<char>,
    username: Seq<char>,
    password_sha512: Seq<char>,
) -> Verdict {
    if username == server_username && password_sha512 == server_password_sha512 {
        Verdict::Accepted
    } else {
        Verdict::InvalidUsernameOrPassword
    }
}

/// The verdict on decoded credentials: the user name stands before the
/// first `:` and the password behind it.
pub open spec fn credentials_verdict(
    server_username: Seq<char>,
    server_password_sha512: Seq<char>,
    credentials: Seq<char>,
) -> Verdict {
    match position(credentials, ':') {
        None => Verdict::UsernameOrPasswordIsNotFound { data: credentials },
        Some(at) => match_verdict(
            server_username,
            server_password_sha512,
            credentials.subrange(0, at),
            sha512_hex(credentials.subrange(at + 1, credentials.len() as int)),
        ),
    }
}

/// The verdict on what decoding the credentials `data` gave: the report of
/// the decoder where it failed, else the verdict on the text that the bytes
/// encode.
pub open spec fn payload_verdict(
    server_username: Seq<char>,
    server_password_sha512: Seq<char>,
    data: Seq<char>,
    decoded: Result<Seq<u8>, Seq<char>>,
) -> Verdict {
    match decoded {
        Err(report) => Verdict::Base64Decode { data, source: report },
        Ok(bytes) => credentials_verdict(
            server_username,
            server_password_sha512,
            decode_utf8(bytes),
        ),
    }
}

/// Whether the credentials of an `authorization` header are a text, as far
/// as they are looked at: where they are decoded, the bytes are valid UTF-8.
pub open spec fn credentials_are_text(
    server_username: Seq<char>,
    server_password_sha512: Seq<char>,
    header_value: Seq<char>,
) -> bool {
    server_password_sha512.len() > 0 && server_username.len() > 0 ==> match position(
        header_value,
        ' ',
    ) {
        None => true,
        Some(at) => header_value.subrange(0, at) == "Basic"@ ==> match base64_decoding(
            header_value.subrange(at + 1, header_value.len() as int),
        ) {
            Ok(bytes) => valid_utf8(bytes),
            Err(_) => true,
        },
    }
}

/// The verdict on an `authorization` header. Where neither a user name nor
/// a password is configured, every request is accepted; where only one of
/// them is, none. The header holds a method and, behind the first space,
/// the credentials; the method must be `Basic`.
pub open spec fn authentication(
    server_username: Seq<char>,
    server_password_sha512: Seq<char>,
    header_value: Seq<char>,
) -> Verdict {
    if server_password_sha512.len() == 0 && server_username.len() == 0 {
        Verdict::Accepted
    } else if server_password_sha512.len() == 0 || server_username.len() == 0 {
        Verdict::UsernameOrPasswordIsNotSet
    } else {
        match position(header_value, ' ') {
            None => Verdict::InvalidBasicAuthentication { header_value },
            Some(at) => if header_value.subrange(0, at) == "Basic"@ {
                payload_verdict(
                    server_username,
                    server_password_sha512,
                    header_value.subrange(at + 1, header_value.len() as int),
                    base64_decoding(header_value.subrange(at + 1, header_value.len() as int)),
                )
            } else {
                Verdict::UnknownMethod { method: header_value.subrange(0, at) }
            },
        }
    }
}

/// Holds a user name and the digest of a password against the configured
/// ones.
pub fn match_credentials(
    server_username: &String,
    server_password_sha512: &String,
    username: &String,
    password_sha512: &String,
) -> (r: Result<(), HTTPAuthenticationError>)
    ensures
        verdict_of(r) == match_verdict(
            server_username@,
            server_password_sha512@,
            username@,
            password_sha512@,
        ),
{
    if *username == *server_username && *password_sha512 == *server_password_sha512 {
        Ok(())
    } else {
        Err(HTTPAuthenticationError::InvalidUsernameOrPassword)
    }
}

/// Judges decoded credentials of the form `username:password`.
pub fn check_credentials(
    server_username: &String,
    server_password_sha512: &String,
    credentials: &str,
) -> (r: Result<(), HTTPAuthenticationError>)
    ensures
        verdict_of(r) == credentials_verdict(
            server_username@,
            server_password_sha512@,
            credentials@,
        ),
{
    match find_char(credentials, ':') {
        None => Err(
            HTTPAuthenticationError::UsernameOrPasswordIsNotFound {
                data: String::from_str(credentials),
            },
        ),
        Some(at) => {
            proof {
                lemma_position_from(credentials@, ':', 0);
            }
            let n: usize = credentials.unicode_len();
            let username = String::from_str(credentials.substring_char(0, at));
            let password = credentials.substring_char(at + 1, n);
            let password_sha512 = to_sha512(password);
            match_credentials(server_username, server_password_sha512, &username, &password_sha512)
        },
    }
}

/// Judges what decoding the credentials `data` gave. Bytes that came out
/// of the decoder must be valid UTF-8.
pub fn check_payload(
    server_username: &String,
    server_password_sha512: &String,
    data: &str,
    decoded: Result<Vec<u8>, String>,
) -> (r: Result<(), HTTPAuthenticationError>)
    requires
        decoded matches Ok(bytes) ==> valid_utf8(bytes@),
    ensures
        verdict_of(r) == payload_verdict(
            server_username@,
            server_password_sha512@,
            data@,
            match decoded {
                Ok(bytes) => Ok(bytes@),
                Err(report) => Err(report@),
            },
        ),
{
    match decoded {
        Err(report) => Err(
            HTTPAuthenticationError::Base64Decode { data: String::from_str(data), source: report },
        ),
        Ok(bytes) => match text_of_bytes(bytes) {
            Some(credentials) => check_credentials(
                server_username,
                server_password_sha512,
                credentials.as_str(),
            ),
            None => unreached(),
        },
    }
}

/// Judges the `authorization` header of a request against the configured
/// user name and the configured digest of the password. Credentials that
/// are decoded must be a text.
pub fn try_authenticate(
    server_username: &String,
    server_password_sha512: &String,
    authorization_value: &String,
) -> (r: Result<(), HTTPAuthenticationError>)
    requires
        credentials_are_text(server_username@, server_password_sha512@, authorization_value@),
    ensures
        verdict_of(r) == authentication(
            server_username@,
            server_password_sha512@,
            authorization_value@,
        ),
{
    let no_password = server_password_sha512.as_str().is_empty();
    let no_username = server_username.as_str().is_empty();
    if no_password && no_username {
        return Ok(());
    }
    if no_password || no_username {
        return Err(HTTPAuthenticationError::UsernameOrPasswordIsNotSet);
    }
    let header = authorization_value.as_str();
    match find_char(header, ' ') {
        None => Err(
            HTTPAuthenticationError::InvalidBasicAuthentication {
                header_value: authorization_value.clone(),
            },
        ),
        Some(at) => {
            proof {
                lemma_position_from(header@, ' ', 0);
            }
            let n: usize = header.unicode_len();
            let method = String::from_str(header.substring_char(0, at));
            if method == String::from_str("Basic") {
                let data = header.substring_char(at + 1, n);
                let decoded = base64_decode(data);
                check_payload(server_username, server_password_sha512, data, decoded)
            } else {
                Err(HTTPAuthenticationError::UnknownMethod { method })
            }
        },
    }
}

/// Whether the credentials of an `authorization` header are a text, as far
/// as judging the header looks at them.
pub fn has_text_credentials(
    server_username: &String,
    server_password_sha512: &String,
    authorization_value: &String,
) -> (r: bool)
    ensures
        r == credentials_are_text(
            server_username@,
            server_password_sha512@,
            authorization_value@,
        ),
{
    if server_password_sha512.as_str().is_empty() || server_username.as_str().is_empty() {
        return true;
    }
    let header = authorization_value.as_str();
    match find_char(header, ' ') {
        None => true,
        Some(at) => {
            proof {
                lemma_position_from(header@, ' ', 0);
            }
            let n: usize = header.unicode_len();
            let method = String::from_str(header.substring_char(0, at));
            if method == String::from_str("Basic") {
                match base64_decode(header.substring_char(at + 1, n)) {
                    Ok(bytes) => text_of_bytes(bytes).is_some(),
                    Err(_) => true,
                }
            } else {
                true
            }
        },
    }
}

/// Judges the `authorization` header of a request, whatever it holds:
/// there is no verdict where its credentials decode to bytes that are no
/// text, and the verdict of `try_authenticate` everywhere else.
pub fn authenticate(
    server_username: &String,
    server_password_sha512: &String,
    authorization_value: &String,
) -> (r: Option<Result<(), HTTPAuthenticationError>>)
    ensures
        match r {
            Some(outcome) => credentials_are_text(
                server_username@,
                server_password_sha512@,
                authorization_value@,
            ) && verdict_of(outcome) == authentication(
                server_username@,
                server_password_sha512@,
                authorization_value@,
            ),
            None => !credentials_are_text(
                server_username@,
                server_password_sha512@,
                authorization_value@,
            ),
        },
{
    if has_text_credentials(server_username, server_password_sha512, authorization_value) {
        Some(try_authenticate(server_username, server_password_sha512, authorization_value))
    } else {
        None
    }
}

/// The digest to save for a new password. An empty password is turned
/// down, and so is every password where no password file is configured.
pub fn new_password_hash(password: &String, password_file: &String) -> (r: Result<
    String,
    HTTPAPIError,
>)
    ensures
        password@.len() == 0 ==> r == Err::<String, HTTPAPIError>(HTTPAPIError::EmptyPassword),
        password@.len() > 0 && password_file@.len() == 0 ==> r == Err::<String, HTTPAPIError>(
            HTTPAPIError::NoPasswordFile,
        ),
        password@.len() > 0 && password_file@.len() > 0 ==> (r matches Ok(digest) && digest@
            == sha512_hex(password@)),
{
    if password.as_str().is_empty() {
        return Err(HTTPAPIError::EmptyPassword);
    }
    if password_file.as_str().is_empty() {
        return Err(HTTPAPIError::NoPasswordFile);
    }
    Ok(to_sha512(password.as_str()))
}

/// The answer to a change of the password, from what writing the password
/// file gave: all is well where it was written, and `SaveNewPassword` with
/// the reason where it was not.
pub fn password_saved(written: Result<(), String>) -> (r: Result<ApiResponse, HTTPAPIError>)
    ensures
        match written {
            Ok(_) => r matches Ok(response) && response@ == answer(
                PayloadModel::Absent,
                200,
                Seq::empty(),
                None,
                None,
            ),
            Err(reason) => r == Err::<ApiResponse, HTTPAPIError>(
                HTTPAPIError::SaveNewPassword { message: reason },
            ),
        },
{
    match written {
        Ok(_) => Ok(make_api_response_ok()),
        Err(reason) => Err(HTTPAPIError::SaveNewPassword { message: reason }),
    }
}

} // verus!

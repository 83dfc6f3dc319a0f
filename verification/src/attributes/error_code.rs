//! The error-code attribute: two reserved zero bytes, a class byte whose low
//! three bits hold the hundreds digit, a number byte for the remainder, then
//! a UTF-8 reason phrase. Only a closed set of codes is recognized.

use vstd::prelude::*;
use vstd::slice::slice_subrange;
use vstd::slice::slice_to_vec;
use vstd::string::StrSliceExecFns;
use vstd::utf8::decode_utf8;
use vstd::utf8::encode_utf8;
use vstd::utf8::valid_utf8;

use crate::attributes::string_from_utf8;
use crate::header::MessageHeader;

verus! {

/// The closed set of recognized error codes.
#[derive(Clone, Copy, PartialEq, Eq, Structural, Debug)]
pub enum ErrorCodeType {
    /// 300
    TryAlternate,
    /// 400
    BadRequest,
    /// 401
    Unauthorised,
    /// 420
    UnknownAttribute,
    /// 438
    StaleNonce,
    /// 500
    ServerError,
}

/// A numeric error code with its reason phrase.
pub struct ErrorCode {
    code: Option<ErrorCodeType>,
    message: Option<String>,
}

/// Mathematical model of an error-code attribute.
#[verifier::ext_equal]
pub struct ErrorCodeView {
    pub code: Option<ErrorCodeType>,
    pub message: Option<Seq<char>>,
}

impl View for ErrorCode {
    type V = ErrorCodeView;

    closed spec fn view(&self) -> ErrorCodeView {
        ErrorCodeView {
            code: self.code,
            message: match self.message {
                Some(m) => Some(m@),
                None => None,
            },
        }
    }
}

/// The three-digit value of a recognized error code.
pub open spec fn error_code_value(t: ErrorCodeType) -> u16 {
    match t {
        ErrorCodeType::TryAlternate => 300,
        ErrorCodeType::BadRequest => 400,
        ErrorCodeType::Unauthorised => 401,
        ErrorCodeType::UnknownAttribute => 420,
        ErrorCodeType::StaleNonce => 438,
        ErrorCodeType::ServerError => 500,
    }
}

/// The recognized error code of a three-digit value, if any.
pub open spec fn error_type_of_code(code: u16) -> Option<ErrorCodeType> {
    if code == 300 {
        Some(ErrorCodeType::TryAlternate)
    } else if code == 400 {
        Some(ErrorCodeType::BadRequest)
    } else if code == 401 {
        Some(ErrorCodeType::Unauthorised)
    } else if code == 420 {
        Some(ErrorCodeType::UnknownAttribute)
    } else if code == 438 {
        Some(ErrorCodeType::StaleNonce)
    } else if code == 500 {
        Some(ErrorCodeType::ServerError)
    } else {
        None
    }
}

/// Wire bytes of an error code: reserved bytes, class, number, reason phrase.
pub open spec fn encode_error_code(t: ErrorCodeType, message: Seq<char>) -> Seq<u8> {
    seq![0u8, 0u8, (error_code_value(t) / 100) as u8, (error_code_value(t) % 100) as u8]
        + encode_utf8(message)
}

/// Decoded error code: at least the four fixed bytes, a code from the
/// recognized set, and a valid UTF-8 reason phrase.
pub open spec fn decode_error_code(body: Seq<u8>) -> Option<ErrorCodeView> {
    if body.len() < 4 {
        None
    } else {
        let code = (100 * ((body[2] & 7) as int) + (body[3] as int) % 100) as u16;
        match error_type_of_code(code) {
            None => None,
            Some(t) => if valid_utf8(body.skip(4)) {
                Some(
                    ErrorCodeView {
                        code: Some(t),
                        message: Some(decode_utf8(body.skip(4))),
                    },
                )
            } else {
                None
            },
        }
    }
}

impl ErrorCode {
    /// An attribute holding the given code and reason phrase. A value
    /// outside the recognized set leaves the code unset.
    pub fn with_code(code: u16, message: String) -> (r: ErrorCode)
        ensures
            r@.code == error_type_of_code(code),
            r@.message == Some(message@),
    {
        let code = match code {
            300 => Some(ErrorCodeType::TryAlternate),
            400 => Some(ErrorCodeType::BadRequest),
            401 => Some(ErrorCodeType::Unauthorised),
            420 => Some(ErrorCodeType::UnknownAttribute),
            438 => Some(ErrorCodeType::StaleNonce),
            500 => Some(ErrorCodeType::ServerError),
            _ => None,
        };
        ErrorCode { code, message: Some(message) }
    }

    /// An attribute with no value yet; encoding omits it.
    pub fn new() -> (r: ErrorCode)
        ensures
            r@ == (ErrorCodeView { code: None, message: None }),
    {
        ErrorCode { code: None, message: None }
    }

    /// Encodes the held code and phrase, or nothing while either is unset.
    pub fn serialise(&self) -> (r: Option<Vec<u8>>)
        ensures
            match (self@.code, self@.message) {
                (Some(t), Some(m)) => r matches Some(v) && v@ == encode_error_code(t, m),
                _ => r is None,
            },
    {
        let code: u16 = match self.code {
            Some(ErrorCodeType::TryAlternate) => 300,
            Some(ErrorCodeType::BadRequest) => 400,
            Some(ErrorCodeType::Unauthorised) => 401,
            Some(ErrorCodeType::UnknownAttribute) => 420,
            Some(ErrorCodeType::StaleNonce) => 438,
            Some(ErrorCodeType::ServerError) => 500,
            None => {
                return None;
            },
        };
        let class: u8 = (code / 100) as u8;
        let error_number: u8 = (code % 100) as u8;
        let message = match &self.message {
            Some(message) => message,
            None => {
                return None;
            },
        };
        let mut buf: Vec<u8> = Vec::new();
        buf.push(0);
        buf.push(0);
        buf.push(class);
        buf.push(error_number);
        let mut message_bytes = slice_to_vec(message.as_str().as_bytes());
        buf.append(&mut message_bytes);
        assert(buf@ =~= encode_error_code(self@.code->Some_0, self@.message->Some_0));
        Some(buf)
    }

    /// The held code, if set.
    pub fn code(&self) -> (r: Option<ErrorCodeType>)
        ensures
            r == self@.code,
    {
        self.code
    }

    /// The held reason phrase, if set.
    pub fn message(&self) -> (r: Option<&String>)
        ensures
            match r {
                Some(m) => self@.message == Some(m@),
                None => self@.message is None,
            },
    {
        self.message.as_ref()
    }

    /// Decodes an error-code body. On failure the attribute is unchanged.
    pub fn deserialise(&mut self, body: &[u8], _header: &MessageHeader) -> (r: Result<(), ()>)
        ensures
            r is Ok <==> decode_error_code(body@) is Some,
            r is Ok ==> decode_error_code(body@) == Some(final(self)@),
            r is Err ==> *final(self) == *old(self),
    {
        if body.len() < 4 {
            return Err(());
        }
        let class: u8 = body[2] & 0b00000111;
        let code: u16 = (class as u16) * 100 + (body[3] as u16) % 100;
        let error_code = match code {
            300 => ErrorCodeType::TryAlternate,
            400 => ErrorCodeType::BadRequest,
            401 => ErrorCodeType::Unauthorised,
            420 => ErrorCodeType::UnknownAttribute,
            438 => ErrorCodeType::StaleNonce,
            500 => ErrorCodeType::ServerError,
            _ => {
                return Err(());
            },
        };
        let message_bytes = slice_subrange(body, 4, body.len());
        assert(message_bytes@ =~= body@.skip(4));
        match string_from_utf8(slice_to_vec(message_bytes)) {
            Some(message) => {
                self.code = Some(error_code);
                self.message = Some(message);
                Ok(())
            },
            None => Err(()),
        }
    }
}

} // verus!

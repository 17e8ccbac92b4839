use vstd::prelude::*;
use vstd::utf8::encode_utf8;
use vstd::string::{is_ascii, is_ascii_spec_bytes, StringSliceAdditionalSpecFns};
use crate::error::BridgeError;
use crate::wire::{be32, error_to_bytes, untagged_response, STATUS_ERROR, STATUS_NONE};

verus! {

/// The longest message text of an error.
pub const MESSAGE_LIMIT: usize = 64;

/// An ASCII literal of at most `MESSAGE_LIMIT` bytes.
proof fn lemma_short_ascii(s: &str)
    requires
        is_ascii(s),
        s@.len() <= MESSAGE_LIMIT,
    ensures
        s.spec_bytes().len() <= MESSAGE_LIMIT,
{
    broadcast use is_ascii_spec_bytes;

}

impl BridgeError {
    /// The text that the host is shown for the error.
    pub open spec fn spec_message(self) -> Seq<char> {
        match self {
            BridgeError::TruncatedInput => "input shorter than its fixed layout"@,
            BridgeError::DecodeError => "malformed beatmap or collection data"@,
            BridgeError::InvalidHandle => "invalid or released handle"@,
            BridgeError::MissingScoreState => "no score"@,
            BridgeError::Exhausted => "gradual calculation exhausted"@,
            BridgeError::IndexOutOfRange => "index out of range"@,
            BridgeError::InternalError => "internal error"@,
        }
    }

    /// The text that the host is shown for the error.
    pub fn message(&self) -> (r: &'static str)
        ensures
            r@ == self.spec_message(),
            r.spec_bytes().len() <= MESSAGE_LIMIT,
    {
        match self {
            BridgeError::TruncatedInput => {
                proof {
                    reveal_strlit("input shorter than its fixed layout");
                    lemma_short_ascii("input shorter than its fixed layout");
                }
                "input shorter than its fixed layout"
            },
            BridgeError::DecodeError => {
                proof {
                    reveal_strlit("malformed beatmap or collection data");
                    lemma_short_ascii("malformed beatmap or collection data");
                }
                "malformed beatmap or collection data"
            },
            BridgeError::InvalidHandle => {
                proof {
                    reveal_strlit("invalid or released handle");
                    lemma_short_ascii("invalid or released handle");
                }
                "invalid or released handle"
            },
            BridgeError::MissingScoreState => {
                proof {
                    reveal_strlit("no score");
                    lemma_short_ascii("no score");
                }
                "no score"
            },
            BridgeError::Exhausted => {
                proof {
                    reveal_strlit("gradual calculation exhausted");
                    lemma_short_ascii("gradual calculation exhausted");
                }
                "gradual calculation exhausted"
            },
            BridgeError::IndexOutOfRange => {
                proof {
                    reveal_strlit("index out of range");
                    lemma_short_ascii("index out of range");
                }
                "index out of range"
            },
            BridgeError::InternalError => {
                proof {
                    reveal_strlit("internal error");
                    lemma_short_ascii("internal error");
                }
                "internal error"
            },
        }
    }
}

/// The bytes of an error response: the error tag, the length of the message's
/// UTF-8 bytes, then those bytes.
pub open spec fn spec_error_wire(e: BridgeError) -> Seq<u8> {
    seq![STATUS_ERROR] + be32(encode_utf8(e.spec_message()).len() as u32) + encode_utf8(
        e.spec_message(),
    )
}

/// The error response for `e`: the error tag, then its message.
pub fn error_response(e: BridgeError) -> (r: Vec<u8>)
    ensures
        r@ == spec_error_wire(e),
{
    let m = e.message();
    error_to_bytes(m)
}

/// The response to an operation whose payload starts with its own tag: the payload,
/// or the error response.
pub fn respond(r: Result<Vec<u8>, BridgeError>) -> (out: Vec<u8>)
    ensures
        r matches Ok(b) ==> out == b,
        r matches Err(e) ==> out@ == spec_error_wire(e),
{
    match r {
        Ok(b) => b,
        Err(e) => error_response(e),
    }
}

/// The response to an operation whose payload has no tag: `STATUS_NONE` then the
/// payload, or the error response.
pub fn respond_untagged(r: Result<Vec<u8>, BridgeError>) -> (out: Vec<u8>)
    ensures
        r matches Ok(b) ==> out@ == seq![STATUS_NONE] + b@,
        r matches Err(e) ==> out@ == spec_error_wire(e),
{
    match r {
        Ok(b) => untagged_response(b.as_slice()),
        Err(e) => error_response(e),
    }
}

/// The response to an operation with nothing to return: a lone `STATUS_NONE`, or
/// the error response.
pub fn respond_unit(r: Result<(), BridgeError>) -> (out: Vec<u8>)
    ensures
        r is Ok ==> out@ == seq![STATUS_NONE],
        r matches Err(e) ==> out@ == spec_error_wire(e),
{
    match r {
        Ok(()) => {
            let mut out: Vec<u8> = Vec::new();
            out.push(STATUS_NONE);
            assert(out@ =~= seq![STATUS_NONE]);
            out
        },
        Err(e) => error_response(e),
    }
}

} // verus!

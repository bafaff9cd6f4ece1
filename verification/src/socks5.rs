//! The SOCKS5 client handshake: which method is offered, and how upstream's
//! answers are judged. How the messages are laid out in bytes is left to
//! whoever sends and reads them.

use vstd::prelude::*;

use crate::error::BridgeError;

verus! {

/// The method byte that stands for "no authentication required".
pub const AUTH_METHOD_NONE: u8 = 0x00;

/// The reply code that reports a successful connect.
pub const REPLY_SUCCEEDED: u8 = 0x00;

/// The methods that the greeting offers: exactly one, "no authentication".
pub open spec fn offer() -> Seq<u8> {
    seq![AUTH_METHOD_NONE]
}

/// Builds the list of methods that the greeting offers.
pub fn offered_methods() -> (methods: Vec<u8>)
    ensures
        methods@ == offer(),
{
    let mut methods: Vec<u8> = Vec::new();
    methods.push(AUTH_METHOD_NONE);
    methods
}

/// The verdict on the method that upstream chose: only "no authentication"
/// is accepted, since no other method is implemented.
pub open spec fn method_verdict(chosen: u8) -> Result<(), BridgeError> {
    if chosen == AUTH_METHOD_NONE {
        Ok(())
    } else {
        Err(BridgeError::UnsupportedAuthMethod { method: chosen })
    }
}

/// Judges the method that upstream chose.
pub fn judge_method(chosen: u8) -> (result: Result<(), BridgeError>)
    ensures
        result == method_verdict(chosen),
{
    if chosen == AUTH_METHOD_NONE {
        Ok(())
    } else {
        Err(BridgeError::UnsupportedAuthMethod { method: chosen })
    }
}

/// The verdict on the reply to the connect request: only "succeeded" opens
/// the tunnel, and any other code is handed on as it came.
pub open spec fn reply_verdict(reply: u8) -> Result<(), BridgeError> {
    if reply == REPLY_SUCCEEDED {
        Ok(())
    } else {
        Err(BridgeError::UpstreamRefused { code: reply as u16 })
    }
}

/// Judges the reply to the connect request.
pub fn judge_reply(reply: u8) -> (result: Result<(), BridgeError>)
    ensures
        result == reply_verdict(reply),
{
    if reply == REPLY_SUCCEEDED {
        Ok(())
    } else {
        Err(BridgeError::UpstreamRefused { code: reply as u16 })
    }
}

} // verus!

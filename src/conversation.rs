//! The interface through which PAM asks questions and reports messages.

use crate::code::ReturnCode;
use vstd::prelude::*;

verus! {

/// A way of answering PAM's questions: at a terminal, from a script, in a
/// window, and so on. PAM calls these methods in any order and any number
/// of times during one transaction.
pub trait ConversationHandler {
    /// Called when a transaction starts, with the default username if
    /// there is one.
    fn init(&mut self, default_user: Option<&str>);

    /// Answers a non-secret question, or fails with `CONV_ERR`.
    fn prompt_echo_on(&mut self, msg: &str) -> (r: Result<String, ReturnCode>)
        ensures
            r matches Err(c) ==> c == ReturnCode::CONV_ERR,
    ;

    /// Answers a secret question, or fails with `CONV_ERR`.
    fn prompt_echo_off(&mut self, msg: &str) -> (r: Result<String, ReturnCode>)
        ensures
            r matches Err(c) ==> c == ReturnCode::CONV_ERR,
    ;

    /// Receives an informational message.
    fn text_info(&mut self, msg: &str);

    /// Receives an error message.
    fn error_msg(&mut self, msg: &str);

    /// Answers a yes/no question.
    fn radio_prompt(&mut self, msg: &str) -> Result<bool, ReturnCode>;

    /// Exchanges opaque binary data of a given kind.
    fn binary_prompt(&mut self, kind: u8, data: &[u8]) -> Result<(u8, Vec<u8>), ReturnCode>;
}

} // verus!

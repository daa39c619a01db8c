//! The request half of the agentic-analysis exchange, carried as a payload
//! once a request has been authenticated. The response half carries a
//! floating-point risk score and lives with the application layer.

use crate::advisor_todos_backend::AdviceTypeBackend;
use crate::hashing::{blake3_hex, blake3_of, push_le_bytes_u32, push_str_bytes};
use crate::hexcode::hex_chars_of;
use vstd::prelude::*;
use vstd::utf8::encode_utf8;
use crate::hashing::le_bytes_of_u32;

verus! {

#[derive(Debug, Clone)]
pub struct AgenticAnalysisRequestBackend {
    /// The pre-constructed prompt to send to the LLM
    /// This must include the make_decision tool call.
    pub prompt: String,
    /// The system prompt to send to the LLM
    pub system_prompt: String,
    /// Maximum tokens for the response
    pub max_tokens: u32,
    /// Type of analysis to perform
    pub analysis_type: AdviceTypeBackend,
}

/// The bytes whose BLAKE3 hash identifies an analysis request: the prompt,
/// then the token budget as four little-endian bytes.
pub open spec fn agentic_request_uid_input(a: AgenticAnalysisRequestBackend) -> Seq<u8> {
    encode_utf8(a.prompt@) + le_bytes_of_u32(a.max_tokens)
}

impl AgenticAnalysisRequestBackend {
    /// A stable identifier for the request: the BLAKE3 hash of
    /// [`agentic_request_uid_input`], in lowercase hexadecimal.
    pub fn uid(&self) -> (r: String)
        ensures
            r@ == hex_chars_of(blake3_of(agentic_request_uid_input(*self))),
    {
        let mut buf: Vec<u8> = Vec::new();
        push_str_bytes(&mut buf, self.prompt.as_str());
        push_le_bytes_u32(&mut buf, self.max_tokens);
        proof {
            assert(buf@ =~= agentic_request_uid_input(*self));
        }
        blake3_hex(buf.as_slice())
    }
}

} // verus!

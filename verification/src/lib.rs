use vstd::prelude::*;
use vstd::string::StringSliceAdditionalSpecFns;

pub mod alarm;
pub mod constants;
pub mod route;
pub mod telegram;

use crate::constants::PAYLOAD_ON;

verus! {

/// Reads an MQTT payload as a switch state: only the exact bytes of `ON`
/// mean on (case matters, nothing may follow).
pub fn parse_on_off(input: &[u8]) -> (on: bool)
    ensures
        on <==> input@ == PAYLOAD_ON.spec_bytes(),
{
    route::bytes_equal(input, PAYLOAD_ON.as_bytes())
}

/// The payload that means on is the two ASCII bytes `O`, `N`.
pub proof fn lemma_on_payload_bytes()
    ensures
        PAYLOAD_ON.spec_bytes() == seq![0x4Fu8, 0x4Eu8],
{
    reveal_strlit("ON");
    vstd::utf8::is_ascii_chars_encode_utf8(PAYLOAD_ON@);
    assert(PAYLOAD_ON.spec_bytes() =~= seq![0x4Fu8, 0x4Eu8]);
}

} // verus!

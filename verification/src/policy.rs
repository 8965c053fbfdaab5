//! Uploaded policies: a policy arrives as standard base64 of its WebAssembly
//! module, which is decoded here before it is stored.
use base64::Engine;
use vstd::prelude::*;
use vstd::string::*;
use crate::text::owned;

verus! {

/// What `base64::engine::general_purpose::STANDARD.decode` gives for these
/// bytes: the decoded bytes, or the text of its `DecodeError`.
pub uninterp spec fn b64_standard(s: Seq<u8>) -> Result<Seq<u8>, Seq<char>>;

/// `base64::engine::general_purpose::STANDARD.decode` (base64 0.22.1); the
/// contract claims only that its outcome is the one `b64_standard` names for
/// the same bytes, the error taken by its `Display` text. Which inputs decode,
/// and to what, is the crate's standard alphabet with padding, left unsaid.
#[verifier::external_body]
fn b64_standard_decode(s: &[u8]) -> (r: Result<Vec<u8>, String>)
    ensures
        r matches Ok(v) ==> (b64_standard(s@) matches Ok(d) && d == v@),
        r matches Err(m) ==> (b64_standard(s@) matches Err(t) && t == m@),
{
    match base64::engine::general_purpose::STANDARD.decode(s) {
        Ok(v) => Ok(v),
        Err(e) => Err(e.to_string()),
    }
}

/// The outcome of decoding an uploaded policy module: its bytes, or the
/// refusal `invalid base64 wasm: <reason>`.
pub open spec fn policy_wasm(wasm_base64: Seq<u8>) -> Result<Seq<u8>, Seq<char>> {
    match b64_standard(wasm_base64) {
        Ok(v) => Ok(v),
        Err(t) => Err("invalid base64 wasm: "@ + t),
    }
}

/// Decodes the `wasm_base64` field of a policy upload; see `policy_wasm`.
pub fn decode_policy_wasm(wasm_base64: &str) -> (r: Result<Vec<u8>, String>)
    ensures
        r matches Ok(v) ==> policy_wasm(wasm_base64.spec_bytes()) == Ok::<Seq<u8>, Seq<char>>(v@),
        r matches Err(m) ==> policy_wasm(wasm_base64.spec_bytes()) == Err::<Seq<u8>, Seq<char>>(m@),
{
    match b64_standard_decode(wasm_base64.as_bytes()) {
        Ok(v) => Ok(v),
        Err(reason) => {
            let mut m = owned("invalid base64 wasm: ");
            m.append(reason.as_str());
            proof {
                reveal_strlit("invalid base64 wasm: ");
            }
            Err(m)
        },
    }
}

/// The file an uploaded policy named `name` is stored in: `<name>.wasm`.
pub fn policy_file_name(name: &str) -> (f: String)
    ensures
        f@ == name@ + ".wasm"@,
{
    let mut f = owned(name);
    f.append(".wasm");
    proof {
        reveal_strlit(".wasm");
    }
    f
}

} // verus!

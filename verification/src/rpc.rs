//! JSON-RPC structural rules.
//!
//! The gateway validates the shape of every decrypted request before it is
//! considered for forwarding; the wallet-facing listener recognizes a fixed
//! set of methods and answers unknown ones with a JSON-RPC error object;
//! the client checks that what came back through the tunnel is shaped like
//! a JSON-RPC response.

use vstd::prelude::*;
use vstd::string::{StrSliceExecFns, StringSliceAdditionalSpecFns};
use crate::json::{jsonrpc_field_of, method_field_of, rpc_response_shaped};
use crate::json::{json_jsonrpc_field, json_method_field, json_rpc_response_shaped};

verus! {

/// Whether two string slices hold the same characters.
pub fn str_eq(a: &str, b: &str) -> (r: bool)
    ensures
        r == (a@ == b@),
{
    let sa = a.to_owned();
    let sb = b.to_owned();
    sa == sb
}

/// The longest method name the gateway accepts.
pub const MAX_METHOD_LEN: usize = 100;

/// A structurally valid JSON-RPC request: `jsonrpc` is `"2.0"`, and
/// `method` is a non-empty string of at most 100 characters that does not
/// start with an underscore.
pub open spec fn request_valid(s: Seq<u8>) -> bool {
    &&& jsonrpc_field_of(s) == Some("2.0"@)
    &&& (method_field_of(s) matches Some(m) && 0 < m.len() <= MAX_METHOD_LEN && m[0] != '_')
}

/// The gateway's structural validation of a decrypted request document.
pub fn validate_request(json: &Vec<u8>) -> (r: bool)
    ensures
        r == request_valid(json@),
{
    let jsonrpc_ok = match json_jsonrpc_field(json.as_slice()) {
        Some(v) => str_eq(v.as_str(), "2.0"),
        None => false,
    };
    if !jsonrpc_ok {
        return false;
    }
    match json_method_field(json.as_slice()) {
        Some(m) => {
            let len = m.as_str().unicode_len();
            if len == 0 || len > MAX_METHOD_LEN {
                false
            } else {
                m.as_str().get_char(0) != '_'
            }
        },
        None => false,
    }
}

/// Whether the recovered bytes are shaped like a JSON-RPC response: a JSON
/// object holding at least one of `jsonrpc`, `result` or `error`.
pub fn validate_response(json: &Vec<u8>) -> (r: bool)
    ensures
        r == rpc_response_shaped(json@),
{
    json_rpc_response_shaped(json.as_slice())
}

/// The methods the wallet-facing listener forwards into the tunnel.
pub open spec fn method_supported(m: Seq<char>) -> bool {
    ||| m == "eth_call"@
    ||| m == "eth_getBalance"@
    ||| m == "eth_blockNumber"@
    ||| m == "eth_sendRawTransaction"@
    ||| m == "eth_getTransactionReceipt"@
}

/// Whether the wallet-facing listener supports a method.
pub fn is_supported_method(method: &str) -> (r: bool)
    ensures
        r == method_supported(method@),
{
    str_eq(method, "eth_call") || str_eq(method, "eth_getBalance") || str_eq(
        method,
        "eth_blockNumber",
    ) || str_eq(method, "eth_sendRawTransaction") || str_eq(method, "eth_getTransactionReceipt")
}

/// The bytes of a JSON-RPC error object with the given code, message and
/// request id.
pub open spec fn rpc_error_bytes(code: Seq<u8>, message: Seq<u8>, id: Seq<u8>) -> Seq<u8> {
    "{\"jsonrpc\":\"2.0\",\"error\":{\"code\":".spec_bytes() + code
        + ",\"message\":\"".spec_bytes() + message + "\"},\"id\":".spec_bytes() + id
        + "}".spec_bytes()
}

/// Append all of `src` to `dst`.
pub fn push_bytes(dst: &mut Vec<u8>, src: &Vec<u8>)
    ensures
        final(dst)@ == old(dst)@ + src@,
{
    let mut i: usize = 0;
    while i < src.len()
        invariant
            i <= src@.len(),
            dst@ == old(dst)@ + src@.take(i as int),
        decreases src@.len() - i,
    {
        dst.push(src[i]);
        i += 1;
    }
    assert(dst@ =~= old(dst)@ + src@);
}

/// A JSON-RPC error object, built byte for byte.
pub fn rpc_error_response(code: &str, message: &Vec<u8>, id: &Vec<u8>) -> (r: Vec<u8>)
    ensures
        r@ == rpc_error_bytes(code.spec_bytes(), message@, id@),
{
    let mut out = "{\"jsonrpc\":\"2.0\",\"error\":{\"code\":".as_bytes_vec();
    push_bytes(&mut out, &code.as_bytes_vec());
    push_bytes(&mut out, &",\"message\":\"".as_bytes_vec());
    push_bytes(&mut out, message);
    push_bytes(&mut out, &"\"},\"id\":".as_bytes_vec());
    push_bytes(&mut out, id);
    push_bytes(&mut out, &"}".as_bytes_vec());
    assert(out@ =~= rpc_error_bytes(code.spec_bytes(), message@, id@));
    out
}

/// The `-32601` response the wallet-facing listener returns for a method
/// it does not support.
pub fn method_not_supported_response(method: &str, id: &Vec<u8>) -> (r: Vec<u8>)
    ensures
        r@ == rpc_error_bytes(
            "-32601".spec_bytes(),
            "Method not supported: ".spec_bytes() + method.spec_bytes(),
            id@,
        ),
{
    let mut message = "Method not supported: ".as_bytes_vec();
    push_bytes(&mut message, &method.as_bytes_vec());
    rpc_error_response("-32601", &message, id)
}

/// The generic `-32603` response the client surfaces when the tunnel
/// fails; it never carries internal error detail.
pub fn internal_error_response(id: &Vec<u8>) -> (r: Vec<u8>)
    ensures
        r@ == rpc_error_bytes("-32603".spec_bytes(), "Internal error".spec_bytes(), id@),
{
    rpc_error_response("-32603", &"Internal error".as_bytes_vec(), id)
}

} // verus!

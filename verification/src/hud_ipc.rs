//! Dual-protocol IPC to the HUD server: gRPC first, UDP JSON datagrams as the
//! fallback. This module frames the datagrams, builds the loopback addresses,
//! and decides which transport carries a message; sockets live in the
//! application around the library.

use vstd::prelude::*;
use vstd::string::*;
use crate::text::{decimal, digit_char, push_decimal};

verus! {

/// Lower-case hexadecimal digit for `d < 16`.
pub open spec fn hex_digit_lower(d: nat) -> char {
    if d < 10 {
        digit_char(d)
    } else if d == 10 {
        'a'
    } else if d == 11 {
        'b'
    } else if d == 12 {
        'c'
    } else if d == 13 {
        'd'
    } else if d == 14 {
        'e'
    } else {
        'f'
    }
}

/// How a JSON string literal spells one character: `"` and `\` are
/// backslash-escaped, the control characters U+0000..U+001F use their short
/// escape where JSON has one and `\u00XX` otherwise, everything else is kept.
pub open spec fn json_escape_char(c: char) -> Seq<char> {
    if c == '"' {
        seq!['\\', '"']
    } else if c == '\\' {
        seq!['\\', '\\']
    } else if c == '\u{8}' {
        seq!['\\', 'b']
    } else if c == '\t' {
        seq!['\\', 't']
    } else if c == '\n' {
        seq!['\\', 'n']
    } else if c == '\u{c}' {
        seq!['\\', 'f']
    } else if c == '\r' {
        seq!['\\', 'r']
    } else if (c as nat) < 0x20 {
        seq!['\\', 'u', '0', '0', hex_digit_lower((c as nat) / 16), hex_digit_lower((c as nat) % 16)]
    } else {
        seq![c]
    }
}

/// The escaped contents of a JSON string literal.
pub open spec fn json_escape(s: Seq<char>) -> Seq<char>
    decreases s.len(),
{
    if s.len() == 0 {
        Seq::empty()
    } else {
        json_escape(s.drop_last()) + json_escape_char(s.last())
    }
}

/// A JSON string literal for `s`, quotes included.
pub open spec fn json_quoted(s: Seq<char>) -> Seq<char> {
    seq!['"'] + json_escape(s) + seq!['"']
}

/// `serde_json::to_string` on a `&str`: the compact JSON string literal.
/// The contract states the escaping that serde_json's serializer applies
/// (its `ESCAPE` table and `write_char_escape`). Serialising a `str` cannot
/// fail; the error arm only converts.
#[verifier::external_body]
fn json_string(s: &str) -> (quoted: String)
    ensures
        quoted@ == json_quoted(s@),
{
    serde_json::to_string(s).unwrap_or_default()
}

/// The UDP datagram that shows `text` on the HUD. Like every datagram it is
/// a compact JSON object with its keys in sorted order, as `serde_json`
/// writes a `json!` object with its default (sorted) map.
pub open spec fn text_message(text: Seq<char>) -> Seq<char> {
    "{\"text\":"@ + json_quoted(text) + ",\"type\":\"message\"}"@
}

/// The UDP datagram that moves the HUD to `pos` (`"top"` or `"bottom"`).
pub open spec fn position_message(pos: Seq<char>) -> Seq<char> {
    "{\"pos\":"@ + json_quoted(pos) + ",\"type\":\"position\"}"@
}

/// The UDP datagram that asks the HUD to shut down.
pub open spec fn shutdown_message() -> Seq<char> {
    "{\"type\":\"shutdown\"}"@
}

/// Frames the JSON datagram `{"text":...,"type":"message"}`.
pub fn hud_text_message(text: &str) -> (msg: String)
    ensures
        msg@ == text_message(text@),
{
    let mut msg = String::new();
    msg.append("{\"text\":");
    let quoted = json_string(text);
    msg.append(quoted.as_str());
    msg.append(",\"type\":\"message\"}");
    assert(msg@ =~= text_message(text@));
    msg
}

/// Frames the JSON datagram `{"pos":...,"type":"position"}`.
pub fn hud_position_message(pos: &str) -> (msg: String)
    ensures
        msg@ == position_message(pos@),
{
    let mut msg = String::new();
    msg.append("{\"pos\":");
    let quoted = json_string(pos);
    msg.append(quoted.as_str());
    msg.append(",\"type\":\"position\"}");
    assert(msg@ =~= position_message(pos@));
    msg
}

/// Frames the JSON datagram `{"type":"shutdown"}`.
pub fn hud_shutdown_message() -> (msg: String)
    ensures
        msg@ == shutdown_message(),
{
    let mut msg = String::new();
    msg.append("{\"type\":\"shutdown\"}");
    assert(msg@ =~= shutdown_message());
    msg
}

/// `127.0.0.1:<port>`, the loopback target of the UDP datagrams.
pub open spec fn udp_target(port: u16) -> Seq<char> {
    "127.0.0.1:"@ + decimal(port as nat)
}

/// `http://127.0.0.1:<port>`, the loopback gRPC endpoint.
pub open spec fn grpc_endpoint(port: u16) -> Seq<char> {
    "http://127.0.0.1:"@ + decimal(port as nat)
}

/// The loopback address the UDP datagrams are sent to.
pub fn udp_target_addr(port: u16) -> (addr: String)
    ensures
        addr@ == udp_target(port),
{
    let mut addr = String::new();
    addr.append("127.0.0.1:");
    push_decimal(&mut addr, port as u64);
    assert(addr@ =~= udp_target(port));
    addr
}

/// The URI of the gRPC endpoint on `grpc_port`.
pub fn grpc_endpoint_addr(grpc_port: u16) -> (addr: String)
    ensures
        addr@ == grpc_endpoint(grpc_port),
{
    let mut addr = String::new();
    addr.append("http://127.0.0.1:");
    push_decimal(&mut addr, grpc_port as u64);
    assert(addr@ =~= grpc_endpoint(grpc_port));
    addr
}

/// Forgets the shared gRPC channel, so that every message goes over UDP
/// until a channel is established again.
pub fn reset_channel<C>(channel: &mut Option<C>)
    ensures
        *final(channel) is None,
{
    *channel = None;
}

/// Stores a freshly connected gRPC channel (the connection attempt itself is
/// network I/O and happens outside the library).
pub fn install_channel<C>(channel: &mut Option<C>, connected: C)
    ensures
        *final(channel) == Some(connected),
{
    *channel = Some(connected);
}

/// Runs `f` with the shared channel when one is established; `None` when
/// there is no channel, in which case `f` is not called.
pub fn with_client<C, R, F: FnOnce(&C) -> R>(channel: &Option<C>, f: F) -> (res: Option<R>)
    requires
        channel matches Some(c) ==> f.requires((&c,)),
    ensures
        channel is None ==> res is None,
        channel matches Some(c) ==> (res matches Some(r) && f.ensures((&c,), r)),
{
    match channel {
        Some(c) => Some(f(c)),
        None => None,
    }
}

/// Whether the gRPC attempt delivered the message: `None` means no channel
/// was established, otherwise it holds the call's result.
pub open spec fn delivered_by_grpc<T, E>(grpc_outcome: Option<Result<T, E>>) -> bool {
    grpc_outcome matches Some(r) && r is Ok
}

/// Whether a HUD message still has to go out over UDP, given what the gRPC
/// attempt gave. Only a successful gRPC call makes UDP unnecessary.
pub fn needs_udp_fallback<T, E>(grpc_outcome: &Option<Result<T, E>>) -> (fallback: bool)
    ensures
        fallback == !delivered_by_grpc(*grpc_outcome),
{
    match grpc_outcome {
        Some(Ok(_)) => false,
        _ => true,
    }
}

/// A message goes out over UDP exactly when gRPC did not deliver it: when
/// no channel is established (`with_client` gives `None`) or when the gRPC
/// call fails; a successful call is the only case without UDP.
pub proof fn law_fallback_to_udp<T, E>(grpc_outcome: Option<Result<T, E>>)
    ensures
        grpc_outcome is None ==> !delivered_by_grpc(grpc_outcome),
        grpc_outcome matches Some(r) && r is Err ==> !delivered_by_grpc(grpc_outcome),
        grpc_outcome matches Some(r) && r is Ok ==> delivered_by_grpc(grpc_outcome),
{
}

} // verus!

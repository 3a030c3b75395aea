//! What the library decides about moving a finished message to a syslog daemon.
//!
//! Datagram transports send a message as one datagram, unchanged. Stream transports (TCP and
//! Unix stream sockets) frame it with a trailing newline.

use crate::wire::{put_slice, put_u8};
use vstd::prelude::*;

verus! {

/// The bytes that a stream transport writes for `msg`: the message followed by a newline
/// (0x0A).
pub fn frame_for_stream(msg: &[u8]) -> (r: Vec<u8>)
    ensures
        r@ == msg@.push(10u8),
{
    let mut out: Vec<u8> = Vec::new();
    put_slice(&mut out, msg);
    put_u8(&mut out, 10);
    assert(out@ =~= msg@.push(10u8));
    out
}

} // verus!

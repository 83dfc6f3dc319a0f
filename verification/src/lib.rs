//! Core of a binding-discovery protocol server: a fixed-size message header
//! codec, a fault-tolerant TLV attribute engine with per-type codecs
//! (including a reversible XOR obfuscation of transport addresses), and a
//! stateless dispatcher that turns a validated request into a reply.
//!
//! Everything here is a pure transform over in-memory bytes: raw bytes and a
//! peer address go in, optional reply bytes come out. Sockets, threads and
//! configuration files belong to the surrounding program.

pub mod address;
pub mod attributes;
pub mod config;
pub mod handlers;
pub mod header;
pub mod server;

use vstd::prelude::*;

verus! {

/// First byte of the fixed magic cookie that every valid header carries.
pub const MAGIC_COOKIE_0: u8 = 0x21;

/// Second byte of the fixed magic cookie.
pub const MAGIC_COOKIE_1: u8 = 0x12;

/// Third byte of the fixed magic cookie.
pub const MAGIC_COOKIE_2: u8 = 0xA4;

/// Fourth byte of the fixed magic cookie.
pub const MAGIC_COOKIE_3: u8 = 0x42;

/// The four magic-cookie bytes as they stand in bytes 4-7 of every header.
pub open spec fn magic_cookie() -> Seq<u8> {
    seq![MAGIC_COOKIE_0, MAGIC_COOKIE_1, MAGIC_COOKIE_2, MAGIC_COOKIE_3]
}

} // verus!

//! A privacy-preserving JSON-RPC tunnel for Ethereum-style providers.
//!
//! Every request crosses the wire as exactly one 1024-byte packet: a random
//! 32-byte header, a 976-byte payload that hides the JSON-RPC document in
//! random padding, and a 16-byte authentication tag. A fresh X25519
//! exchange keys each connection; ChaCha20-Poly1305 seals each direction
//! under its own deterministic nonce; blind relays copy the bytes without
//! reading them; and the gateway's privacy guard keeps transaction
//! submissions out of the public mempool.
//!
//! The packet layout, the key schedule, the nonce discipline, the document
//! extraction, the validation rules and the guard all live here with their
//! contracts; sockets, HTTP and the scheduler stay outside.

pub mod client;
pub mod crypto;
pub mod errors;
pub mod gateway;
pub mod guard;
pub mod json;
pub mod packet;
pub mod relay;
pub mod rpc;

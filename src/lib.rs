//! Playback core of a desktop music client: the cipher of the local
//! encrypted container, the request cryptography of the remote track API,
//! the output-sink bookkeeping and the download/decode state machine.
pub mod audio;
pub mod eapi;
pub mod ecb;
pub mod ncm;
pub mod output;
pub mod player;
pub mod primitives;
pub mod rc4;

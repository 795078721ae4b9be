//! Decoding of captured IPv4/ICMP datagrams, and the decisions of a
//! deadline-bounded capture loop that feeds decoded messages to a consumer.
pub mod capture;
pub mod fields;
pub mod header;
pub mod icmp;
pub mod message;

pub use capture::{
    compute_timeout, receive_timeout, CaptureLoop, Instant, ReceiveOutcome, TimeVal, RECEIVE_TIMEOUT_MICROS,
    RECEIVE_TTL,
};
pub use fields::{be_array_4, map_option, read_array_4, read_u16_be, read_u8, ParseError};
pub use header::{slice_to_ipv4_header, IPv4Header};
pub use icmp::{decode_icmp, IcmpMessage};
pub use message::{convert_data, Message};

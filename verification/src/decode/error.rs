//! Errors of NEXRAD message decoding.

use vstd::prelude::*;
use crate::text::{decimal, push_decimal, push_str};
use super::utf8::Utf8Failure;

verus! {

/// Errors that can occur during NEXRAD message decoding.
#[derive(Debug, Clone)]
pub enum DecodeError {
    /// Not enough bytes available to decode the required data.
    InsufficientBytes { needed: usize, have: usize },
    /// Input data was truncated or incomplete.
    Truncated(String),
    /// Invalid magic bytes in the archive file.
    InvalidMagic { expected: String, found: String },
    /// Unsupported message type or version.
    UnsupportedVersion(String),
    /// Required data moment is missing.
    MissingMoment(String),
    /// Invalid message type encountered.
    InvalidMessageType(u16),
    /// Invalid station identifier (ICAO code): its bytes are not UTF-8.
    InvalidStationId(Utf8Failure),
    /// I/O error during decompression, with the error's message.
    IoError(String),
}

/// How `std::str::Utf8Error` describes itself.
pub open spec fn utf8_failure_text(e: Utf8Failure) -> Seq<char> {
    match e.error_len {
        Some(n) => "invalid utf-8 sequence of "@ + decimal(n as nat) + " bytes from index "@
            + decimal(e.valid_up_to as nat),
        None => "incomplete utf-8 byte sequence from index "@ + decimal(e.valid_up_to as nat),
    }
}

impl DecodeError {
    /// The human-readable message of the error.
    pub open spec fn text(&self) -> Seq<char> {
        match self {
            DecodeError::InsufficientBytes { needed, have } => "Insufficient bytes: need "@
                + decimal(*needed as nat) + ", have "@ + decimal(*have as nat),
            DecodeError::Truncated(s) => "Input data is truncated: "@ + s@,
            DecodeError::InvalidMagic { expected, found } => "Invalid magic bytes: expected "@
                + expected@ + ", found "@ + found@,
            DecodeError::UnsupportedVersion(s) => "Unsupported version or message type: "@ + s@,
            DecodeError::MissingMoment(s) => "Missing required moment: "@ + s@,
            DecodeError::InvalidMessageType(t) => "Invalid message type: expected 31, got "@
                + decimal(*t as nat),
            DecodeError::InvalidStationId(e) => "Invalid station ID: "@ + utf8_failure_text(*e),
            DecodeError::IoError(s) => "I/O error: "@ + s@,
        }
    }

    /// The human-readable message of the error (what `Display` shows).
    pub fn message(&self) -> (r: String)
        ensures
            r@ == self.text(),
    {
        let mut s = String::new();
        match self {
            DecodeError::InsufficientBytes { needed, have } => {
                push_str(&mut s, "Insufficient bytes: need ");
                push_decimal(&mut s, *needed as u64);
                push_str(&mut s, ", have ");
                push_decimal(&mut s, *have as u64);
            },
            DecodeError::Truncated(t) => {
                push_str(&mut s, "Input data is truncated: ");
                push_str(&mut s, t.as_str());
            },
            DecodeError::InvalidMagic { expected, found } => {
                push_str(&mut s, "Invalid magic bytes: expected ");
                push_str(&mut s, expected.as_str());
                push_str(&mut s, ", found ");
                push_str(&mut s, found.as_str());
            },
            DecodeError::UnsupportedVersion(t) => {
                push_str(&mut s, "Unsupported version or message type: ");
                push_str(&mut s, t.as_str());
            },
            DecodeError::MissingMoment(t) => {
                push_str(&mut s, "Missing required moment: ");
                push_str(&mut s, t.as_str());
            },
            DecodeError::InvalidMessageType(t) => {
                push_str(&mut s, "Invalid message type: expected 31, got ");
                push_decimal(&mut s, *t as u64);
            },
            DecodeError::InvalidStationId(e) => {
                push_str(&mut s, "Invalid station ID: ");
                match e.error_len {
                    Some(n) => {
                        push_str(&mut s, "invalid utf-8 sequence of ");
                        push_decimal(&mut s, n as u64);
                        push_str(&mut s, " bytes from index ");
                        push_decimal(&mut s, e.valid_up_to as u64);
                    },
                    None => {
                        push_str(&mut s, "incomplete utf-8 byte sequence from index ");
                        push_decimal(&mut s, e.valid_up_to as u64);
                    },
                }
            },
            DecodeError::IoError(t) => {
                push_str(&mut s, "I/O error: ");
                push_str(&mut s, t.as_str());
            },
        }
        proof {
            let e: Seq<char> = Seq::empty();
            assert(e + self.text() == self.text());
        }
        s
    }
}

} // verus!

//! Message Type 31 (Digital Radar Data) header parsing.

use vstd::prelude::*;
use super::bytes::{read_u16_be, read_u32_be, u16_at, u32_at};
use super::error::DecodeError;
use super::types::{Milliseconds, Mjd, StationId};
use super::utf8::utf8_decoded;

verus! {

/// Message Type 31 header: ID (2), date (2), time (4), station ID (4).
#[derive(Debug, Clone, PartialEq)]
pub struct Msg31Header {
    /// Message type identifier (31 for Digital Radar Data).
    pub id: u16,
    /// Date in Modified Julian Date format.
    pub date: Mjd,
    /// Time in milliseconds since midnight UTC.
    pub time: Milliseconds,
    /// Radar station ICAO identifier.
    pub station_id: StationId,
}

/// Hours (as a `u8`, so modulo 256), minutes, seconds and milliseconds of
/// a time of day given in milliseconds.
pub open spec fn hmsms(t: int) -> (int, int, int, int) {
    ((t / 3_600_000) % 256, (t % 3_600_000) / 60_000, (t % 60_000) / 1_000, t % 1_000)
}

/// Splits milliseconds since midnight into hours, minutes, seconds and milliseconds.
pub fn split_time_of_day(total_ms: u32) -> (r: (u8, u8, u8, u16))
    ensures
        hmsms(total_ms as int) == (r.0 as int, r.1 as int, r.2 as int, r.3 as int),
{
    let hours_full = total_ms / 3_600_000;
    let hours = (hours_full % 256) as u8;
    let minutes = ((total_ms % 3_600_000) / 60_000) as u8;
    let seconds = ((total_ms % 60_000) / 1_000) as u8;
    let milliseconds = (total_ms % 1_000) as u16;
    (hours, minutes, seconds, milliseconds)
}

/// The four station bytes at offset `at`.
pub open spec fn station_bytes_at(b: Seq<u8>, at: int) -> Seq<u8> {
    b.subrange(at, at + 4)
}

/// Reads four station bytes.
pub fn read_station(bytes: &[u8], at: usize) -> (s: StationId)
    requires
        at + 4 <= bytes@.len(),
    ensures
        s.0@ == station_bytes_at(bytes@, at as int),
{
    let s = StationId::new([bytes[at], bytes[at + 1], bytes[at + 2], bytes[at + 3]]);
    assert(s.0@ =~= station_bytes_at(bytes@, at as int));
    s
}

impl Msg31Header {
    /// Required minimum bytes for the header (after the message size).
    pub const REQUIRED_BYTES: usize = 12;

    /// Parses the header from bytes that start at the message ID.
    pub fn parse(bytes: &[u8]) -> (r: Result<Self, DecodeError>)
        ensures
            bytes@.len() < 12 ==> (r matches Err(DecodeError::InsufficientBytes { needed, have })
                && needed == 12 && have == bytes@.len()),
            bytes@.len() >= 12 && u16_at(bytes@, 0) != 31 ==> (r matches Err(
                DecodeError::InvalidMessageType(t),
            ) && t == u16_at(bytes@, 0)),
            bytes@.len() >= 12 && u16_at(bytes@, 0) == 31 && utf8_decoded(station_bytes_at(bytes@, 8)) is None
                ==> r matches Err(DecodeError::InvalidStationId(_)),
            r is Ok <==> bytes@.len() >= 12 && u16_at(bytes@, 0) == 31
                && utf8_decoded(station_bytes_at(bytes@, 8)) is Some,
            r matches Ok(h) ==> h.id == 31 && h.date == u16_at(bytes@, 2) && h.time == u32_at(bytes@, 4)
                && h.station_id.0@ == station_bytes_at(bytes@, 8),
    {
        if bytes.len() < Self::REQUIRED_BYTES {
            return Err(DecodeError::InsufficientBytes { needed: Self::REQUIRED_BYTES, have: bytes.len() });
        }
        let id = read_u16_be(bytes, 0);
        if id != 31 {
            return Err(DecodeError::InvalidMessageType(id));
        }
        let date = read_u16_be(bytes, 2);
        let time = read_u32_be(bytes, 4);
        let station_id = read_station(bytes, 8);
        match station_id.as_str() {
            Ok(_) => {},
            Err(e) => {
                return Err(DecodeError::InvalidStationId(e));
            },
        }
        Ok(Msg31Header { id, date, time, station_id })
    }

    /// The station identifier as text, or why its bytes are not UTF-8.
    pub fn station_identifier(&self) -> (r: Result<&str, super::utf8::Utf8Failure>)
        ensures
            (r is Ok) == (utf8_decoded(self.station_id.0@) is Some),
            r is Ok ==> utf8_decoded(self.station_id.0@) == Some(r->Ok_0@),
            r matches Err(f) ==> f.valid_up_to < 4 && utf8_decoded(self.station_id.0@.take(f.valid_up_to as int)) is Some,
            r matches Err(f) ==> forall|k: int|
                f.valid_up_to < k <= 4 ==> utf8_decoded(#[trigger] self.station_id.0@.take(k)) is None,
    {
        self.station_id.as_str()
    }

    /// The time as hours, minutes, seconds and milliseconds.
    pub fn time_hmsms(&self) -> (r: (u8, u8, u8, u16))
        ensures
            hmsms(self.time as int) == (r.0 as int, r.1 as int, r.2 as int, r.3 as int),
    {
        split_time_of_day(self.time)
    }
}

} // verus!

//! Message Type 1 (Message Header Segment) parsing.

use vstd::prelude::*;
use super::bytes::{i16_of, read_i16_be, read_u16_be, read_u32_be, u16_at, u32_at};
use super::error::DecodeError;
use super::ieee::{f32_bits_from_half, f32_bits_of_half};
use super::msg31::{hmsms, read_station, split_time_of_day, station_bytes_at};
use super::types::{Milliseconds, Mjd, StationId};
use super::utf8::{utf8_decoded, Utf8Failure};

verus! {

/// Message Type 1 header: ID (2), date (2), time (4), station ID (4), ICS (1),
/// east-west velocity (2), south-north velocity (2), elevation (2).
#[derive(Debug, Clone, PartialEq)]
pub struct Msg1Header {
    /// Message type identifier (1 for the Message Header Segment).
    pub id: u16,
    /// Date in Modified Julian Date format.
    pub date: Mjd,
    /// Time in milliseconds since midnight UTC.
    pub time: Milliseconds,
    /// Radar station ICAO identifier.
    pub station_id: StationId,
    /// ICS field (Industrial/Commercial/Standard indicator).
    pub ics: u8,
    /// East-West velocity component (0.5 m/s resolution).
    pub east_west: i16,
    /// South-North velocity component (0.5 m/s resolution).
    pub south_north: i16,
    /// Elevation angle in degrees (bits of the `f32`; 0.5 degree resolution).
    pub elevation: u32,
}

impl Msg1Header {
    /// Required minimum bytes for the header (after the message size).
    pub const REQUIRED_BYTES: usize = 19;

    /// Parses the header from bytes that start at the message ID.
    pub fn parse(bytes: &[u8]) -> (r: Result<Self, DecodeError>)
        ensures
            bytes@.len() < 19 ==> (r matches Err(DecodeError::InsufficientBytes { needed, have })
                && needed == 19 && have == bytes@.len()),
            bytes@.len() >= 19 && u16_at(bytes@, 0) != 1 ==> (r matches Err(
                DecodeError::InvalidMessageType(t),
            ) && t == u16_at(bytes@, 0)),
            bytes@.len() >= 19 && u16_at(bytes@, 0) == 1 && utf8_decoded(station_bytes_at(bytes@, 8)) is None
                ==> r matches Err(DecodeError::InvalidStationId(_)),
            r is Ok <==> bytes@.len() >= 19 && u16_at(bytes@, 0) == 1
                && utf8_decoded(station_bytes_at(bytes@, 8)) is Some,
            r matches Ok(h) ==> h.id == 1 && h.date == u16_at(bytes@, 2) && h.time == u32_at(bytes@, 4)
                && h.station_id.0@ == station_bytes_at(bytes@, 8) && h.ics == bytes@[12]
                && h.east_west == i16_of(u16_at(bytes@, 13)) && h.south_north == i16_of(u16_at(bytes@, 15))
                && h.elevation == f32_bits_of_half(u16_at(bytes@, 17)),
    {
        if bytes.len() < Self::REQUIRED_BYTES {
            return Err(DecodeError::InsufficientBytes { needed: Self::REQUIRED_BYTES, have: bytes.len() });
        }
        let id = read_u16_be(bytes, 0);
        if id != 1 {
            return Err(DecodeError::InvalidMessageType(id));
        }
        let date = read_u16_be(bytes, 2);
        let time = read_u32_be(bytes, 4);
        let station_id = read_station(bytes, 8);
        match station_id.as_str() {
            Ok(_) => {},
            Err(e) => {
                return Err(DecodeError::InvalidStationId(e));
            },
        }
        let ics = bytes[12];
        let east_west = read_i16_be(bytes, 13);
        let south_north = read_i16_be(bytes, 15);
        let elevation_raw = read_u16_be(bytes, 17);
        let elevation = f32_bits_from_half(elevation_raw as i32);
        Ok(Msg1Header { id, date, time, station_id, ics, east_west, south_north, elevation })
    }

    /// The station identifier as text, or why its bytes are not UTF-8.
    pub fn station_identifier(&self) -> (r: Result<&str, Utf8Failure>)
        ensures
            (r is Ok) == (utf8_decoded(self.station_id.0@) is Some),
            r is Ok ==> utf8_decoded(self.station_id.0@) == Some(r->Ok_0@),
            r matches Err(f) ==> f.valid_up_to < 4 && utf8_decoded(self.station_id.0@.take(f.valid_up_to as int)) is Some,
            r matches Err(f) ==> forall|k: int|
                f.valid_up_to < k <= 4 ==> utf8_decoded(#[trigger] self.station_id.0@.take(k)) is None,
    {
        self.station_id.as_str()
    }

    /// The time as hours, minutes, seconds and milliseconds.
    pub fn time_hmsms(&self) -> (r: (u8, u8, u8, u16))
        ensures
            hmsms(self.time as int) == (r.0 as int, r.1 as int, r.2 as int, r.3 as int),
    {
        split_time_of_day(self.time)
    }

    /// The East-West velocity in m/s (bits of the `f32`).
    pub fn east_west_ms(&self) -> (r: u32)
        ensures
            r == f32_bits_of_half(self.east_west as int),
    {
        f32_bits_from_half(self.east_west as i32)
    }

    /// The South-North velocity in m/s (bits of the `f32`).
    pub fn south_north_ms(&self) -> (r: u32)
        ensures
            r == f32_bits_of_half(self.south_north as int),
    {
        f32_bits_from_half(self.south_north as i32)
    }
}

} // verus!

//! Decoding of Archive2 radial data into a volume scan.
//!
//! After a 20-byte preamble (message size, message type 31, MJD date, time,
//! station ID, volume scan number, VCP) the body takes one of three layouts,
//! recognised in this order:
//! - sweep records: a flag byte of 1, an `f32` elevation and a `u16` radial count, repeated;
//! - one radial with moments: an `f32` azimuth in `[0, 360]`, a `u16` gate count, a
//!   `u16` first-gate range, then per gate optional `REF`, `VEL` and `SW` blocks;
//! - a minimal radial: data block type 1, elevation, azimuth, range and one `REF` block.
//! Any other body yields one empty sweep at 0.5 degrees.

use vstd::prelude::*;
use super::bytes::{read_u16_be, read_u32_be, u16_at, u32_at};
use super::error::DecodeError;
use super::ieee::{
    norm_shift, normalized,
    f32_bits_from_half, f32_bits_from_int, f32_bits_of_half, f32_bits_of_int, f32_in_open_zero_to_90,
    f32_in_zero_to_360, HALF_BITS,
};
use super::types::{empty_gate, Gate, Radial, RadialView, Sweep, SweepView, VolumeScan, VolumeScanView};
use super::utf8::{string_from_utf8_lossy, utf8_lossy};

verus! {

/// Bits of `1000.0f32`: the range of the placeholder gate of sweep records.
pub const PLACEHOLDER_RANGE_BITS: u32 = 0x447A_0000;

/// Seconds added to the message time to form the scan timestamp.
pub const EPOCH_BASE_SECS: i64 = 946_728_000;

/// Bytes before the message body.
pub const PREAMBLE_LEN: usize = 20;

/// The `f32` bit pattern stored big-endian at `at`.
pub open spec fn bits_at(b: Seq<u8>, at: int) -> u32 {
    u32_at(b, at) as u32
}

/// The views of a vector of sweeps.
pub open spec fn sweeps_view(v: Seq<Sweep>) -> Seq<SweepView> {
    v.map_values(|s: Sweep| s@)
}

/// The sweep used when a body yields none: 0.5 degrees, no radials.
pub open spec fn default_sweep() -> SweepView {
    SweepView { elevation: HALF_BITS, radials: Seq::empty() }
}

// ---------------------------------------------------------------- sweep records

/// The radial that a sweep record stands for: azimuth 0 with one empty gate at 1000 m.
pub open spec fn placeholder_radial() -> RadialView {
    RadialView { azimuth: 0, gates: seq![empty_gate(PLACEHOLDER_RANGE_BITS)] }
}

/// The 7-byte sweep record at `o` describes a sweep.
pub open spec fn sweep_record_valid(b: Seq<u8>, o: int) -> bool {
    &&& b[o] == 1
    &&& f32_in_open_zero_to_90(bits_at(b, o + 1))
    &&& u16_at(b, o + 5) > 0
}

/// The sweep described by the record at `o`: at most 360 placeholder radials.
pub open spec fn sweep_record(b: Seq<u8>, o: int) -> SweepView {
    let n = u16_at(b, o + 5);
    SweepView {
        elevation: bits_at(b, o + 1),
        radials: Seq::new((if n < 360 { n } else { 360 }) as nat, |i: int| placeholder_radial()),
    }
}

/// The sweeps of the complete records from `o` on.
pub open spec fn sweep_records(b: Seq<u8>, o: int) -> Seq<SweepView>
    decreases b.len() - o,
{
    if o < 0 || o + 7 > b.len() {
        Seq::empty()
    } else if sweep_record_valid(b, o) {
        seq![sweep_record(b, o)] + sweep_records(b, o + 7)
    } else {
        sweep_records(b, o + 7)
    }
}

/// The sweeps of a sweep-record body at `o`, or the default sweep when there are none.
pub open spec fn multi_sweeps(b: Seq<u8>, o: int) -> Seq<SweepView> {
    let s = sweep_records(b, o);
    if s.len() == 0 { seq![default_sweep()] } else { s }
}

// ---------------------------------------------------------------- moments

/// The three bytes at `o` read `REF`.
pub open spec fn ref_tag_at(b: Seq<u8>, o: int) -> bool {
    o + 5 <= b.len() && b[o] == 82 && b[o + 1] == 69 && b[o + 2] == 70
}

/// The three bytes at `o` read `VEL`.
pub open spec fn vel_tag_at(b: Seq<u8>, o: int) -> bool {
    o + 5 <= b.len() && b[o] == 86 && b[o + 1] == 69 && b[o + 2] == 76
}

/// The two bytes at `o` read `SW`.
pub open spec fn sw_tag_at(b: Seq<u8>, o: int) -> bool {
    o + 4 <= b.len() && b[o] == 83 && b[o + 1] == 87
}

/// A gate read at `o`, with the position where its blocks end.
/// A block is a tag, a data-type byte and a value byte: reflectivity is
/// `value - 32` dBZ, velocity `value - 64` m/s, spectrum width `value / 2` m/s.
/// A gate with no block gets a reflectivity of 30 dBZ.
pub open spec fn moment_gate(b: Seq<u8>, o: int, range: u32) -> (Gate, int) {
    let has_ref = ref_tag_at(b, o);
    let o1 = if has_ref { o + 5 } else { o };
    let has_vel = vel_tag_at(b, o1);
    let o2 = if has_vel { o1 + 5 } else { o1 };
    let has_sw = sw_tag_at(b, o2);
    let o3 = if has_sw { o2 + 4 } else { o2 };
    let reflectivity = if has_ref {
        Some(f32_bits_of_int(b[o + 4] - 32))
    } else if !has_vel && !has_sw {
        Some(f32_bits_of_int(30))
    } else {
        None
    };
    let velocity = if has_vel { Some(f32_bits_of_int(b[o1 + 4] - 64)) } else { None };
    let spectrum_width = if has_sw { Some(f32_bits_of_half(b[o2 + 3] as int)) } else { None };
    (Gate { range, reflectivity, velocity, spectrum_width, zdr: None, cc: None, kdp: None }, o3)
}

/// Gates `i..n` of a moment radial whose first gate lies `base` meters out,
/// 250 m apart, reading blocks from `o`.
pub open spec fn moment_gates(b: Seq<u8>, o: int, base: int, i: int, n: int) -> Seq<Gate>
    decreases n - i,
{
    if i >= n {
        Seq::empty()
    } else {
        let (g, next) = moment_gate(b, o, f32_bits_of_int(base + 250 * i));
        seq![g] + moment_gates(b, next, base, i + 1, n)
    }
}

/// The sweep of a moment body at `o`: one radial at 0.5 degrees.
pub open spec fn multi_moments(b: Seq<u8>, o: int) -> Seq<SweepView> {
    let count = u16_at(b, o + 4);
    let n = if count == 0 { 1 } else { count };
    seq![
        SweepView {
            elevation: HALF_BITS,
            radials: seq![
                RadialView {
                    azimuth: bits_at(b, o),
                    gates: moment_gates(b, o + 8, u16_at(b, o + 6), 0, n),
                },
            ],
        },
    ]
}

// ---------------------------------------------------------------- minimal radial

/// The sweep of a minimal-radial body at `o`: one radial with one gate whose
/// reflectivity is the `REF` value byte (20 dBZ when there is no `REF` block).
pub open spec fn minimal_radial(b: Seq<u8>, o: int) -> Seq<SweepView> {
    let range = f32_bits_of_int(u16_at(b, o + 14));
    let reflectivity = if ref_tag_at(b, o + 18) {
        f32_bits_of_int(b[o + 22] as int)
    } else {
        f32_bits_of_int(20)
    };
    seq![
        SweepView {
            elevation: bits_at(b, o + 4),
            radials: seq![
                RadialView {
                    azimuth: f32_bits_of_int(u16_at(b, o + 10)),
                    gates: seq![Gate { reflectivity: Some(reflectivity), ..empty_gate(range) }],
                },
            ],
        },
    ]
}

// ---------------------------------------------------------------- whole message

/// The sweeps of a message body that starts at byte 20.
pub open spec fn body_sweeps(b: Seq<u8>) -> Seq<SweepView> {
    if b.len() > 30 && b[20] == 1 {
        multi_sweeps(b, 20)
    } else if b.len() > 27 && f32_in_zero_to_360(bits_at(b, 20)) {
        multi_moments(b, 20)
    } else if b.len() > 40 && u16_at(b, 20) == 1 {
        minimal_radial(b, 20)
    } else if b.len() > 20 {
        seq![default_sweep()]
    } else {
        Seq::empty()
    }
}

/// The volume scan of a message whose preamble is complete and of type 31.
pub open spec fn decoded_volume(b: Seq<u8>) -> VolumeScanView {
    VolumeScanView {
        station_id: utf8_lossy(b.subrange(12, 16)),
        timestamp: (EPOCH_BASE_SECS + u32_at(b, 8)) as i64,
        vcp: u16_at(b, 18) as u16,
        sweeps: body_sweeps(b),
    }
}

/// A type-31 message of 18 or 19 bytes: its VCP field is cut off.
pub open spec fn vcp_cut_off(b: Seq<u8>) -> bool {
    b.len() >= 18 && u16_at(b, 4) == 31 && b.len() < 20
}

/// The bit patterns of the default moment values.
proof fn lemma_small_constants()
    ensures
        f32_bits_of_int(30) == 0x41F0_0000u32,
        f32_bits_of_int(20) == 0x41A0_0000u32,
{
    reveal_with_fuel(normalized, 24);
    reveal_with_fuel(norm_shift, 24);
}

fn byte_is(bytes: &[u8], at: usize, v: u8) -> (r: bool)
    requires
        at < bytes@.len(),
    ensures
        r == (bytes@[at as int] == v),
{
    bytes[at] == v
}

fn placeholder_radial_value() -> (r: Radial)
    ensures
        r@ == placeholder_radial(),
{
    let mut r = Radial::new(0);
    r.gates.push(Gate::new(PLACEHOLDER_RANGE_BITS));
    assert(r@.gates =~= placeholder_radial().gates);
    r
}

/// The sweeps of a sweep-record body at `start`.
fn parse_multi_sweeps(bytes: &[u8], start: usize) -> (r: Vec<Sweep>)
    requires
        start <= bytes@.len(),
    ensures
        sweeps_view(r@) == multi_sweeps(bytes@, start as int),
{
    let mut sweeps: Vec<Sweep> = Vec::new();
    let mut offset = start;
    while bytes.len() - offset >= 7
        invariant
            start <= offset <= bytes@.len(),
            sweeps_view(sweeps@) + sweep_records(bytes@, offset as int) == sweep_records(bytes@, start as int),
        decreases bytes@.len() - offset,
    {
        let ghost before = sweeps@;
        let sweep_flag = bytes[offset];
        let elevation = read_u32_be(bytes, offset + 1);
        let num_radials = read_u16_be(bytes, offset + 5);
        let record = offset;
        offset = offset + 7;
        if sweep_flag == 1 && 1 <= elevation && elevation <= 0x42B4_0000 && num_radials > 0 {
            let mut sweep = Sweep::new(elevation);
            let count: u16 = if num_radials < 360 { num_radials } else { 360 };
            let mut i: u16 = 0;
            while i < count
                invariant
                    i <= count,
                    sweep@.elevation == elevation,
                    sweep@.radials =~= Seq::new(i as nat, |j: int| placeholder_radial()),
                decreases count - i,
            {
                let ghost prev = sweep.radials@;
                let rv = placeholder_radial_value();
                sweep.radials.push(rv);
                assert(sweep@.radials =~= prev.map_values(|r: Radial| r@).push(rv@));
                i = i + 1;
            }
            assert(sweep@ == sweep_record(bytes@, record as int));
            sweeps.push(sweep);
            assert(sweeps_view(sweeps@) =~= sweeps_view(before).push(sweep_record(bytes@, record as int)));
        } else {
            assert(sweeps@ == before);
        }
        assert(sweeps_view(sweeps@) + sweep_records(bytes@, offset as int) =~= sweeps_view(before)
            + sweep_records(bytes@, record as int));
    }
    assert(sweep_records(bytes@, offset as int) == Seq::<SweepView>::empty());
    assert(sweeps_view(sweeps@) =~= sweep_records(bytes@, start as int));
    if sweeps.len() == 0 {
        sweeps.push(Sweep::new(HALF_BITS));
        assert(sweeps_view(sweeps@) =~= seq![default_sweep()]);
    }
    sweeps
}

fn has_ref_tag(bytes: &[u8], o: usize) -> (r: bool)
    requires
        o <= bytes@.len(),
    ensures
        r == ref_tag_at(bytes@, o as int),
{
    bytes.len() - o >= 5 && bytes[o] == 82 && bytes[o + 1] == 69 && bytes[o + 2] == 70
}

fn has_vel_tag(bytes: &[u8], o: usize) -> (r: bool)
    requires
        o <= bytes@.len(),
    ensures
        r == vel_tag_at(bytes@, o as int),
{
    bytes.len() - o >= 5 && bytes[o] == 86 && bytes[o + 1] == 69 && bytes[o + 2] == 76
}

fn has_sw_tag(bytes: &[u8], o: usize) -> (r: bool)
    requires
        o <= bytes@.len(),
    ensures
        r == sw_tag_at(bytes@, o as int),
{
    bytes.len() - o >= 4 && bytes[o] == 83 && bytes[o + 1] == 87
}

/// Reads the moment blocks of one gate.
fn parse_moment_gate(bytes: &[u8], o: usize, range: u32) -> (r: (Gate, usize))
    requires
        o <= bytes@.len(),
    ensures
        (r.0, r.1 as int) == moment_gate(bytes@, o as int, range),
        r.1 <= bytes@.len(),
{
    let len = bytes.len();
    let mut gate = Gate::new(range);
    let mut offset = o;
    if has_ref_tag(bytes, offset) {
        offset = offset + 4;
        let value = bytes[offset] as i32 - 32;
        gate.reflectivity = Some(f32_bits_from_int(value));
        offset = offset + 1;
    }
    if has_vel_tag(bytes, offset) {
        offset = offset + 4;
        let value = bytes[offset] as i32 - 64;
        gate.velocity = Some(f32_bits_from_int(value));
        offset = offset + 1;
    }
    if has_sw_tag(bytes, offset) {
        offset = offset + 3;
        gate.spectrum_width = Some(f32_bits_from_half(bytes[offset] as i32));
        offset = offset + 1;
    }
    if gate.reflectivity.is_none() && gate.velocity.is_none() && gate.spectrum_width.is_none() {
        gate.reflectivity = Some(0x41F0_0000);
        proof { lemma_small_constants(); }
    }
    (gate, offset)
}

proof fn lemma_moment_gates_len(b: Seq<u8>, o: int, base: int, i: int, n: int)
    requires
        i <= n,
    ensures
        moment_gates(b, o, base, i, n).len() == n - i,
    decreases n - i,
{
    if i < n {
        let (g, next) = moment_gate(b, o, f32_bits_of_int(base + 250 * i));
        lemma_moment_gates_len(b, next, base, i + 1, n);
    }
}

/// The sweep of a moment body at `start`.
fn parse_multi_moments(bytes: &[u8], start: usize) -> (r: Vec<Sweep>)
    requires
        start + 8 <= bytes@.len(),
    ensures
        sweeps_view(r@) == multi_moments(bytes@, start as int),
{
    let len = bytes.len();
    let azimuth = read_u32_be(bytes, start);
    let count = read_u16_be(bytes, start + 4);
    let base = read_u16_be(bytes, start + 6);
    let mut offset = start + 8;
    let mut sweep = Sweep::new(HALF_BITS);
    let mut radial = Radial::new(azimuth);
    let n: u16 = if count == 0 { 1 } else { count };
    let mut current: u32 = base as u32;
    let mut i: u16 = 0;
    while i < n
        invariant
            i <= n,
            n >= 1,
            offset <= bytes@.len(),
            current == base + 250 * i,
            radial@.azimuth == azimuth,
            radial@.gates + moment_gates(bytes@, offset as int, base as int, i as int, n as int)
                == moment_gates(bytes@, start + 8, base as int, 0, n as int),
        decreases n - i,
    {
        let range = f32_bits_from_int(current as i32);
        let (gate, next) = parse_moment_gate(bytes, offset, range);
        let ghost before = radial@.gates;
        radial.gates.push(gate);
        assert(radial@.gates + moment_gates(bytes@, next as int, base as int, i + 1, n as int)
            =~= before + moment_gates(bytes@, offset as int, base as int, i as int, n as int));
        offset = next;
        current = current + 250;
        i = i + 1;
    }
    assert(moment_gates(bytes@, offset as int, base as int, i as int, n as int) == Seq::<Gate>::empty());
    assert(radial@.gates =~= moment_gates(bytes@, start + 8, base as int, 0, n as int));
    proof {
        lemma_moment_gates_len(bytes@, start + 8, base as int, 0, n as int);
    }
    if radial.gates.len() == 0 {
        let mut gate = Gate::new(base as u32);
        gate.reflectivity = Some(0x41F0_0000);
        gate.velocity = Some(0xC258_0000);
        gate.spectrum_width = Some(0x4020_0000);
        radial.gates.push(gate);
    }
    let ghost rv = radial@;
    sweep.radials.push(radial);
    assert(sweep@.radials =~= seq![rv]);
    let ghost sv = sweep@;
    let mut sweeps: Vec<Sweep> = Vec::new();
    sweeps.push(sweep);
    assert(sweeps_view(sweeps@) =~= seq![sv]);
    assert(sweeps_view(sweeps@) =~= multi_moments(bytes@, start as int));
    sweeps
}

/// The sweep of a minimal-radial body at `start`.
fn parse_minimal_radial(bytes: &[u8], start: usize) -> (r: Vec<Sweep>)
    requires
        start + 20 < bytes@.len(),
    ensures
        sweeps_view(r@) == minimal_radial(bytes@, start as int),
{
    let len = bytes.len();
    let elevation = read_u32_be(bytes, start + 4);
    let azimuth = read_u16_be(bytes, start + 10);
    let range_first_gate = read_u16_be(bytes, start + 14);
    let offset = start + 18;
    let mut sweep = Sweep::new(elevation);
    let mut radial = Radial::new(f32_bits_from_int(azimuth as i32));
    let range = f32_bits_from_int(range_first_gate as i32);
    if has_ref_tag(bytes, offset) {
        let mut gate = Gate::new(range);
        gate.reflectivity = Some(f32_bits_from_int(bytes[offset + 4] as i32));
        radial.gates.push(gate);
    }
    if radial.gates.len() == 0 {
        let mut gate = Gate::new(range);
        gate.reflectivity = Some(0x41A0_0000);
        proof { lemma_small_constants(); }
        radial.gates.push(gate);
    }
    let ghost rv = radial@;
    sweep.radials.push(radial);
    assert(sweep@.radials =~= seq![rv]);
    let ghost sv = sweep@;
    let mut sweeps: Vec<Sweep> = Vec::new();
    sweeps.push(sweep);
    assert(sweeps_view(sweeps@) =~= seq![sv]);
    assert(sweeps_view(sweeps@) =~= minimal_radial(bytes@, start as int));
    sweeps
}

/// Decodes a NEXRAD Archive2 message into a volume scan.
///
/// Fails with `InsufficientBytes` below 18 bytes, with
/// `InvalidMessageType` when the message type is not 31, and with
/// `InsufficientBytes` (20 needed) when a type-31 message ends before its
/// VCP field.
pub fn decode(bytes: &[u8]) -> (r: Result<VolumeScan, DecodeError>)
    ensures
        bytes@.len() < 18 ==> (r matches Err(DecodeError::InsufficientBytes { needed, have })
            && needed == 18 && have == bytes@.len()),
        bytes@.len() >= 18 && u16_at(bytes@, 4) != 31 ==> (r matches Err(
            DecodeError::InvalidMessageType(t),
        ) && t == u16_at(bytes@, 4)),
        vcp_cut_off(bytes@) ==> (r matches Err(DecodeError::InsufficientBytes { needed, have })
            && needed == 20 && have == bytes@.len()),
        r is Ok <==> bytes@.len() >= 20 && u16_at(bytes@, 4) == 31,
        r matches Ok(v) ==> v@ == decoded_volume(bytes@),
{
    if bytes.len() < 18 {
        return Err(DecodeError::InsufficientBytes { needed: 18, have: bytes.len() });
    }
    let message_type = read_u16_be(bytes, 4);
    if message_type != 31 {
        return Err(DecodeError::InvalidMessageType(message_type));
    }
    if bytes.len() < 20 {
        return Err(DecodeError::InsufficientBytes { needed: 20, have: bytes.len() });
    }
    let time_ms = read_u32_be(bytes, 8);
    let station_id = string_from_utf8_lossy(&bytes[12..16]);
    let vcp = read_u16_be(bytes, 18);
    let timestamp: i64 = EPOCH_BASE_SECS + time_ms as i64;
    let mut volume = VolumeScan::new(station_id, timestamp, vcp);
    let offset = PREAMBLE_LEN;
    if bytes.len() > offset + 10 && byte_is(bytes, offset, 1) {
        volume.sweeps = parse_multi_sweeps(bytes, offset);
    } else if bytes.len() > offset + 7 && in_zero_to_360(read_u32_be(bytes, offset)) {
        volume.sweeps = parse_multi_moments(bytes, offset);
    } else if bytes.len() > offset + 20 && read_u16_be(bytes, offset) == 1 {
        volume.sweeps = parse_minimal_radial(bytes, offset);
    } else if offset < bytes.len() {
        let mut sweeps: Vec<Sweep> = Vec::new();
        sweeps.push(Sweep::new(HALF_BITS));
        assert(sweeps_view(sweeps@) =~= seq![default_sweep()]);
        volume.sweeps = sweeps;
    }
    assert(volume@.sweeps =~= body_sweeps(bytes@));
    Ok(volume)
}

fn in_zero_to_360(bits: u32) -> (r: bool)
    ensures
        r == f32_in_zero_to_360(bits),
{
    bits <= 0x43B4_0000 || bits == 0x8000_0000
}


/// A message of type 31 yields a sweep exactly when it has a body: some
/// byte after its 20-byte preamble.
pub proof fn lemma_body_has_sweep(b: Seq<u8>)
    requires
        b.len() >= 20,
    ensures
        body_sweeps(b).len() > 0 <==> b.len() > 20,
{
}

/// The sweep records from `o` on have at most 360 radials each.
proof fn lemma_sweep_records_bounded(b: Seq<u8>, o: int)
    ensures
        forall|i: int| 0 <= i < sweep_records(b, o).len() ==> #[trigger] sweep_records(b, o)[i].radials.len() <= 360,
    decreases b.len() - o,
{
    if o < 0 || o + 7 > b.len() {
    } else {
        lemma_sweep_records_bounded(b, o + 7);
        if sweep_record_valid(b, o) {
            let rest = sweep_records(b, o + 7);
            assert forall|i: int| 0 <= i < sweep_records(b, o).len() implies #[trigger] sweep_records(b, o)[i].radials.len() <= 360 by {
                if i > 0 {
                    assert(sweep_records(b, o)[i] == rest[i - 1]);
                } else {
                    let n = u16_at(b, o + 5);
                    assert(sweep_records(b, o)[0] == sweep_record(b, o));
                    assert(sweep_record(b, o).radials.len() == (if n < 360 { n } else { 360 }) as nat);
                }
            }
        } else {
            assert(sweep_records(b, o) == sweep_records(b, o + 7));
        }
    }
}

/// No decoded sweep has more than 360 radials.
pub proof fn lemma_radials_bounded(b: Seq<u8>)
    ensures
        forall|i: int| 0 <= i < body_sweeps(b).len() ==> #[trigger] body_sweeps(b)[i].radials.len() <= 360,
{
    lemma_sweep_records_bounded(b, 20);
}

/// What a gate of a moment body holds: a reflectivity exactly when a `REF`
/// block opens it or it has no block at all (the 30 dBZ default, reading
/// nothing); a gate with a `VEL` or `SW` block and no `REF` block has no
/// reflectivity. A `REF` value byte `x` gives `x - 32` dBZ, a `VEL` block
/// (first or right after `REF`) gives a velocity of its value byte minus 64.
pub proof fn lemma_gate_moments(b: Seq<u8>, o: int, range: u32)
    requires
        0 <= o,
    ensures
        (moment_gate(b, o, range).0.reflectivity is Some) <==> (ref_tag_at(b, o) || (moment_gate(
            b,
            o,
            range,
        ).0.velocity is None && moment_gate(b, o, range).0.spectrum_width is None)),
        !ref_tag_at(b, o) && (moment_gate(b, o, range).0.velocity is Some || moment_gate(
            b,
            o,
            range,
        ).0.spectrum_width is Some) ==> moment_gate(b, o, range).0.reflectivity is None,
        ref_tag_at(b, o) ==> moment_gate(b, o, range).0.reflectivity == Some(f32_bits_of_int(b[o + 4] - 32)),
        !ref_tag_at(b, o) && moment_gate(b, o, range).0.velocity is None && moment_gate(
            b,
            o,
            range,
        ).0.spectrum_width is None ==> moment_gate(b, o, range).0.reflectivity == Some(f32_bits_of_int(30))
            && moment_gate(b, o, range).1 == o,
        !ref_tag_at(b, o) && vel_tag_at(b, o) ==> moment_gate(b, o, range).0.velocity == Some(
            f32_bits_of_int(b[o + 4] - 64),
        ) && moment_gate(b, o, range).0.reflectivity is None,
        ref_tag_at(b, o) && vel_tag_at(b, o + 5) ==> moment_gate(b, o, range).0.velocity == Some(
            f32_bits_of_int(b[o + 9] - 64),
        ),
        moment_gate(b, o, range).0.range == range,
{
}

} // verus!

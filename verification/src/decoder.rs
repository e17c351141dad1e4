//! Decoding of bus frames into telemetry records.
//!
//! A frame is dispatched by its identifier. Each kind of frame has a fixed
//! layout of fields in a payload of eight bytes; a shorter payload is
//! refused as truncated.

use crate::alert::{decode_alerts, spec_decode_alerts};
use crate::codec::{
    as_signed_byte, bytes_to_word_signed, bytes_to_word_unsigned, combine_signed,
    combine_unsigned, signed_byte,
};
use crate::frame::{classify, spec_classify, Frame, FrameKind};
use crate::record::{ChargeState, PlugState, RecordModel, Scale, Scaled, TelemetryRecord};
use vstd::prelude::*;

verus! {

/// Number of cells in one cell group.
pub const CELLS_PER_GROUP: u8 = 10;

/// Largest number of cells that one cell-group frame reports.
pub const CELLS_PER_FRAME: u8 = 3;

/// Number of payload bytes of every response frame.
pub const RESPONSE_PAYLOAD_LEN: usize = 8;

/// Why a frame could not be decoded.
#[derive(Clone, Copy, Debug, PartialEq, Eq)]
pub enum DecodeError {
    /// The payload is shorter than the layout of a response frame.
    TruncatedPayload,
}

/// Number of the first cell that a cell-group frame reports.
pub open spec fn base_cell(group_number: int, group_index: int) -> int {
    group_number * CELLS_PER_GROUP as int + group_index * CELLS_PER_FRAME as int + 1
}

/// Number of cells that a cell-group frame with this group index reports:
/// three, or as many as are left up to the last cell of the group.
pub open spec fn cell_count(group_index: int) -> int {
    let left = CELLS_PER_GROUP as int - group_index * CELLS_PER_FRAME as int;
    if left <= 0 {
        0
    } else if left < CELLS_PER_FRAME as int {
        left
    } else {
        CELLS_PER_FRAME as int
    }
}

/// The unsigned 16-bit field at the offsets `at` and `at + 1`.
pub open spec fn unsigned_field(payload: Seq<u8>, at: int, scale: Scale) -> Scaled {
    Scaled { raw: combine_unsigned(payload[at], payload[at + 1]) as i32, scale }
}

/// The signed 16-bit field at the offsets `at` and `at + 1`.
pub open spec fn signed_field(payload: Seq<u8>, at: int, scale: Scale) -> Scaled {
    Scaled { raw: combine_signed(payload[at], payload[at + 1]) as i32, scale }
}

/// The signed byte at the offset `at`.
pub open spec fn temperature_field(payload: Seq<u8>, at: int) -> i8 {
    signed_byte(payload[at]) as i8
}

/// The pack summary that a payload holds.
pub open spec fn spec_pack_summary(payload: Seq<u8>) -> RecordModel {
    RecordModel::PackSummary {
        voltage: unsigned_field(payload, 2, Scale::Tenths),
        current: signed_field(payload, 4, Scale::Tenths),
    }
}

/// The cell-voltage summary that a payload holds.
pub open spec fn spec_cell_voltage_summary(payload: Seq<u8>) -> RecordModel {
    RecordModel::CellVoltageSummary {
        low: unsigned_field(payload, 2, Scale::TenThousandths),
        mean: unsigned_field(payload, 4, Scale::TenThousandths),
        high: unsigned_field(payload, 6, Scale::TenThousandths),
    }
}

/// The thermistor summary that a payload holds.
pub open spec fn spec_thermistor_summary(payload: Seq<u8>) -> RecordModel {
    RecordModel::ThermistorSummary {
        count: payload[1],
        temp_low: temperature_field(payload, 2),
        temp_high: temperature_field(payload, 3),
        alarm_low: temperature_field(payload, 6),
        alarm_high: temperature_field(payload, 7),
    }
}

/// The state-of-charge summary that a payload holds.
pub open spec fn spec_soc_summary(payload: Seq<u8>) -> RecordModel {
    RecordModel::SocSummary {
        soc: payload[1],
        kwh_current: unsigned_field(payload, 2, Scale::Tenths),
        kwh_max: unsigned_field(payload, 4, Scale::Tenths),
    }
}

/// The charge summary that a charge-controller payload holds.
pub open spec fn spec_charge_summary(payload: Seq<u8>) -> RecordModel {
    RecordModel::ChargeSummary {
        charge_kwh: unsigned_field(payload, 2, Scale::Hundredths),
        charge_state: ChargeState::spec_from_code(payload[4]),
        plug_state: PlugState::spec_from_code(payload[5]),
    }
}

/// The alerts that a charge-controller payload holds.
pub open spec fn spec_alert_bitfield(payload: Seq<u8>) -> RecordModel {
    RecordModel::AlertBitfield {
        flags: spec_decode_alerts(combine_unsigned(payload[6], payload[7]) as u16),
    }
}

/// The auxiliary thermistor pair that a payload holds.
pub open spec fn spec_aux_thermistor_pair(payload: Seq<u8>) -> RecordModel {
    RecordModel::AuxThermistorPair {
        th_a: temperature_field(payload, 6),
        th_b: temperature_field(payload, 7),
    }
}

/// The cell voltages that a cell-group payload holds: consecutive cell
/// numbers from the base cell on, each with the word at its pair of offsets.
pub open spec fn spec_cell_group(group_number: u8, payload: Seq<u8>) -> RecordModel {
    let count = cell_count(payload[0] as int) as nat;
    RecordModel::CellGroupVoltages {
        group_index: payload[0],
        cell_numbers: Seq::new(
            count,
            |k: int| (base_cell(group_number as int, payload[0] as int) + k) as u8,
        ),
        voltages: Seq::new(count, |k: int| unsigned_field(payload, 2 + 2 * k, Scale::TenThousandths)),
    }
}

/// The records that a payload of sufficient length decodes to, in the order
/// in which they are handed on.
pub open spec fn spec_records(kind: FrameKind, payload: Seq<u8>) -> Seq<RecordModel> {
    match kind {
        FrameKind::CellGroup { group_number } => {
            if cell_count(payload[0] as int) == 0 {
                Seq::empty()
            } else {
                seq![spec_cell_group(group_number, payload)]
            }
        },
        FrameKind::McuSummary => seq![spec_alert_bitfield(payload), spec_charge_summary(payload)],
        FrameKind::PackSummary => seq![spec_pack_summary(payload)],
        FrameKind::CellVoltageSummary => seq![spec_cell_voltage_summary(payload)],
        FrameKind::ThermistorSummary => seq![spec_thermistor_summary(payload)],
        FrameKind::SocSummary => seq![spec_soc_summary(payload)],
        FrameKind::AuxThermistor => {
            if payload[0] != 0 {
                Seq::empty()
            } else {
                seq![spec_aux_thermistor_pair(payload)]
            }
        },
    }
}

/// What decoding a payload as a frame of the given kind gives: an error when
/// the payload is shorter than a response frame, else its records.
pub open spec fn spec_decode_kind(kind: FrameKind, payload: Seq<u8>) -> Result<
    Seq<RecordModel>,
    DecodeError,
> {
    if payload.len() < RESPONSE_PAYLOAD_LEN {
        Err(DecodeError::TruncatedPayload)
    } else {
        Ok(spec_records(kind, payload))
    }
}

/// What decoding a frame gives: nothing for an unknown identifier, else what
/// its kind gives.
pub open spec fn spec_decode(identifier: u32, payload: Seq<u8>) -> Result<
    Seq<RecordModel>,
    DecodeError,
> {
    match spec_classify(identifier) {
        None => Ok(Seq::empty()),
        Some(kind) => spec_decode_kind(kind, payload),
    }
}

/// `records` are exactly the records `expected`, one by one and in order.
pub open spec fn are_records(records: Seq<TelemetryRecord>, expected: Seq<RecordModel>) -> bool {
    &&& records.len() == expected.len()
    &&& forall|i: int| 0 <= i < records.len() ==> (#[trigger] records[i])@ == expected[i]
}

fn read_unsigned(payload: &[u8], at: usize, scale: Scale) -> (value: Scaled)
    requires
        at + 1 < payload@.len(),
    ensures
        value == unsigned_field(payload@, at as int, scale),
{
    let word = bytes_to_word_unsigned(payload[at], payload[at + 1]);
    Scaled { raw: word as i32, scale }
}

fn read_signed(payload: &[u8], at: usize, scale: Scale) -> (value: Scaled)
    requires
        at + 1 < payload@.len(),
    ensures
        value == signed_field(payload@, at as int, scale),
{
    let word = bytes_to_word_signed(payload[at], payload[at + 1]);
    Scaled { raw: word as i32, scale }
}

fn read_temperature(payload: &[u8], at: usize) -> (value: i8)
    requires
        at < payload@.len(),
    ensures
        value == temperature_field(payload@, at as int),
{
    as_signed_byte(payload[at])
}

/// Decodes the payload of a pack summary.
pub fn decode_pack_summary(payload: &[u8]) -> (result: Result<TelemetryRecord, DecodeError>)
    ensures
        result is Err <==> payload@.len() < RESPONSE_PAYLOAD_LEN,
        result matches Ok(record) ==> record@ == spec_pack_summary(payload@),
{
    if payload.len() < RESPONSE_PAYLOAD_LEN {
        return Err(DecodeError::TruncatedPayload);
    }
    Ok(
        TelemetryRecord::PackSummary {
            voltage: read_unsigned(payload, 2, Scale::Tenths),
            current: read_signed(payload, 4, Scale::Tenths),
        },
    )
}

/// Decodes the payload of a cell-voltage summary.
pub fn decode_cell_voltage_summary(payload: &[u8]) -> (result: Result<TelemetryRecord, DecodeError>)
    ensures
        result is Err <==> payload@.len() < RESPONSE_PAYLOAD_LEN,
        result matches Ok(record) ==> record@ == spec_cell_voltage_summary(payload@),
{
    if payload.len() < RESPONSE_PAYLOAD_LEN {
        return Err(DecodeError::TruncatedPayload);
    }
    Ok(
        TelemetryRecord::CellVoltageSummary {
            low: read_unsigned(payload, 2, Scale::TenThousandths),
            mean: read_unsigned(payload, 4, Scale::TenThousandths),
            high: read_unsigned(payload, 6, Scale::TenThousandths),
        },
    )
}

/// Decodes the payload of a thermistor summary.
pub fn decode_thermistor_summary(payload: &[u8]) -> (result: Result<TelemetryRecord, DecodeError>)
    ensures
        result is Err <==> payload@.len() < RESPONSE_PAYLOAD_LEN,
        result matches Ok(record) ==> record@ == spec_thermistor_summary(payload@),
{
    if payload.len() < RESPONSE_PAYLOAD_LEN {
        return Err(DecodeError::TruncatedPayload);
    }
    Ok(
        TelemetryRecord::ThermistorSummary {
            count: payload[1],
            temp_low: read_temperature(payload, 2),
            temp_high: read_temperature(payload, 3),
            alarm_low: read_temperature(payload, 6),
            alarm_high: read_temperature(payload, 7),
        },
    )
}

/// Decodes the payload of a state-of-charge summary.
pub fn decode_soc_summary(payload: &[u8]) -> (result: Result<TelemetryRecord, DecodeError>)
    ensures
        result is Err <==> payload@.len() < RESPONSE_PAYLOAD_LEN,
        result matches Ok(record) ==> record@ == spec_soc_summary(payload@),
{
    if payload.len() < RESPONSE_PAYLOAD_LEN {
        return Err(DecodeError::TruncatedPayload);
    }
    Ok(
        TelemetryRecord::SocSummary {
            soc: payload[1],
            kwh_current: read_unsigned(payload, 2, Scale::Tenths),
            kwh_max: read_unsigned(payload, 4, Scale::Tenths),
        },
    )
}

/// Decodes the payload of a charge-controller summary into the alerts and
/// the charge summary, in this order.
pub fn decode_mcu_summary(payload: &[u8]) -> (result: Result<
    (TelemetryRecord, TelemetryRecord),
    DecodeError,
>)
    ensures
        result is Err <==> payload@.len() < RESPONSE_PAYLOAD_LEN,
        result matches Ok(records) ==> records.0@ == spec_alert_bitfield(payload@) && records.1@
            == spec_charge_summary(payload@),
{
    if payload.len() < RESPONSE_PAYLOAD_LEN {
        return Err(DecodeError::TruncatedPayload);
    }
    let charge = TelemetryRecord::ChargeSummary {
        charge_kwh: read_unsigned(payload, 2, Scale::Hundredths),
        charge_state: ChargeState::from_code(payload[4]),
        plug_state: PlugState::from_code(payload[5]),
    };
    let alerts = bytes_to_word_unsigned(payload[6], payload[7]);
    Ok((TelemetryRecord::AlertBitfield { flags: decode_alerts(alerts) }, charge))
}

/// Decodes the payload of an auxiliary thermistor frame. Only a frame whose
/// first byte is zero carries the pair; any other gives nothing.
pub fn decode_aux_thermistor(payload: &[u8]) -> (result: Result<
    Option<TelemetryRecord>,
    DecodeError,
>)
    ensures
        result is Err <==> payload@.len() < RESPONSE_PAYLOAD_LEN,
        result matches Ok(found) ==> (found is Some <==> payload@[0] == 0),
        result matches Ok(Some(record)) ==> record@ == spec_aux_thermistor_pair(payload@),
{
    if payload.len() < RESPONSE_PAYLOAD_LEN {
        return Err(DecodeError::TruncatedPayload);
    }
    if payload[0] != 0 {
        return Ok(None);
    }
    Ok(
        Some(
            TelemetryRecord::AuxThermistorPair {
                th_a: read_temperature(payload, 6),
                th_b: read_temperature(payload, 7),
            },
        ),
    )
}

/// Number of cells that a cell-group frame with this group index reports.
pub fn cells_in_frame(group_index: u8) -> (count: u8)
    ensures
        count == cell_count(group_index as int),
        count <= CELLS_PER_FRAME,
{
    let per_frame: u16 = CELLS_PER_FRAME as u16;
    assert(per_frame == 3);
    let first: u16 = group_index as u16 * per_frame;
    if first >= CELLS_PER_GROUP as u16 {
        0
    } else {
        let left: u8 = CELLS_PER_GROUP - first as u8;
        if left < CELLS_PER_FRAME {
            left
        } else {
            CELLS_PER_FRAME
        }
    }
}

/// Decodes the payload of a cell-group frame of the group `group_number`.
/// A group index past the last cell of the group gives nothing.
pub fn decode_cell_group(group_number: u8, payload: &[u8]) -> (result: Result<
    Option<TelemetryRecord>,
    DecodeError,
>)
    requires
        (group_number as int + 1) * CELLS_PER_GROUP as int <= u8::MAX,
    ensures
        result is Err <==> payload@.len() < RESPONSE_PAYLOAD_LEN,
        result matches Ok(found) ==> (found is Some <==> cell_count(payload@[0] as int) > 0),
        result matches Ok(Some(record)) ==> record@ == spec_cell_group(group_number, payload@),
{
    if payload.len() < RESPONSE_PAYLOAD_LEN {
        return Err(DecodeError::TruncatedPayload);
    }
    let group_index = payload[0];
    let count = cells_in_frame(group_index);
    if count == 0 {
        return Ok(None);
    }
    let base: u8 = group_number * CELLS_PER_GROUP + group_index * CELLS_PER_FRAME + 1;
    let mut cell_numbers: Vec<u8> = Vec::new();
    let mut voltages: Vec<Scaled> = Vec::new();
    let mut k: u8 = 0;
    while k < count
        invariant
            k <= count <= CELLS_PER_FRAME,
            count == cell_count(group_index as int),
            base == base_cell(group_number as int, group_index as int),
            base + count <= u8::MAX,
            2 + 2 * count <= payload@.len(),
            cell_numbers@.len() == k,
            voltages@.len() == k,
            forall|j: int| 0 <= j < k ==> cell_numbers@[j] == (base + j) as u8,
            forall|j: int|
                0 <= j < k ==> voltages@[j] == unsigned_field(
                    payload@,
                    2 + 2 * j,
                    Scale::TenThousandths,
                ),
        decreases count - k,
    {
        cell_numbers.push(base + k);
        voltages.push(read_unsigned(payload, 2 + 2 * (k as usize), Scale::TenThousandths));
        k += 1;
    }
    let record = TelemetryRecord::CellGroupVoltages { group_index, cell_numbers, voltages };
    proof {
        let model = spec_cell_group(group_number, payload@);
        assert(record@->CellGroupVoltages_cell_numbers =~= model->CellGroupVoltages_cell_numbers);
        assert(record@->CellGroupVoltages_voltages =~= model->CellGroupVoltages_voltages);
    }
    Ok(Some(record))
}

/// Decodes a payload as a frame of the given kind.
pub fn decode_kind(kind: FrameKind, payload: &[u8]) -> (result: Result<
    Vec<TelemetryRecord>,
    DecodeError,
>)
    requires
        kind matches FrameKind::CellGroup { group_number } ==> (group_number as int + 1)
            * CELLS_PER_GROUP as int <= u8::MAX,
    ensures
        match result {
            Ok(records) => spec_decode_kind(kind, payload@) matches Ok(expected) && are_records(
                records@,
                expected,
            ),
            Err(error) => spec_decode_kind(kind, payload@) == Err::<Seq<RecordModel>, DecodeError>(
                error,
            ),
        },
{
    let mut records: Vec<TelemetryRecord> = Vec::new();
    match kind {
        FrameKind::CellGroup { group_number } => {
            match decode_cell_group(group_number, payload)? {
                Some(record) => records.push(record),
                None => {},
            }
        },
        FrameKind::McuSummary => {
            let (alerts, charge) = decode_mcu_summary(payload)?;
            records.push(alerts);
            records.push(charge);
        },
        FrameKind::PackSummary => records.push(decode_pack_summary(payload)?),
        FrameKind::CellVoltageSummary => records.push(decode_cell_voltage_summary(payload)?),
        FrameKind::ThermistorSummary => records.push(decode_thermistor_summary(payload)?),
        FrameKind::SocSummary => records.push(decode_soc_summary(payload)?),
        FrameKind::AuxThermistor => {
            match decode_aux_thermistor(payload)? {
                Some(record) => records.push(record),
                None => {},
            }
        },
    }
    Ok(records)
}

/// Decodes a frame into its telemetry records. A frame with an unknown
/// identifier gives no record and no error.
pub fn decode(frame: &Frame) -> (result: Result<Vec<TelemetryRecord>, DecodeError>)
    ensures
        match result {
            Ok(records) => spec_decode(frame.identifier, frame.payload@) matches Ok(expected)
                && are_records(records@, expected),
            Err(error) => spec_decode(frame.identifier, frame.payload@) == Err::<
                Seq<RecordModel>,
                DecodeError,
            >(error),
        },
{
    match classify(frame.identifier) {
        None => Ok(Vec::new()),
        Some(kind) => decode_kind(kind, frame.payload.as_slice()),
    }
}

/// The smaller of two integers.
pub open spec fn min_of(a: int, b: int) -> int {
    if a <= b {
        a
    } else {
        b
    }
}

/// Cell numbering: for the two groups and the four group indices of a
/// group, the base cell is `group_number * 10 + group_index * 3 + 1`, and
/// the frame reports three cells or as many as are left up to the tenth
/// cell of the group, at least one.
pub proof fn lemma_cell_numbering(group_number: int, group_index: int)
    requires
        0 <= group_number <= 1,
        0 <= group_index <= 3,
    ensures
        base_cell(group_number, group_index) == group_number * 10 + group_index * 3 + 1,
        cell_count(group_index) == min_of(
            3,
            10 - (base_cell(group_number, group_index) - group_number * 10) + 1,
        ),
        1 <= cell_count(group_index) <= 3,
        base_cell(group_number, group_index) + cell_count(group_index) - 1 <= group_number * 10
            + 10,
{
}

/// No cell-group record crosses the boundary of its group: whatever the
/// group index, the record holds `cell_count` consecutive cell numbers from
/// the base cell on, with one voltage each, and every one of them lies
/// among the ten cells of the group.
pub proof fn lemma_cell_group_stays_in_group(group_number: u8, payload: Seq<u8>)
    requires
        payload.len() >= 1,
        (group_number as int + 1) * CELLS_PER_GROUP as int <= u8::MAX,
    ensures
        spec_cell_group(group_number, payload) matches RecordModel::CellGroupVoltages {
            group_index,
            cell_numbers,
            voltages,
        } && {
            &&& group_index == payload[0]
            &&& cell_numbers.len() == cell_count(payload[0] as int)
            &&& voltages.len() == cell_numbers.len()
            &&& cell_numbers.len() <= CELLS_PER_FRAME
            &&& forall|k: int|
                0 <= k < cell_numbers.len() ==> {
                    &&& #[trigger] cell_numbers[k] == base_cell(
                        group_number as int,
                        payload[0] as int,
                    ) + k
                    &&& group_number * CELLS_PER_GROUP < cell_numbers[k] <= group_number
                        * CELLS_PER_GROUP + CELLS_PER_GROUP
                }
        },
{
}

/// A frame is refused exactly when its identifier is known and its payload
/// is shorter than a response frame, and then as truncated: a frame with an
/// unknown identifier decodes to nothing, whatever its payload, and a frame
/// with all eight payload bytes always decodes.
pub proof fn lemma_truncation(identifier: u32, payload: Seq<u8>)
    ensures
        spec_decode(identifier, payload) is Err <==> (spec_classify(identifier) is Some
            && payload.len() < RESPONSE_PAYLOAD_LEN),
        spec_decode(identifier, payload) matches Err(error) ==> error
            == DecodeError::TruncatedPayload,
        spec_classify(identifier) is None ==> spec_decode(identifier, payload) == Ok::<
            Seq<RecordModel>,
            DecodeError,
        >(Seq::empty()),
        payload.len() >= RESPONSE_PAYLOAD_LEN ==> spec_decode(identifier, payload) is Ok,
{
}

} // verus!

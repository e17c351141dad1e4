//! The telemetry records that decoding produces, and their mathematical model.

use crate::alert::AlertKind;
use vstd::prelude::*;

verus! {

/// The unit of a raw count: the fixed divisor that turns it into the
/// physical value.
#[derive(Clone, Copy, Debug, PartialEq, Eq)]
pub enum Scale {
    /// The raw count is in tenths.
    Tenths,
    /// The raw count is in hundredths.
    Hundredths,
    /// The raw count is in ten-thousandths.
    TenThousandths,
}

impl Scale {
    /// The divisor that the scale stands for.
    pub open spec fn spec_divisor(self) -> u32 {
        match self {
            Scale::Tenths => 10,
            Scale::Hundredths => 100,
            Scale::TenThousandths => 10000,
        }
    }

    /// The divisor that the scale stands for.
    pub fn divisor(self) -> (divisor: u32)
        ensures
            divisor == self.spec_divisor(),
    {
        match self {
            Scale::Tenths => 10,
            Scale::Hundredths => 100,
            Scale::TenThousandths => 10000,
        }
    }

    /// Number of decimal places of a value of this scale.
    pub open spec fn spec_places(self) -> nat {
        match self {
            Scale::Tenths => 1,
            Scale::Hundredths => 2,
            Scale::TenThousandths => 4,
        }
    }

    /// Number of decimal places of a value of this scale.
    pub fn places(self) -> (places: u8)
        ensures
            places == self.spec_places(),
    {
        match self {
            Scale::Tenths => 1,
            Scale::Hundredths => 2,
            Scale::TenThousandths => 4,
        }
    }
}

/// A fixed-point quantity: the physical value is `raw` divided by the
/// divisor of `scale`.
#[derive(Clone, Copy, Debug, PartialEq, Eq)]
pub struct Scaled {
    pub raw: i32,
    pub scale: Scale,
}

/// Charging phase reported by the charge controller.
#[derive(Clone, Copy, Debug, PartialEq, Eq)]
pub enum ChargeState {
    Standby,
    Startup,
    Warmdown,
    Bulk,
    Finish,
    Float,
    TopBalance,
    /// Any code outside the seven known ones.
    NotAvailable,
}

impl ChargeState {
    /// The phase that a raw state code stands for.
    pub open spec fn spec_from_code(code: u8) -> ChargeState {
        if code == 0 {
            ChargeState::Standby
        } else if code == 1 {
            ChargeState::Startup
        } else if code == 2 {
            ChargeState::Warmdown
        } else if code == 10 {
            ChargeState::Bulk
        } else if code == 11 {
            ChargeState::Finish
        } else if code == 12 {
            ChargeState::Float
        } else if code == 13 {
            ChargeState::TopBalance
        } else {
            ChargeState::NotAvailable
        }
    }

    /// Reads a raw state code.
    pub fn from_code(code: u8) -> (state: ChargeState)
        ensures
            state == Self::spec_from_code(code),
    {
        match code {
            0 => ChargeState::Standby,
            1 => ChargeState::Startup,
            2 => ChargeState::Warmdown,
            10 => ChargeState::Bulk,
            11 => ChargeState::Finish,
            12 => ChargeState::Float,
            13 => ChargeState::TopBalance,
            _ => ChargeState::NotAvailable,
        }
    }

    /// The text under which the phase is published.
    pub open spec fn spec_label(self) -> Seq<char> {
        match self {
            ChargeState::Standby => "Standby"@,
            ChargeState::Startup => "Startup"@,
            ChargeState::Warmdown => "Warmdown"@,
            ChargeState::Bulk => "Bulk"@,
            ChargeState::Finish => "Finish"@,
            ChargeState::Float => "Float"@,
            ChargeState::TopBalance => "Top Balance"@,
            ChargeState::NotAvailable => "N/A"@,
        }
    }

    /// The text under which the phase is published.
    pub fn label(self) -> (text: &'static str)
        ensures
            text@ == self.spec_label(),
    {
        match self {
            ChargeState::Standby => "Standby",
            ChargeState::Startup => "Startup",
            ChargeState::Warmdown => "Warmdown",
            ChargeState::Bulk => "Bulk",
            ChargeState::Finish => "Finish",
            ChargeState::Float => "Float",
            ChargeState::TopBalance => "Top Balance",
            ChargeState::NotAvailable => "N/A",
        }
    }
}

/// State of the charge plug reported by the charge controller.
#[derive(Clone, Copy, Debug, PartialEq, Eq)]
pub enum PlugState {
    Unknown,
    Disconnected,
    Connected,
    Locked,
    WaitingForDisconnect,
    Active,
    /// Any code outside the six known ones.
    NotAvailable,
}

impl PlugState {
    /// The plug state that a raw code stands for.
    pub open spec fn spec_from_code(code: u8) -> PlugState {
        if code == 0 {
            PlugState::Unknown
        } else if code == 1 {
            PlugState::Disconnected
        } else if code == 2 {
            PlugState::Connected
        } else if code == 3 {
            PlugState::Locked
        } else if code == 4 {
            PlugState::WaitingForDisconnect
        } else if code == 5 {
            PlugState::Active
        } else {
            PlugState::NotAvailable
        }
    }

    /// Reads a raw plug code.
    pub fn from_code(code: u8) -> (state: PlugState)
        ensures
            state == Self::spec_from_code(code),
    {
        match code {
            0 => PlugState::Unknown,
            1 => PlugState::Disconnected,
            2 => PlugState::Connected,
            3 => PlugState::Locked,
            4 => PlugState::WaitingForDisconnect,
            5 => PlugState::Active,
            _ => PlugState::NotAvailable,
        }
    }

    /// The text under which the plug state is published.
    pub open spec fn spec_label(self) -> Seq<char> {
        match self {
            PlugState::Unknown => "Unknown"@,
            PlugState::Disconnected => "Disconnected"@,
            PlugState::Connected => "Connected"@,
            PlugState::Locked => "Locked"@,
            PlugState::WaitingForDisconnect => "Waiting For Disc"@,
            PlugState::Active => "Active"@,
            PlugState::NotAvailable => "N/A"@,
        }
    }

    /// The text under which the plug state is published.
    pub fn label(self) -> (text: &'static str)
        ensures
            text@ == self.spec_label(),
    {
        match self {
            PlugState::Unknown => "Unknown",
            PlugState::Disconnected => "Disconnected",
            PlugState::Connected => "Connected",
            PlugState::Locked => "Locked",
            PlugState::WaitingForDisconnect => "Waiting For Disc",
            PlugState::Active => "Active",
            PlugState::NotAvailable => "N/A",
        }
    }
}

/// The measurement namespace under which a record is published.
#[derive(Clone, Copy, Debug, PartialEq, Eq)]
pub enum Namespace {
    Pack,
    Bms,
    Cells,
    Mcu,
}

impl Namespace {
    /// The tag value that names the namespace in a metric line.
    pub open spec fn spec_tag(self) -> Seq<char> {
        match self {
            Namespace::Pack => "pack"@,
            Namespace::Bms => "bms"@,
            Namespace::Cells => "cells"@,
            Namespace::Mcu => "mcu"@,
        }
    }

    /// The tag value that names the namespace in a metric line.
    pub fn tag(self) -> (text: &'static str)
        ensures
            text@ == self.spec_tag(),
    {
        match self {
            Namespace::Pack => "pack",
            Namespace::Bms => "bms",
            Namespace::Cells => "cells",
            Namespace::Mcu => "mcu",
        }
    }
}

/// One decoded unit of telemetry.
#[derive(Clone, Debug, PartialEq, Eq)]
pub enum TelemetryRecord {
    /// Pack voltage in volts and pack current in amperes.
    PackSummary { voltage: Scaled, current: Scaled },
    /// Lowest, mean and highest cell voltage, in volts.
    CellVoltageSummary { low: Scaled, mean: Scaled, high: Scaled },
    /// Voltages of consecutive cells: `voltages[k]` belongs to the cell
    /// `cell_numbers[k]`.
    CellGroupVoltages { group_index: u8, cell_numbers: Vec<u8>, voltages: Vec<Scaled> },
    /// Number of thermistors, their extremes and the configured alarms, in
    /// degrees Celsius.
    ThermistorSummary { count: u8, temp_low: i8, temp_high: i8, alarm_low: i8, alarm_high: i8 },
    /// State of charge in percent, remaining and total capacity in kWh.
    SocSummary { soc: u8, kwh_current: Scaled, kwh_max: Scaled },
    /// Energy charged in kWh, charging phase and plug state.
    ChargeSummary { charge_kwh: Scaled, charge_state: ChargeState, plug_state: PlugState },
    /// The alerts, each with whether it is raised.
    AlertBitfield { flags: Vec<(AlertKind, bool)> },
    /// Two auxiliary thermistor readings in degrees Celsius.
    AuxThermistorPair { th_a: i8, th_b: i8 },
}

/// The mathematical value of a `TelemetryRecord`: lists are sequences.
pub enum RecordModel {
    PackSummary { voltage: Scaled, current: Scaled },
    CellVoltageSummary { low: Scaled, mean: Scaled, high: Scaled },
    CellGroupVoltages { group_index: u8, cell_numbers: Seq<u8>, voltages: Seq<Scaled> },
    ThermistorSummary { count: u8, temp_low: i8, temp_high: i8, alarm_low: i8, alarm_high: i8 },
    SocSummary { soc: u8, kwh_current: Scaled, kwh_max: Scaled },
    ChargeSummary { charge_kwh: Scaled, charge_state: ChargeState, plug_state: PlugState },
    AlertBitfield { flags: Seq<(AlertKind, bool)> },
    AuxThermistorPair { th_a: i8, th_b: i8 },
}

impl RecordModel {
    /// The namespace under which a record of this value is published.
    pub open spec fn namespace(self) -> Namespace {
        match self {
            RecordModel::PackSummary { .. } => Namespace::Pack,
            RecordModel::CellVoltageSummary { .. } => Namespace::Cells,
            RecordModel::CellGroupVoltages { .. } => Namespace::Pack,
            RecordModel::ThermistorSummary { .. } => Namespace::Pack,
            RecordModel::SocSummary { .. } => Namespace::Pack,
            RecordModel::ChargeSummary { .. } => Namespace::Mcu,
            RecordModel::AlertBitfield { .. } => Namespace::Bms,
            RecordModel::AuxThermistorPair { .. } => Namespace::Pack,
        }
    }
}

impl View for TelemetryRecord {
    type V = RecordModel;

    open spec fn view(&self) -> RecordModel {
        match *self {
            TelemetryRecord::PackSummary { voltage, current } => RecordModel::PackSummary {
                voltage,
                current,
            },
            TelemetryRecord::CellVoltageSummary { low, mean, high } => {
                RecordModel::CellVoltageSummary { low, mean, high }
            },
            TelemetryRecord::CellGroupVoltages { group_index, cell_numbers, voltages } => {
                RecordModel::CellGroupVoltages {
                    group_index,
                    cell_numbers: cell_numbers@,
                    voltages: voltages@,
                }
            },
            TelemetryRecord::ThermistorSummary {
                count,
                temp_low,
                temp_high,
                alarm_low,
                alarm_high,
            } => RecordModel::ThermistorSummary { count, temp_low, temp_high, alarm_low, alarm_high },
            TelemetryRecord::SocSummary { soc, kwh_current, kwh_max } => RecordModel::SocSummary {
                soc,
                kwh_current,
                kwh_max,
            },
            TelemetryRecord::ChargeSummary { charge_kwh, charge_state, plug_state } => {
                RecordModel::ChargeSummary { charge_kwh, charge_state, plug_state }
            },
            TelemetryRecord::AlertBitfield { flags } => RecordModel::AlertBitfield { flags: flags@ },
            TelemetryRecord::AuxThermistorPair { th_a, th_b } => RecordModel::AuxThermistorPair {
                th_a,
                th_b,
            },
        }
    }
}

impl TelemetryRecord {
    /// The namespace under which the record is published.
    pub fn namespace(&self) -> (ns: Namespace)
        ensures
            ns == self@.namespace(),
    {
        match self {
            TelemetryRecord::PackSummary { .. } => Namespace::Pack,
            TelemetryRecord::CellVoltageSummary { .. } => Namespace::Cells,
            TelemetryRecord::CellGroupVoltages { .. } => Namespace::Pack,
            TelemetryRecord::ThermistorSummary { .. } => Namespace::Pack,
            TelemetryRecord::SocSummary { .. } => Namespace::Pack,
            TelemetryRecord::ChargeSummary { .. } => Namespace::Mcu,
            TelemetryRecord::AlertBitfield { .. } => Namespace::Bms,
            TelemetryRecord::AuxThermistorPair { .. } => Namespace::Pack,
        }
    }
}

} // verus!

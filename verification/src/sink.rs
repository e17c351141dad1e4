//! The metric lines that are handed to the publish sink, one for each
//! telemetry record.
//!
//! A line has the form `measurement,tag=value field=value,field=value,...`.
//! Numbers are written in decimal, text values are quoted.

use crate::alert::AlertKind;
use crate::record::{Namespace, RecordModel, Scaled, TelemetryRecord};
use crate::text::{
    integer_text, push_integer, push_scaled, push_two_digits, scaled_text,
    two_digit_text,
};
use vstd::prelude::*;
use vstd::string::StringExecFns;

verus! {

/// The topic on which metric lines are published.
pub open spec fn spec_metric_topic() -> Seq<char> {
    "mcu"@
}

/// The topic on which metric lines are published.
pub fn metric_topic() -> (topic: &'static str)
    ensures
        topic@ == spec_metric_topic(),
{
    "mcu"
}

/// The start of every line: the measurement, the namespace as its tag, and
/// the blank that separates them from the fields.
pub open spec fn line_header(namespace: Namespace) -> Seq<char> {
    "power,system="@ + namespace.spec_tag() + " "@
}

/// `line` followed by the fields of the first `count` cells, separated by
/// commas: `cv_` and the cell number in two digits, then the voltage.
pub open spec fn with_cell_fields(
    line: Seq<char>,
    cell_numbers: Seq<u8>,
    voltages: Seq<Scaled>,
    count: nat,
) -> Seq<char>
    decreases count,
{
    if count == 0 {
        line
    } else {
        let before = with_cell_fields(line, cell_numbers, voltages, (count - 1) as nat);
        let joined = if count == 1 {
            before
        } else {
            before + ","@
        };
        joined + "cv_"@ + two_digit_text(cell_numbers[count - 1] as nat) + "="@ + scaled_text(
            voltages[count - 1],
        )
    }
}

/// `line` followed by the fields of the first `count` alerts, separated by
/// commas: the alert's name, then 1 where it is raised and 0 where not.
pub open spec fn with_alert_fields(line: Seq<char>, flags: Seq<(AlertKind, bool)>, count: nat) -> Seq<
    char,
>
    decreases count,
{
    if count == 0 {
        line
    } else {
        let before = with_alert_fields(line, flags, (count - 1) as nat);
        let joined = if count == 1 {
            before
        } else {
            before + ","@
        };
        joined + flags[count - 1].0.spec_name() + "="@ + (if flags[count - 1].1 {
            "1"@
        } else {
            "0"@
        })
    }
}

/// Number of cells of a cell-group record that have both a number and a
/// voltage.
pub open spec fn paired_cells(cell_numbers: Seq<u8>, voltages: Seq<Scaled>) -> nat {
    if cell_numbers.len() <= voltages.len() {
        cell_numbers.len()
    } else {
        voltages.len()
    }
}

/// The metric line of a record.
pub open spec fn spec_metric_line(record: RecordModel) -> Seq<char> {
    let header = line_header(record.namespace());
    match record {
        RecordModel::PackSummary { voltage, current } => {
            header + "pack_voltage="@ + scaled_text(voltage) + ",pack_current="@ + scaled_text(
                current,
            )
        },
        RecordModel::CellVoltageSummary { low, mean, high } => {
            header + "cell_voltage_low="@ + scaled_text(low) + ",cell_voltage_mean="@
                + scaled_text(mean) + ",cell_voltage_high="@ + scaled_text(high)
        },
        RecordModel::CellGroupVoltages { group_index, cell_numbers, voltages } => {
            with_cell_fields(header, cell_numbers, voltages, paired_cells(cell_numbers, voltages))
        },
        RecordModel::ThermistorSummary { count, temp_low, temp_high, alarm_low, alarm_high } => {
            header + "thermistor_count="@ + integer_text(count as int) + ",thermistor_temp_low="@
                + integer_text(temp_low as int) + ",thermistor_temp_high="@ + integer_text(
                temp_high as int,
            ) + ",thermistor_temp_low_alarm="@ + integer_text(alarm_low as int)
                + ",thermistor_temp_high_alarm="@ + integer_text(alarm_high as int)
        },
        RecordModel::SocSummary { soc, kwh_current, kwh_max } => {
            header + "soc="@ + integer_text(soc as int) + ",pack_kwh_current="@ + scaled_text(
                kwh_current,
            ) + ",pack_kwh_max="@ + scaled_text(kwh_max)
        },
        RecordModel::ChargeSummary { charge_kwh, charge_state, plug_state } => {
            header + "charge_kwh="@ + scaled_text(charge_kwh) + ",charge_state=\""@
                + charge_state.spec_label() + "\",charge_plug_state=\""@ + plug_state.spec_label()
                + "\""@
        },
        RecordModel::AlertBitfield { flags } => with_alert_fields(header, flags, flags.len()),
        RecordModel::AuxThermistorPair { th_a, th_b } => {
            header + "th_04="@ + integer_text(th_a as int) + ",th_05="@ + integer_text(th_b as int)
        },
    }
}

/// Writes the metric line of a record.
pub fn metric_line(record: &TelemetryRecord) -> (line: String)
    ensures
        line@ == spec_metric_line(record@),
{
    let mut line = String::from_str("power,system=");
    line.append(record.namespace().tag());
    line.append(" ");
    match record {
        TelemetryRecord::PackSummary { voltage, current } => {
            line.append("pack_voltage=");
            push_scaled(&mut line, *voltage);
            line.append(",pack_current=");
            push_scaled(&mut line, *current);
        },
        TelemetryRecord::CellVoltageSummary { low, mean, high } => {
            line.append("cell_voltage_low=");
            push_scaled(&mut line, *low);
            line.append(",cell_voltage_mean=");
            push_scaled(&mut line, *mean);
            line.append(",cell_voltage_high=");
            push_scaled(&mut line, *high);
        },
        TelemetryRecord::CellGroupVoltages { group_index, cell_numbers, voltages } => {
            let count = if cell_numbers.len() <= voltages.len() {
                cell_numbers.len()
            } else {
                voltages.len()
            };
            let ghost header = line@;
            let mut k: usize = 0;
            while k < count
                invariant
                    k <= count,
                    count <= cell_numbers@.len(),
                    count <= voltages@.len(),
                    line@ == with_cell_fields(header, cell_numbers@, voltages@, k as nat),
                decreases count - k,
            {
                if k > 0 {
                    line.append(",");
                }
                line.append("cv_");
                push_two_digits(&mut line, cell_numbers[k]);
                line.append("=");
                push_scaled(&mut line, voltages[k]);
                k += 1;
            }
        },
        TelemetryRecord::ThermistorSummary { count, temp_low, temp_high, alarm_low, alarm_high } => {
            line.append("thermistor_count=");
            push_integer(&mut line, *count as i32);
            line.append(",thermistor_temp_low=");
            push_integer(&mut line, *temp_low as i32);
            line.append(",thermistor_temp_high=");
            push_integer(&mut line, *temp_high as i32);
            line.append(",thermistor_temp_low_alarm=");
            push_integer(&mut line, *alarm_low as i32);
            line.append(",thermistor_temp_high_alarm=");
            push_integer(&mut line, *alarm_high as i32);
        },
        TelemetryRecord::SocSummary { soc, kwh_current, kwh_max } => {
            line.append("soc=");
            push_integer(&mut line, *soc as i32);
            line.append(",pack_kwh_current=");
            push_scaled(&mut line, *kwh_current);
            line.append(",pack_kwh_max=");
            push_scaled(&mut line, *kwh_max);
        },
        TelemetryRecord::ChargeSummary { charge_kwh, charge_state, plug_state } => {
            line.append("charge_kwh=");
            push_scaled(&mut line, *charge_kwh);
            line.append(",charge_state=\"");
            line.append(charge_state.label());
            line.append("\",charge_plug_state=\"");
            line.append(plug_state.label());
            line.append("\"");
        },
        TelemetryRecord::AlertBitfield { flags } => {
            let ghost header = line@;
            let mut k: usize = 0;
            while k < flags.len()
                invariant
                    k <= flags@.len(),
                    line@ == with_alert_fields(header, flags@, k as nat),
                decreases flags@.len() - k,
            {
                if k > 0 {
                    line.append(",");
                }
                line.append(flags[k].0.name());
                line.append("=");
                if flags[k].1 {
                    line.append("1");
                } else {
                    line.append("0");
                }
                k += 1;
            }
        },
        TelemetryRecord::AuxThermistorPair { th_a, th_b } => {
            line.append("th_04=");
            push_integer(&mut line, *th_a as i32);
            line.append(",th_05=");
            push_integer(&mut line, *th_b as i32);
        },
    }
    line
}

} // verus!

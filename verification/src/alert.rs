//! The alert word of the battery-management system: named single-bit flags.

use vstd::prelude::*;

verus! {

/// One named alert of the battery-management system.
#[derive(Clone, Copy, Debug, PartialEq, Eq)]
pub enum AlertKind {
    IllegalConf,
    NotLocked,
    ThermistorUndertemp,
    ThermistorOvertemp,
    CellLvc,
    CellHvc,
    ThermistorCensus,
    CellCensus,
    Hardware,
}

impl AlertKind {
    /// The bits of the alert word that stand for this alert.
    pub open spec fn spec_mask(self) -> u16 {
        match self {
            AlertKind::IllegalConf => 0x0040,
            AlertKind::NotLocked => 0x0080,
            AlertKind::ThermistorUndertemp => 0x0100,
            AlertKind::ThermistorOvertemp => 0x0200,
            AlertKind::CellLvc => 0x0400,
            AlertKind::CellHvc => 0x0800,
            AlertKind::ThermistorCensus => 0x1000,
            AlertKind::CellCensus => 0x2000,
            AlertKind::Hardware => 0x4000,
        }
    }

    /// The bits of the alert word that stand for this alert.
    pub fn mask(self) -> (mask: u16)
        ensures
            mask == self.spec_mask(),
    {
        match self {
            AlertKind::IllegalConf => 0x0040,
            AlertKind::NotLocked => 0x0080,
            AlertKind::ThermistorUndertemp => 0x0100,
            AlertKind::ThermistorOvertemp => 0x0200,
            AlertKind::CellLvc => 0x0400,
            AlertKind::CellHvc => 0x0800,
            AlertKind::ThermistorCensus => 0x1000,
            AlertKind::CellCensus => 0x2000,
            AlertKind::Hardware => 0x4000,
        }
    }

    /// The name under which the alert is published.
    pub open spec fn spec_name(self) -> Seq<char> {
        match self {
            AlertKind::IllegalConf => "BMS_FAULT_ILLEGAL_CONF"@,
            AlertKind::NotLocked => "BMS_FAULT_NOT_LOCKED"@,
            AlertKind::ThermistorUndertemp => "BMS_FAULT_TH_UNDERTEMP"@,
            AlertKind::ThermistorOvertemp => "BMS_FAULT_TH_OVERTEMP"@,
            AlertKind::CellLvc => "BMS_FAULT_CELL_LVC"@,
            AlertKind::CellHvc => "BMS_FAULT_CELL_HVC"@,
            AlertKind::ThermistorCensus => "BMS_FAULT_THERM_CENSUS"@,
            AlertKind::CellCensus => "BMS_FAULT_CELL_CENSUS"@,
            AlertKind::Hardware => "BMS_FAULT_HARDWARE"@,
        }
    }

    /// The name under which the alert is published.
    pub fn name(self) -> (text: &'static str)
        ensures
            text@ == self.spec_name(),
    {
        match self {
            AlertKind::IllegalConf => "BMS_FAULT_ILLEGAL_CONF",
            AlertKind::NotLocked => "BMS_FAULT_NOT_LOCKED",
            AlertKind::ThermistorUndertemp => "BMS_FAULT_TH_UNDERTEMP",
            AlertKind::ThermistorOvertemp => "BMS_FAULT_TH_OVERTEMP",
            AlertKind::CellLvc => "BMS_FAULT_CELL_LVC",
            AlertKind::CellHvc => "BMS_FAULT_CELL_HVC",
            AlertKind::ThermistorCensus => "BMS_FAULT_THERM_CENSUS",
            AlertKind::CellCensus => "BMS_FAULT_CELL_CENSUS",
            AlertKind::Hardware => "BMS_FAULT_HARDWARE",
        }
    }
}

/// The alerts in the order in which they are reported.
pub open spec fn alert_table() -> Seq<AlertKind> {
    seq![
        AlertKind::IllegalConf,
        AlertKind::NotLocked,
        AlertKind::ThermistorUndertemp,
        AlertKind::ThermistorOvertemp,
        AlertKind::CellLvc,
        AlertKind::CellHvc,
        AlertKind::ThermistorCensus,
        AlertKind::CellCensus,
        AlertKind::Hardware,
    ]
}

/// Whether the alert word `alerts` raises the alert `kind`: every bit of the
/// alert's mask is set.
pub open spec fn alert_raised(alerts: u16, kind: AlertKind) -> bool {
    alerts & kind.spec_mask() == kind.spec_mask()
}

/// The flags that an alert word decodes to: one entry for each alert of the
/// table, in the table's order.
pub open spec fn spec_decode_alerts(alerts: u16) -> Seq<(AlertKind, bool)> {
    Seq::new(alert_table().len(), |i: int| (alert_table()[i], alert_raised(alerts, alert_table()[i])))
}

/// The alerts in the order in which they are reported.
pub fn alert_kinds() -> (table: Vec<AlertKind>)
    ensures
        table@ == alert_table(),
{
    let mut table: Vec<AlertKind> = Vec::new();
    table.push(AlertKind::IllegalConf);
    table.push(AlertKind::NotLocked);
    table.push(AlertKind::ThermistorUndertemp);
    table.push(AlertKind::ThermistorOvertemp);
    table.push(AlertKind::CellLvc);
    table.push(AlertKind::CellHvc);
    table.push(AlertKind::ThermistorCensus);
    table.push(AlertKind::CellCensus);
    table.push(AlertKind::Hardware);
    assert(table@ =~= alert_table());
    table
}

/// Decodes an alert word into its named flags.
pub fn decode_alerts(alerts: u16) -> (flags: Vec<(AlertKind, bool)>)
    ensures
        flags@ == spec_decode_alerts(alerts),
{
    let table = alert_kinds();
    let mut flags: Vec<(AlertKind, bool)> = Vec::new();
    let mut i: usize = 0;
    while i < table.len()
        invariant
            table@ == alert_table(),
            i <= table@.len(),
            flags@.len() == i,
            forall|k: int|
                0 <= k < i ==> flags@[k] == (alert_table()[k], alert_raised(alerts, alert_table()[k])),
        decreases table@.len() - i,
    {
        let kind = table[i];
        let mask = kind.mask();
        flags.push((kind, alerts & mask == mask));
        i += 1;
    }
    assert(flags@ =~= spec_decode_alerts(alerts));
    flags
}

/// Each alert is a single bit of the alert word, no two alerts share a bit,
/// and an alert is raised exactly when its bit is set.
pub proof fn lemma_alert_masks(alerts: u16, kind: AlertKind, other: AlertKind)
    ensures
        alert_raised(alerts, kind) <==> alerts & kind.spec_mask() != 0,
        kind != other ==> kind.spec_mask() & other.spec_mask() == 0,
{
    let m = kind.spec_mask();
    let o = other.spec_mask();
    assert((alerts & m == m) <==> (alerts & m != 0)) by (bit_vector)
        requires
            m == 0x0040 || m == 0x0080 || m == 0x0100 || m == 0x0200 || m == 0x0400 || m == 0x0800
                || m == 0x1000 || m == 0x2000 || m == 0x4000,
    ;
    if kind != other {
        assert(m != o);
        assert(m & o == 0) by (bit_vector)
            requires
                m != o,
                m == 0x0040 || m == 0x0080 || m == 0x0100 || m == 0x0200 || m == 0x0400 || m
                    == 0x0800 || m == 0x1000 || m == 0x2000 || m == 0x4000,
                o == 0x0040 || o == 0x0080 || o == 0x0100 || o == 0x0200 || o == 0x0400 || o
                    == 0x0800 || o == 0x1000 || o == 0x2000 || o == 0x4000,
        ;
    }
}

/// An alert word that holds the bit of one alert and no other bit decodes to
/// that alert raised and every other alert not raised.
pub proof fn lemma_single_alert(kind: AlertKind, other: AlertKind)
    ensures
        alert_raised(kind.spec_mask(), other) <==> other == kind,
        spec_decode_alerts(kind.spec_mask()).len() == 9,
        forall|i: int|
            0 <= i < 9 ==> {
                &&& (#[trigger] spec_decode_alerts(kind.spec_mask())[i]).0 == alert_table()[i]
                &&& spec_decode_alerts(kind.spec_mask())[i].1 == (alert_table()[i] == kind)
            },
{
    assert forall|o: AlertKind| alert_raised(kind.spec_mask(), o) <==> o == kind by {
        let m = kind.spec_mask();
        let n = o.spec_mask();
        assert((m & n == n) <==> m == n) by (bit_vector)
            requires
                m == 0x0040 || m == 0x0080 || m == 0x0100 || m == 0x0200 || m == 0x0400 || m
                    == 0x0800 || m == 0x1000 || m == 0x2000 || m == 0x4000,
                n == 0x0040 || n == 0x0080 || n == 0x0100 || n == 0x0200 || n == 0x0400 || n
                    == 0x0800 || n == 0x1000 || n == 0x2000 || n == 0x4000,
        ;
    }
}

} // verus!

//! Bus frames and the catalogue of identifiers that the bridge understands.

use vstd::prelude::*;

verus! {

/// Largest identifier of the 29-bit extended identifier space.
pub const EXTENDED_ID_MAX: u32 = 0x1FFF_FFFF;

/// Largest number of payload bytes that one frame carries.
pub const MAX_PAYLOAD_LEN: usize = 8;

/// Identifier under which every read request is sent.
pub const REQUEST_READ_ID: u32 = 0x14EB_D0D8;

/// Identifier of the voltages of the first cell group.
pub const CELLVOLT_GROUP0: u32 = 0x14FF_A0D0;

/// Identifier of the voltages of the second cell group.
pub const CELLVOLT_GROUP1: u32 = 0x14FF_A1D0;

/// Identifier of the charge-controller summary.
pub const MCUSUM_ID: u32 = 0x14FF_20D0;

/// Identifier of the pack summary.
pub const PACKSUM_ID: u32 = 0x14FF_21D0;

/// Identifier of the cell-voltage summary.
pub const CVSUM_ID: u32 = 0x14FF_22D0;

/// Identifier of the thermistor summary.
pub const THSUM_ID: u32 = 0x14FF_23D0;

/// Identifier of the state-of-charge summary.
pub const SOCSUM_ID: u32 = 0x14FF_24D0;

/// Identifier of the auxiliary thermistor readings.
pub const AUXTH_ID: u32 = 0x14FF_C0D0;

/// One message unit of the bus: an extended identifier and a short payload.
#[derive(Clone, Debug, PartialEq, Eq)]
pub struct Frame {
    pub identifier: u32,
    pub payload: Vec<u8>,
}

impl Frame {
    /// A frame that the bus can carry: the identifier fits 29 bits and the
    /// payload has at most eight bytes.
    pub open spec fn wf(&self) -> bool {
        &&& self.identifier <= EXTENDED_ID_MAX
        &&& self.payload@.len() <= MAX_PAYLOAD_LEN
    }

    /// Builds a frame, or nothing when the identifier does not fit the
    /// extended identifier space or the payload is longer than eight bytes.
    pub fn new(identifier: u32, payload: Vec<u8>) -> (frame: Option<Frame>)
        ensures
            frame.is_some() <==> (identifier <= EXTENDED_ID_MAX && payload@.len()
                <= MAX_PAYLOAD_LEN),
            frame matches Some(f) ==> f.wf() && f.identifier == identifier && f.payload@
                == payload@,
    {
        if identifier <= EXTENDED_ID_MAX && payload.len() <= MAX_PAYLOAD_LEN {
            Some(Frame { identifier, payload })
        } else {
            None
        }
    }
}

/// What a frame reports, as told by its identifier.
#[derive(Clone, Copy, Debug, PartialEq, Eq)]
pub enum FrameKind {
    /// Voltages of up to three cells of the cell group `group_number`.
    CellGroup { group_number: u8 },
    /// Charge-controller state together with the alert word.
    McuSummary,
    /// Pack voltage and current.
    PackSummary,
    /// Lowest, mean and highest cell voltage.
    CellVoltageSummary,
    /// Thermistor count, extremes and configured alarms.
    ThermistorSummary,
    /// State of charge and pack capacity.
    SocSummary,
    /// Two auxiliary thermistor readings.
    AuxThermistor,
}

/// The dispatch table: the kind of frame that each known identifier carries.
pub open spec fn spec_classify(identifier: u32) -> Option<FrameKind> {
    if identifier == CELLVOLT_GROUP0 {
        Some(FrameKind::CellGroup { group_number: 0 })
    } else if identifier == CELLVOLT_GROUP1 {
        Some(FrameKind::CellGroup { group_number: 1 })
    } else if identifier == MCUSUM_ID {
        Some(FrameKind::McuSummary)
    } else if identifier == PACKSUM_ID {
        Some(FrameKind::PackSummary)
    } else if identifier == CVSUM_ID {
        Some(FrameKind::CellVoltageSummary)
    } else if identifier == THSUM_ID {
        Some(FrameKind::ThermistorSummary)
    } else if identifier == SOCSUM_ID {
        Some(FrameKind::SocSummary)
    } else if identifier == AUXTH_ID {
        Some(FrameKind::AuxThermistor)
    } else {
        None
    }
}

/// Looks an identifier up in the dispatch table; unknown identifiers give
/// nothing.
pub fn classify(identifier: u32) -> (kind: Option<FrameKind>)
    ensures
        kind == spec_classify(identifier),
{
    if identifier == CELLVOLT_GROUP0 {
        Some(FrameKind::CellGroup { group_number: 0 })
    } else if identifier == CELLVOLT_GROUP1 {
        Some(FrameKind::CellGroup { group_number: 1 })
    } else if identifier == MCUSUM_ID {
        Some(FrameKind::McuSummary)
    } else if identifier == PACKSUM_ID {
        Some(FrameKind::PackSummary)
    } else if identifier == CVSUM_ID {
        Some(FrameKind::CellVoltageSummary)
    } else if identifier == THSUM_ID {
        Some(FrameKind::ThermistorSummary)
    } else if identifier == SOCSUM_ID {
        Some(FrameKind::SocSummary)
    } else if identifier == AUXTH_ID {
        Some(FrameKind::AuxThermistor)
    } else {
        None
    }
}

} // verus!

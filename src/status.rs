use vstd::prelude::*;

use crate::error::CoolerError;

verus! {

/// The fewest bytes a telemetry report must hold to be decoded.
pub const REPORT_MIN_LEN: usize = 7;

/// A big-endian 16-bit value from its high and low bytes.
pub open spec fn big_endian(hi: u8, lo: u8) -> u16 {
    (hi * 256 + lo) as u16
}

/// One telemetry reading. The coolant temperature is
/// `liquid_temp_whole + liquid_temp_tenths / 10` degrees.
#[derive(Debug, Clone, Copy, PartialEq, Eq, Structural)]
pub struct Status {
    pub liquid_temp_whole: u8,
    pub liquid_temp_tenths: u8,
    /// Fan speed in RPM.
    pub fan_speed: u16,
    /// Pump speed in RPM.
    pub pump_speed: u16,
}

impl Status {
    /// The coolant temperature in tenths of a degree.
    pub open spec fn liquid_temp_decidegrees(self) -> int {
        self.liquid_temp_whole * 10 + self.liquid_temp_tenths
    }

    /// What a report of at least seven bytes decodes to; only bytes 1 to 6
    /// count.
    pub open spec fn decoded(report: Seq<u8>) -> Status {
        Status {
            liquid_temp_whole: report[1],
            liquid_temp_tenths: report[2],
            fan_speed: big_endian(report[3], report[4]),
            pump_speed: big_endian(report[5], report[6]),
        }
    }

    /// Decodes a telemetry report. Any byte values decode; only a report
    /// shorter than seven bytes is refused.
    pub fn from_report(report: &[u8]) -> (r: Result<Status, CoolerError>)
        ensures
            match r {
                Ok(s) => report@.len() >= 7 && s == Status::decoded(report@),
                Err(e) => report@.len() < 7 && e == CoolerError::MalformedReport,
            },
    {
        if report.len() < REPORT_MIN_LEN {
            return Err(CoolerError::MalformedReport);
        }
        let fan_speed = report[3] as u16 * 256 + report[4] as u16;
        let pump_speed = report[5] as u16 * 256 + report[6] as u16;
        Ok(Status {
            liquid_temp_whole: report[1],
            liquid_temp_tenths: report[2],
            fan_speed,
            pump_speed,
        })
    }

    /// The coolant temperature in tenths of a degree, as one number.
    pub fn liquid_temp_in_tenths(&self) -> (r: u16)
        ensures
            r == self.liquid_temp_decidegrees(),
    {
        self.liquid_temp_whole as u16 * 10 + self.liquid_temp_tenths as u16
    }
}

} // verus!

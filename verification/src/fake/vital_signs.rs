//! Lines of simulated vital signs.

use vstd::prelude::*;
use crate::data::text::{append_decimal, decimal};

verus! {

/// The vital signs of one sample.
#[derive(Debug, Clone, Copy, PartialEq, Eq, Structural)]
pub struct VitalSigns {
    /// Heart rate, beats per minute.
    pub hr: usize,
    /// Oxygen saturation, percent.
    pub spo2: usize,
    /// Systolic blood pressure.
    pub bp_sys: usize,
    /// Diastolic blood pressure.
    pub bp_dia: usize,
}

/// The vital signs of sample number `i`: each value walks through a small
/// range above its base.
pub open spec fn signs_of(i: nat) -> VitalSigns {
    VitalSigns {
        hr: (60 + i % 20) as usize,
        spo2: (95 + i % 5) as usize,
        bp_sys: (110 + i % 20) as usize,
        bp_dia: (70 + i % 10) as usize,
    }
}

/// The line of sample number `i`, with the temperature and the time of day
/// as they are to be shown.
pub open spec fn line_of(i: nat, temp: Seq<char>, time: Seq<char>) -> Seq<char> {
    let signs = signs_of(i);
    "PATIENT_ID=12345|HR="@ + decimal(signs.hr as nat) + "|SPO2="@ + decimal(signs.spo2 as nat)
        + "|BP="@ + decimal(signs.bp_sys as nat) + "/"@ + decimal(signs.bp_dia as nat) + "|TEMP="@
        + temp + "|TIME="@ + time + "\n"@
}

/// Simulated output of a patient monitor.
pub struct VitalSignsGenerator;

impl VitalSignsGenerator {
    /// The vital signs of sample number `i`.
    pub fn sample(i: usize) -> (signs: VitalSigns)
        ensures
            signs == signs_of(i as nat),
    {
        VitalSigns { hr: 60 + i % 20, spo2: 95 + i % 5, bp_sys: 110 + i % 20, bp_dia: 70 + i % 10 }
    }

    /// The line of sample number `i`.
    pub fn line(i: usize, temp: &str, time: &str) -> (line: String)
        ensures
            line@ == line_of(i as nat, temp@, time@),
    {
        let signs = Self::sample(i);
        let mut line = String::from_str("PATIENT_ID=12345|HR=");
        append_decimal(&mut line, signs.hr);
        line.append("|SPO2=");
        append_decimal(&mut line, signs.spo2);
        line.append("|BP=");
        append_decimal(&mut line, signs.bp_sys);
        line.append("/");
        append_decimal(&mut line, signs.bp_dia);
        line.append("|TEMP=");
        line.append(temp);
        line.append("|TIME=");
        line.append(time);
        line.append("\n");
        line
    }
}

} // verus!

//! A complete HL7 observation message of a simulated intensive-care bed:
//! header, patient, and the observations of monitor, ventilator and
//! humidifier, one segment per line.

use vstd::prelude::*;
use crate::parse::string_views;

verus! {

/// A segment with the timestamp in its place.
pub open spec fn stamped(head: Seq<char>, timestamp: Seq<char>, tail: Seq<char>) -> Seq<char> {
    head + timestamp + tail
}

/// The message header.
pub open spec fn header_segment(timestamp: Seq<char>) -> Seq<char> {
    stamped(
        "MSH|^~\\&|GE_MONITOR|ICU_01|VITAL_REC|HOSPITAL|"@,
        timestamp,
        "||ORU^R01|MSG000001|P|2.5\r"@,
    )
}

/// The segments that identify the patient and the visit.
pub open spec fn patient_segments() -> Seq<Seq<char>> {
    seq![
        "PID|1||123456^^^HOSPITAL^MR||DOE^JOHN^A||19800515|M|||123 MAIN ST^^PARIS^^75001^FR||(33)123456789||FR|M|CAT|||123-45-6789\r"@,
        "PV1|1|I|ICU^101^01^HOSPITAL||||123456^SMITH^ROBERT^A^^^DR|||SUR||||ADM|||123456^SMITH^ROBERT^A^^^DR||V123456|||||||||||||||||||||||||20250103080000\r"@,
    ]
}

/// The observation request and the observations of the patient monitor, each stamped with the time of the message.
pub open spec fn ge_monitor_segments(timestamp: Seq<char>) -> Seq<Seq<char>> {
    seq![
        stamped(
            "OBR|1|ORD123456|RES123456|VS^VITAL SIGNS^LOCAL|||"@,
            timestamp,
            "||||||||123456^SMITH^ROBERT^A^^^DR\r"@,
        ),
        stamped(
            "OBX|1|NM|8867-4^Heart Rate^LN||72|bpm^beats/min^UCUM|60-100|N|||F|||"@,
            timestamp,
            "||GE_MONITOR^ECG_MODULE\r"@,
        ),
        stamped(
            "OBX|2|ST|8884-9^ECG Rhythm^LN||NSR|||||N|||F|||"@,
            timestamp,
            "||GE_MONITOR^ECG_MODULE\r"@,
        ),
        stamped(
            "OBX|3|NM|9279-1^Respiratory Rate^LN||16|/min^per minute^UCUM|12-20|N|||F|||"@,
            timestamp,
            "||GE_MONITOR^RESP_MODULE\r"@,
        ),
        stamped(
            "OBX|4|NM|8480-6^Systolic BP^LN||125|mm[Hg]^millimeter of mercury^UCUM|90-140|N|||F|||"@,
            timestamp,
            "||GE_MONITOR^PNI_MODULE\r"@,
        ),
        stamped(
            "OBX|5|NM|8462-4^Diastolic BP^LN||78|mm[Hg]^millimeter of mercury^UCUM|60-90|N|||F|||"@,
            timestamp,
            "||GE_MONITOR^PNI_MODULE\r"@,
        ),
        stamped(
            "OBX|6|NM|8478-0^Mean BP^LN||93|mm[Hg]^millimeter of mercury^UCUM|70-105|N|||F|||"@,
            timestamp,
            "||GE_MONITOR^PNI_MODULE\r"@,
        ),
        stamped(
            "OBX|7|NM|2708-6^Oxygen Saturation^LN||98|%^percent^UCUM|95-100|N|||F|||"@,
            timestamp,
            "||GE_MONITOR^SPO2_MODULE\r"@,
        ),
        stamped(
            "OBX|8|NM|8889-8^Pulse Rate^LN||73|bpm^beats/min^UCUM|60-100|N|||F|||"@,
            timestamp,
            "||GE_MONITOR^SPO2_MODULE\r"@,
        ),
        stamped(
            "OBX|9|NM|8310-5^Body Temperature^LN||36.8|Cel^degree Celsius^UCUM|36.0-37.5|N|||F|||"@,
            timestamp,
            "||GE_MONITOR^TEMP_MODULE\r"@,
        ),
        stamped(
            "OBX|10|NM|76213-3^Arterial Systolic BP^LN||122|mm[Hg]^millimeter of mercury^UCUM|90-140|N|||F|||"@,
            timestamp,
            "||GE_MONITOR^PI_MODULE\r"@,
        ),
        stamped(
            "OBX|11|NM|76214-1^Arterial Diastolic BP^LN||75|mm[Hg]^millimeter of mercury^UCUM|60-90|N|||F|||"@,
            timestamp,
            "||GE_MONITOR^PI_MODULE\r"@,
        ),
        stamped(
            "OBX|12|NM|76215-8^Arterial Mean BP^LN||91|mm[Hg]^millimeter of mercury^UCUM|70-105|N|||F|||"@,
            timestamp,
            "||GE_MONITOR^PI_MODULE\r"@,
        ),
        stamped(
            "OBX|13|NM|8741-1^Cardiac Output^LN||5.2|L/min^liter/minute^UCUM|4.0-8.0|N|||F|||"@,
            timestamp,
            "||GE_MONITOR^DC_MODULE\r"@,
        ),
        stamped(
            "OBX|14|NM|8842-7^Cardiac Index^LN||2.8|L/min/m2^liter/minute/meter^2^UCUM|2.5-4.0|N|||F|||"@,
            timestamp,
            "||GE_MONITOR^DC_MODULE\r"@,
        ),
        stamped(
            "OBX|15|NM|20562-5^Stroke Volume^LN||72|mL^milliliter^UCUM|60-100|N|||F|||"@,
            timestamp,
            "||GE_MONITOR^DC_MODULE\r"@,
        ),
        stamped(
            "OBX|16|NM|19889-5^End Tidal CO2^LN||38|mm[Hg]^millimeter of mercury^UCUM|35-45|N|||F|||"@,
            timestamp,
            "||GE_MONITOR^CO2_MODULE\r"@,
        ),
        stamped(
            "OBX|17|NM|76270-3^Respiratory Rate CO2^LN||16|/min^per minute^UCUM|12-20|N|||F|||"@,
            timestamp,
            "||GE_MONITOR^CO2_MODULE\r"@,
        ),
        stamped(
            "OBX|18|NM|90371-9^BIS Index^LN||45|{score}^score^UCUM|40-60|N|||F|||"@,
            timestamp,
            "||GE_MONITOR^BIS_MODULE\r"@,
        ),
        stamped(
            "OBX|19|NM|90372-7^BIS Suppression Ratio^LN||5|%^percent^UCUM|0-10|N|||F|||"@,
            timestamp,
            "||GE_MONITOR^BIS_MODULE\r"@,
        ),
        stamped(
            "OBX|20|NM|93503-4^EEG Alpha Power^LN||28|%^percent^UCUM|20-40|N|||F|||"@,
            timestamp,
            "||GE_MONITOR^EEG_MODULE\r"@,
        ),
        stamped(
            "OBX|21|NM|93504-2^EEG Beta Power^LN||35|%^percent^UCUM|20-50|N|||F|||"@,
            timestamp,
            "||GE_MONITOR^EEG_MODULE\r"@,
        ),
        stamped(
            "OBX|22|NM|2713-6^Mixed Venous O2 Sat^LN||72|%^percent^UCUM|60-80|N|||F|||"@,
            timestamp,
            "||GE_MONITOR^SVO2_MODULE\r"@,
        ),
    ]
}

/// The observation request and the observations of the ventilator, each stamped with the time of the message.
pub open spec fn ventilator_segments(timestamp: Seq<char>) -> Seq<Seq<char>> {
    seq![
        stamped(
            "OBR|2|VENT123456|VRES123456|VENT^VENTILATION^LOCAL|||"@,
            timestamp,
            "||||||||123456^SMITH^ROBERT^A^^^DR\r"@,
        ),
        stamped(
            "OBX|23|NM|20112-9^Tidal Volume^LN||450|mL^milliliter^UCUM|400-600|N|||F|||"@,
            timestamp,
            "||DRAGER^VENTILATOR\r"@,
        ),
        stamped(
            "OBX|24|NM|20139-2^Minute Volume^LN||7.2|L/min^liter/minute^UCUM|5.0-10.0|N|||F|||"@,
            timestamp,
            "||DRAGER^VENTILATOR\r"@,
        ),
        stamped(
            "OBX|25|NM|76531-8^Peak Pressure^LN||22|cm[H2O]^centimeter of water^UCUM|15-30|N|||F|||"@,
            timestamp,
            "||DRAGER^VENTILATOR\r"@,
        ),
        stamped(
            "OBX|26|NM|76530-0^Plateau Pressure^LN||18|cm[H2O]^centimeter of water^UCUM|10-25|N|||F|||"@,
            timestamp,
            "||DRAGER^VENTILATOR\r"@,
        ),
        stamped(
            "OBX|27|NM|76248-9^PEEP^LN||5|cm[H2O]^centimeter of water^UCUM|3-10|N|||F|||"@,
            timestamp,
            "||DRAGER^VENTILATOR\r"@,
        ),
        stamped(
            "OBX|28|NM|3150-0^FiO2^LN||40|%^percent^UCUM|21-100|N|||F|||"@,
            timestamp,
            "||DRAGER^VENTILATOR\r"@,
        ),
        stamped(
            "OBX|29|ST|76334-7^I:E Ratio^LN||1:2.5|||||N|||F|||"@,
            timestamp,
            "||DRAGER^VENTILATOR\r"@,
        ),
    ]
}

/// The observations of the humidifier, each stamped with the time of the message.
pub open spec fn humidifier_segments(timestamp: Seq<char>) -> Seq<Seq<char>> {
    seq![
        stamped(
            "OBX|30|NM|8310-5^Humidifier Temperature^LN||37.0|Cel^degree Celsius^UCUM|36.0-38.0|N|||F|||"@,
            timestamp,
            "||DRAGER^HUMIDIFIER\r"@,
        ),
        stamped(
            "OBX|31|NM|3143-5^Relative Humidity^LN||95|%^percent^UCUM|80-100|N|||F|||"@,
            timestamp,
            "||DRAGER^HUMIDIFIER\r"@,
        ),
        stamped(
            "OBX|32|NM|90401-4^Water Level^LN||85|%^percent^UCUM|50-100|N|||F|||"@,
            timestamp,
            "||DRAGER^HUMIDIFIER\r"@,
        ),
    ]
}

/// The whole message, segment by segment.
pub open spec fn message_segments(timestamp: Seq<char>) -> Seq<Seq<char>> {
    seq![header_segment(timestamp)] + patient_segments() + ge_monitor_segments(timestamp)
        + ventilator_segments(timestamp) + humidifier_segments(timestamp)
}

/// Simulated HL7 output of the devices at one bed.
pub struct Hl7Generator;

impl Hl7Generator {
    /// The whole message for the moment `timestamp`, segment by segment.
    pub fn send(timestamp: &str) -> (lines: Vec<String>)
        ensures
            string_views(lines@) == message_segments(timestamp@),
    {
        let mut lines: Vec<String> = Vec::new();
        lines.push(Self::send_header(timestamp));
        let ghost head = string_views(lines@);
        assert(head =~= seq![header_segment(timestamp@)]);
        let mut patient = Self::send_patient_info();
        let mut monitor = Self::send_ge_monitor_data(timestamp);
        let mut ventilator = Self::send_drager_ventilator_data(timestamp);
        let mut humidifier = Self::send_drager_humidifier_data(timestamp);
        let ghost parts = (
            string_views(patient@),
            string_views(monitor@),
            string_views(ventilator@),
            string_views(humidifier@),
        );
        lines.append(&mut patient);
        assert(string_views(lines@) =~= head + parts.0);
        lines.append(&mut monitor);
        assert(string_views(lines@) =~= head + parts.0 + parts.1);
        lines.append(&mut ventilator);
        assert(string_views(lines@) =~= head + parts.0 + parts.1 + parts.2);
        lines.append(&mut humidifier);
        assert(string_views(lines@) =~= head + parts.0 + parts.1 + parts.2 + parts.3);
        lines
    }

    /// The message header for the moment `timestamp`.
    pub fn send_header(timestamp: &str) -> (line: String)
        ensures
            line@ == header_segment(timestamp@),
    {
        Self::stamp(
            "MSH|^~\\&|GE_MONITOR|ICU_01|VITAL_REC|HOSPITAL|",
            timestamp,
            "||ORU^R01|MSG000001|P|2.5\r",
        )
    }

    /// The segments that identify the patient and the visit.
    pub fn send_patient_info() -> (lines: Vec<String>)
        ensures
            string_views(lines@) == patient_segments(),
    {
        let mut lines: Vec<String> = Vec::new();
        lines.push(String::from_str(
            "PID|1||123456^^^HOSPITAL^MR||DOE^JOHN^A||19800515|M|||123 MAIN ST^^PARIS^^75001^FR||(33)123456789||FR|M|CAT|||123-45-6789\r",
        ));
        lines.push(String::from_str(
            "PV1|1|I|ICU^101^01^HOSPITAL||||123456^SMITH^ROBERT^A^^^DR|||SUR||||ADM|||123456^SMITH^ROBERT^A^^^DR||V123456|||||||||||||||||||||||||20250103080000\r",
        ));
        assert(string_views(lines@) =~= patient_segments());
        lines
    }

    /// The observation request and the observations of the patient monitor.
    pub fn send_ge_monitor_data(timestamp: &str) -> (lines: Vec<String>)
        ensures
            string_views(lines@) == ge_monitor_segments(timestamp@),
    {
        let mut lines: Vec<String> = Vec::new();
        lines.push(Self::stamp(
            "OBR|1|ORD123456|RES123456|VS^VITAL SIGNS^LOCAL|||",
            timestamp,
            "||||||||123456^SMITH^ROBERT^A^^^DR\r",
        ));
        lines.push(Self::stamp(
            "OBX|1|NM|8867-4^Heart Rate^LN||72|bpm^beats/min^UCUM|60-100|N|||F|||",
            timestamp,
            "||GE_MONITOR^ECG_MODULE\r",
        ));
        lines.push(Self::stamp(
            "OBX|2|ST|8884-9^ECG Rhythm^LN||NSR|||||N|||F|||",
            timestamp,
            "||GE_MONITOR^ECG_MODULE\r",
        ));
        lines.push(Self::stamp(
            "OBX|3|NM|9279-1^Respiratory Rate^LN||16|/min^per minute^UCUM|12-20|N|||F|||",
            timestamp,
            "||GE_MONITOR^RESP_MODULE\r",
        ));
        lines.push(Self::stamp(
            "OBX|4|NM|8480-6^Systolic BP^LN||125|mm[Hg]^millimeter of mercury^UCUM|90-140|N|||F|||",
            timestamp,
            "||GE_MONITOR^PNI_MODULE\r",
        ));
        lines.push(Self::stamp(
            "OBX|5|NM|8462-4^Diastolic BP^LN||78|mm[Hg]^millimeter of mercury^UCUM|60-90|N|||F|||",
            timestamp,
            "||GE_MONITOR^PNI_MODULE\r",
        ));
        lines.push(Self::stamp(
            "OBX|6|NM|8478-0^Mean BP^LN||93|mm[Hg]^millimeter of mercury^UCUM|70-105|N|||F|||",
            timestamp,
            "||GE_MONITOR^PNI_MODULE\r",
        ));
        lines.push(Self::stamp(
            "OBX|7|NM|2708-6^Oxygen Saturation^LN||98|%^percent^UCUM|95-100|N|||F|||",
            timestamp,
            "||GE_MONITOR^SPO2_MODULE\r",
        ));
        lines.push(Self::stamp(
            "OBX|8|NM|8889-8^Pulse Rate^LN||73|bpm^beats/min^UCUM|60-100|N|||F|||",
            timestamp,
            "||GE_MONITOR^SPO2_MODULE\r",
        ));
        lines.push(Self::stamp(
            "OBX|9|NM|8310-5^Body Temperature^LN||36.8|Cel^degree Celsius^UCUM|36.0-37.5|N|||F|||",
            timestamp,
            "||GE_MONITOR^TEMP_MODULE\r",
        ));
        lines.push(Self::stamp(
            "OBX|10|NM|76213-3^Arterial Systolic BP^LN||122|mm[Hg]^millimeter of mercury^UCUM|90-140|N|||F|||",
            timestamp,
            "||GE_MONITOR^PI_MODULE\r",
        ));
        lines.push(Self::stamp(
            "OBX|11|NM|76214-1^Arterial Diastolic BP^LN||75|mm[Hg]^millimeter of mercury^UCUM|60-90|N|||F|||",
            timestamp,
            "||GE_MONITOR^PI_MODULE\r",
        ));
        lines.push(Self::stamp(
            "OBX|12|NM|76215-8^Arterial Mean BP^LN||91|mm[Hg]^millimeter of mercury^UCUM|70-105|N|||F|||",
            timestamp,
            "||GE_MONITOR^PI_MODULE\r",
        ));
        lines.push(Self::stamp(
            "OBX|13|NM|8741-1^Cardiac Output^LN||5.2|L/min^liter/minute^UCUM|4.0-8.0|N|||F|||",
            timestamp,
            "||GE_MONITOR^DC_MODULE\r",
        ));
        lines.push(Self::stamp(
            "OBX|14|NM|8842-7^Cardiac Index^LN||2.8|L/min/m2^liter/minute/meter^2^UCUM|2.5-4.0|N|||F|||",
            timestamp,
            "||GE_MONITOR^DC_MODULE\r",
        ));
        lines.push(Self::stamp(
            "OBX|15|NM|20562-5^Stroke Volume^LN||72|mL^milliliter^UCUM|60-100|N|||F|||",
            timestamp,
            "||GE_MONITOR^DC_MODULE\r",
        ));
        lines.push(Self::stamp(
            "OBX|16|NM|19889-5^End Tidal CO2^LN||38|mm[Hg]^millimeter of mercury^UCUM|35-45|N|||F|||",
            timestamp,
            "||GE_MONITOR^CO2_MODULE\r",
        ));
        lines.push(Self::stamp(
            "OBX|17|NM|76270-3^Respiratory Rate CO2^LN||16|/min^per minute^UCUM|12-20|N|||F|||",
            timestamp,
            "||GE_MONITOR^CO2_MODULE\r",
        ));
        lines.push(Self::stamp(
            "OBX|18|NM|90371-9^BIS Index^LN||45|{score}^score^UCUM|40-60|N|||F|||",
            timestamp,
            "||GE_MONITOR^BIS_MODULE\r",
        ));
        lines.push(Self::stamp(
            "OBX|19|NM|90372-7^BIS Suppression Ratio^LN||5|%^percent^UCUM|0-10|N|||F|||",
            timestamp,
            "||GE_MONITOR^BIS_MODULE\r",
        ));
        lines.push(Self::stamp(
            "OBX|20|NM|93503-4^EEG Alpha Power^LN||28|%^percent^UCUM|20-40|N|||F|||",
            timestamp,
            "||GE_MONITOR^EEG_MODULE\r",
        ));
        lines.push(Self::stamp(
            "OBX|21|NM|93504-2^EEG Beta Power^LN||35|%^percent^UCUM|20-50|N|||F|||",
            timestamp,
            "||GE_MONITOR^EEG_MODULE\r",
        ));
        lines.push(Self::stamp(
            "OBX|22|NM|2713-6^Mixed Venous O2 Sat^LN||72|%^percent^UCUM|60-80|N|||F|||",
            timestamp,
            "||GE_MONITOR^SVO2_MODULE\r",
        ));
        assert(string_views(lines@) =~= ge_monitor_segments(timestamp@));
        lines
    }

    /// The observation request and the observations of the ventilator.
    pub fn send_drager_ventilator_data(timestamp: &str) -> (lines: Vec<String>)
        ensures
            string_views(lines@) == ventilator_segments(timestamp@),
    {
        let mut lines: Vec<String> = Vec::new();
        lines.push(Self::stamp(
            "OBR|2|VENT123456|VRES123456|VENT^VENTILATION^LOCAL|||",
            timestamp,
            "||||||||123456^SMITH^ROBERT^A^^^DR\r",
        ));
        lines.push(Self::stamp(
            "OBX|23|NM|20112-9^Tidal Volume^LN||450|mL^milliliter^UCUM|400-600|N|||F|||",
            timestamp,
            "||DRAGER^VENTILATOR\r",
        ));
        lines.push(Self::stamp(
            "OBX|24|NM|20139-2^Minute Volume^LN||7.2|L/min^liter/minute^UCUM|5.0-10.0|N|||F|||",
            timestamp,
            "||DRAGER^VENTILATOR\r",
        ));
        lines.push(Self::stamp(
            "OBX|25|NM|76531-8^Peak Pressure^LN||22|cm[H2O]^centimeter of water^UCUM|15-30|N|||F|||",
            timestamp,
            "||DRAGER^VENTILATOR\r",
        ));
        lines.push(Self::stamp(
            "OBX|26|NM|76530-0^Plateau Pressure^LN||18|cm[H2O]^centimeter of water^UCUM|10-25|N|||F|||",
            timestamp,
            "||DRAGER^VENTILATOR\r",
        ));
        lines.push(Self::stamp(
            "OBX|27|NM|76248-9^PEEP^LN||5|cm[H2O]^centimeter of water^UCUM|3-10|N|||F|||",
            timestamp,
            "||DRAGER^VENTILATOR\r",
        ));
        lines.push(Self::stamp(
            "OBX|28|NM|3150-0^FiO2^LN||40|%^percent^UCUM|21-100|N|||F|||",
            timestamp,
            "||DRAGER^VENTILATOR\r",
        ));
        lines.push(Self::stamp(
            "OBX|29|ST|76334-7^I:E Ratio^LN||1:2.5|||||N|||F|||",
            timestamp,
            "||DRAGER^VENTILATOR\r",
        ));
        assert(string_views(lines@) =~= ventilator_segments(timestamp@));
        lines
    }

    /// The observations of the humidifier.
    pub fn send_drager_humidifier_data(timestamp: &str) -> (lines: Vec<String>)
        ensures
            string_views(lines@) == humidifier_segments(timestamp@),
    {
        let mut lines: Vec<String> = Vec::new();
        lines.push(Self::stamp(
            "OBX|30|NM|8310-5^Humidifier Temperature^LN||37.0|Cel^degree Celsius^UCUM|36.0-38.0|N|||F|||",
            timestamp,
            "||DRAGER^HUMIDIFIER\r",
        ));
        lines.push(Self::stamp(
            "OBX|31|NM|3143-5^Relative Humidity^LN||95|%^percent^UCUM|80-100|N|||F|||",
            timestamp,
            "||DRAGER^HUMIDIFIER\r",
        ));
        lines.push(Self::stamp(
            "OBX|32|NM|90401-4^Water Level^LN||85|%^percent^UCUM|50-100|N|||F|||",
            timestamp,
            "||DRAGER^HUMIDIFIER\r",
        ));
        assert(string_views(lines@) =~= humidifier_segments(timestamp@));
        lines
    }

    /// A segment with the timestamp in its place.
    fn stamp(head: &str, timestamp: &str, tail: &str) -> (line: String)
        ensures
            line@ == stamped(head@, timestamp@, tail@),
    {
        let mut line = head.to_owned();
        line.append(timestamp);
        line.append(tail);
        line
    }
}

} // verus!

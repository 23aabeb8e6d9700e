//! Framed waveform samples.

use vstd::prelude::*;

verus! {

/// The packet of sample number `i` with the given value: start mark, the
/// sample number in eight bits, the value, the sum of the two in eight bits,
/// end mark.
pub open spec fn packet_of(i: nat, value: u8) -> Seq<u8> {
    seq![0x02u8, (i % 256) as u8, value, ((i % 256 + value) % 256) as u8, 0x03u8]
}

/// Simulated binary waveform data.
pub struct WaveformGenerator;

impl WaveformGenerator {
    /// The packet of sample number `i`.
    pub fn packet(i: usize, value: u8) -> (packet: Vec<u8>)
        ensures
            packet@ == packet_of(i as nat, value),
    {
        let seq: u8 = (i % 256) as u8;
        let checksum: u8 = ((seq as u16 + value as u16) % 256) as u8;
        let mut packet: Vec<u8> = Vec::new();
        packet.push(0x02);
        packet.push(seq);
        packet.push(value);
        packet.push(checksum);
        packet.push(0x03);
        assert(packet@ =~= packet_of(i as nat, value));
        packet
    }
}

} // verus!

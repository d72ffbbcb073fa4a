//! Per-device telemetry aggregation state: one session per tracked meter,
//! each with its own address and its own reassembly buffer. Feeding a
//! notification chunk for one device can never touch another device's
//! session, which is the isolation the aggregation loop depends on.

use vstd::prelude::*;

use crate::decoder::Measurement;
use crate::decoder::decode_frame;
use crate::decoder::le48;
use crate::reassembler::Reassembler;
use crate::reassembler::buffer_after;
use crate::reassembler::completed_frame;

verus! {

/// One tracked meter: its address (as plain bytes) and the reassembly
/// buffer that is exclusively its own.
pub struct DeviceSession {
    /// Identity of the meter, as the bytes of its hardware address.
    pub address: Vec<u8>,
    /// Reassembly state for this meter's notification stream.
    pub reassembler: Reassembler,
}

/// One decoded reading together with the address of the meter it came
/// from. Emitted once per completed telemetry frame and never mutated.
pub struct Sample {
    /// Address bytes of the meter that produced the frame.
    pub address: Vec<u8>,
    /// The three raw fixed-point readings of the frame.
    pub reading: Measurement,
}

/// Aggregation state over every tracked meter.
pub struct Collector {
    /// The sessions, one per tracked meter, indexed by the order the
    /// meters were added.
    pub sessions: Vec<DeviceSession>,
}

impl Collector {
    /// A collector tracking no meters yet.
    pub fn new() -> (r: Self)
        ensures
            r.sessions@.len() == 0,
    {
        Collector { sessions: Vec::new() }
    }

    /// How many meters are tracked.
    pub fn device_count(&self) -> (n: usize)
        ensures
            n == self.sessions@.len(),
    {
        self.sessions.len()
    }

    /// Start tracking one more meter, with an empty reassembly buffer.
    /// Existing sessions are untouched.
    pub fn add_device(&mut self, address: Vec<u8>)
        ensures
            final(self).sessions@.len() == old(self).sessions@.len() + 1,
            forall|j: int|
                0 <= j < old(self).sessions@.len()
                    ==> final(self).sessions@[j] == old(self).sessions@[j],
            final(self).sessions@.last().address@ == address@,
            final(self).sessions@.last().reassembler@ == Seq::<u8>::empty(),
    {
        self.sessions.push(DeviceSession { address, reassembler: Reassembler::new() });
    }

    /// Feed one notification chunk that arrived for the meter at `index`.
    /// Only that meter's buffer moves, by the reassembly rule; every
    /// other session is left exactly as it was. If the chunk completes a
    /// frame, the decoded reading comes back tagged with the meter's own
    /// address.
    pub fn on_notification(&mut self, index: usize, chunk: &[u8]) -> (r: Option<Sample>)
        requires
            index < old(self).sessions@.len(),
        ensures
            final(self).sessions@.len() == old(self).sessions@.len(),
            forall|j: int|
                0 <= j < old(self).sessions@.len() && j != index
                    ==> final(self).sessions@[j] == old(self).sessions@[j],
            final(self).sessions@[index as int].address@
                == old(self).sessions@[index as int].address@,
            final(self).sessions@[index as int].reassembler@
                == buffer_after(old(self).sessions@[index as int].reassembler@, chunk@),
            (r is Some) == (completed_frame(
                old(self).sessions@[index as int].reassembler@,
                chunk@,
            ) is Some),
            r matches Some(s) ==> ({
                &&& completed_frame(
                    old(self).sessions@[index as int].reassembler@,
                    chunk@,
                ) matches Some(f)
                &&& s.address@ == old(self).sessions@[index as int].address@
                &&& s.reading.voltage_code == le48(f.subrange(5, 11))
                &&& s.reading.current_code == le48(f.subrange(11, 17))
                &&& s.reading.wattage_code == le48(f.subrange(17, 23))
            }),
    {
        let session = &mut self.sessions[index];
        match session.reassembler.feed(chunk) {
            Some(frame) => {
                let reading = decode_frame(frame.as_slice());
                let addr = session.address.clone();
                proof {
                    assert(addr@ =~= old(self).sessions@[index as int].address@);
                }
                Some(Sample { address: addr, reading })
            },
            None => None,
        }
    }
}

} // verus!

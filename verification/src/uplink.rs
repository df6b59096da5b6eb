//! Uplink delivery discipline: the record framing, the MQTT client
//! configuration, and the bounded FIFO queue that spills its oldest
//! records when full and drains in arrival order.

use vstd::prelude::*;

verus! {

/// Configuration of the MQTT uplink client.
#[derive(Debug, Clone, PartialEq, Eq)]
pub struct MqttConfig {
    pub broker: String,
    pub port: u16,
    pub client_id: String,
    /// Keep-alive interval in seconds.
    pub keep_alive_secs: u64,
    /// Cap on unacknowledged in-flight messages.
    pub max_inflight: usize,
}

impl Default for MqttConfig {
    /// The default configuration: a local broker on the standard port.
    fn default() -> (r: MqttConfig)
        ensures
            r.broker@ == "localhost"@,
            r.port == 1883,
            r.client_id@ == "ems_client"@,
            r.keep_alive_secs == 30,
            r.max_inflight == 10,
    {
        MqttConfig {
            broker: String::from_str("localhost"),
            port: 1883,
            client_id: String::from_str("ems_client"),
            keep_alive_secs: 30,
            max_inflight: 10,
        }
    }
}

/// Frames one telemetry record for the upstream topic: the timestamp, a
/// colon, and the payload.
pub fn frame_record(timestamp: &str, payload: &str) -> (r: String)
    ensures
        r@ == timestamp@ + seq![':'] + payload@,
{
    proof {
        reveal_strlit(":");
        assert(":"@ =~= seq![':']);
    }
    let mut r = String::from_str(timestamp);
    r.append(":");
    r.append(payload);
    r
}

/// Bounded in-memory buffer of records awaiting upstream delivery, in
/// arrival order: the record at the front is the oldest. When the buffer
/// is full, accepting a record hands the oldest one back to be spilled
/// to disk; draining hands every record out in arrival order.
pub struct UplinkQueue {
    pub records: Vec<String>,
    /// How many records the buffer holds in memory before spilling.
    pub capacity: usize,
}

impl UplinkQueue {
    /// The buffer never holds more records than its capacity.
    pub open spec fn well_formed(&self) -> bool {
        self.records@.len() <= self.capacity
    }

    /// Builds an empty buffer of the given capacity.
    pub fn new(capacity: usize) -> (r: UplinkQueue)
        ensures
            r.records@.len() == 0,
            r.capacity == capacity,
            r.well_formed(),
    {
        UplinkQueue { records: Vec::new(), capacity }
    }

    /// How many records wait in memory.
    pub fn len(&self) -> (r: usize)
        ensures
            r == self.records@.len(),
    {
        self.records.len()
    }

    /// Accepts one record at the back. A full buffer hands back its
    /// oldest record, to be spilled; the rest keep their order. With no
    /// room at all (capacity zero), the incoming record itself is handed
    /// back.
    pub fn enqueue(&mut self, record: String) -> (spilled: Option<String>)
        requires
            old(self).well_formed(),
        ensures
            final(self).capacity == old(self).capacity,
            final(self).well_formed(),
            old(self).records@.len() < old(self).capacity ==> spilled is None && final(
                self
            ).records@ == old(self).records@.push(record),
            old(self).records@.len() >= old(self).capacity && old(self).records@.len() > 0
                ==> spilled == Some(old(self).records@[0]) && final(self).records@ == old(
                self,
            ).records@.drop_first().push(record),
            old(self).capacity == 0 && old(self).records@.len() == 0 ==> spilled == Some(record)
                && final(self).records@ == old(self).records@,
    {
        if self.records.len() < self.capacity {
            self.records.push(record);
            None
        } else if self.records.len() > 0 {
            let oldest = self.records.remove(0);
            self.records.push(record);
            proof {
                assert(self.records@ =~= old(self).records@.drop_first().push(record));
            }
            Some(oldest)
        } else {
            Some(record)
        }
    }

    /// Hands every buffered record out in arrival order and empties the
    /// buffer, as a recovered uplink drains it.
    pub fn drain(&mut self) -> (r: Vec<String>)
        ensures
            final(self).capacity == old(self).capacity,
            final(self).records@.len() == 0,
            final(self).well_formed(),
            r@ == old(self).records@,
    {
        let mut drained: Vec<String> = Vec::new();
        core::mem::swap(&mut drained, &mut self.records);
        drained
    }

    /// Puts recovered records in front of the buffered ones, keeping both
    /// orders, as the startup scan of the spill directory requires; the
    /// capacity bound applies again from the next `enqueue`.
    pub fn prepend(&mut self, recovered: Vec<String>)
        ensures
            final(self).capacity == old(self).capacity,
            final(self).records@ == recovered@ + old(self).records@,
    {
        let mut rest: Vec<String> = recovered;
        core::mem::swap(&mut rest, &mut self.records);
        self.records.append(&mut rest);
    }
}

} // verus!

//! The count of the bytes that go over one connection, taken where the
//! socket is read and written, so that TLS and framing are counted too.

use crate::collector::{Collector, CollectorView};
use vstd::prelude::*;

verus! {

/// The bytes that went over a connection so far, in each direction.
pub struct CountingConnection {
    bytes_sent: u64,
    bytes_received: u64,
}

impl CountingConnection {
    /// The bytes written so far.
    pub closed spec fn sent(&self) -> nat {
        self.bytes_sent as nat
    }

    /// The bytes read so far.
    pub closed spec fn received(&self) -> nat {
        self.bytes_received as nat
    }

    /// The count of a connection over which nothing went yet.
    pub fn new() -> (counter: CountingConnection)
        ensures
            counter.sent() == 0,
            counter.received() == 0,
    {
        CountingConnection { bytes_sent: 0, bytes_received: 0 }
    }

    /// The bytes written so far.
    pub fn bytes_sent(&self) -> (n: u64)
        ensures
            n == self.sent(),
    {
        self.bytes_sent
    }

    /// The bytes read so far.
    pub fn bytes_received(&self) -> (n: u64)
        ensures
            n == self.received(),
    {
        self.bytes_received
    }

    /// A read went through, which filled the buffer from `filled_before`
    /// bytes to `filled_after`: what it added was received.
    pub fn poll_read(&mut self, filled_before: usize, filled_after: usize)
        requires
            filled_before <= filled_after,
            old(self).received() + (filled_after - filled_before) <= u64::MAX,
        ensures
            final(self).received() == old(self).received() + (filled_after - filled_before),
            final(self).sent() == old(self).sent(),
    {
        let total_len = filled_after - filled_before;
        self.bytes_received = self.bytes_received + total_len as u64;
    }

    /// A write went through, which took `bytes_written` bytes: they were
    /// sent.
    pub fn poll_write(&mut self, bytes_written: usize)
        requires
            old(self).sent() + bytes_written <= u64::MAX,
        ensures
            final(self).sent() == old(self).sent() + bytes_written,
            final(self).received() == old(self).received(),
    {
        self.bytes_sent = self.bytes_sent + bytes_written as u64;
    }

    /// The connection is gone: hands its bytes over to the collector of
    /// the run.
    pub fn drop(self, collector: &mut Collector)
        requires
            old(collector).wf(),
            old(collector)@.stats.bytes_sent + self.sent() <= u64::MAX,
            old(collector)@.stats.bytes_received + self.received() <= u64::MAX,
        ensures
            final(collector)@ == (CollectorView {
                stats: old(collector)@.stats.with_bytes(self.sent(), self.received()),
                ..old(collector)@
            }),
            final(collector).wf(),
    {
        collector.collect_connection(self.bytes_sent, self.bytes_received);
    }
}

} // verus!

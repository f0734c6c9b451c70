//! The transport capability: what a bus adapter must offer so that encoded
//! command bytes can reach the controller.

use vstd::prelude::*;

verus! {

/// The single error kind of this layer: the underlying bus reported a
/// failure (no acknowledgment, contention, timeout, physical fault). The
/// core neither retries nor refines it; the caller decides what it means.
#[derive(Clone, Copy, Debug, PartialEq, Eq, Structural)]
pub struct TransportError;

/// A sink for encoded command bytes: one capability per bus adapter.
///
/// `sent()` is the sink's abstract transmission trace, the command bytes it
/// has accepted so far in order. A call either appends the whole buffer to
/// that trace and returns `Ok`, or appends nothing and reports the failure:
/// there is no partial acceptance, so a failed call leaves protocol state
/// exactly as it was.
pub trait CommandSink {
    /// The command bytes this sink has accepted so far, in order.
    spec fn sent(&self) -> Seq<u8>;

    /// Accept `data` as command bytes (not display data), all of it or
    /// nothing.
    fn write_command_bytes(&mut self, data: &[u8]) -> (r: Result<(), TransportError>)
        ensures
            r is Ok ==> final(self).sent() == old(self).sent() + data@,
            r is Err ==> final(self).sent() == old(self).sent(),
    ;
}

/// An in-memory sink that accepts everything and keeps the transmission
/// trace in a vector, for driving the protocol engine without hardware.
pub struct RecordingSink {
    /// Every command byte accepted so far, in order.
    pub bytes: Vec<u8>,
}

impl RecordingSink {
    /// An empty recording sink: nothing sent yet.
    pub fn new() -> (r: RecordingSink)
        ensures
            r.sent() == Seq::<u8>::empty(),
    {
        RecordingSink { bytes: Vec::new() }
    }
}

impl CommandSink for RecordingSink {
    open spec fn sent(&self) -> Seq<u8> {
        self.bytes@
    }

    fn write_command_bytes(&mut self, data: &[u8]) -> (r: Result<(), TransportError>) {
        let ghost trace0: Seq<u8> = self.bytes@;
        let mut i: usize = 0;
        while i < data.len()
            invariant
                i <= data.len(),
                self.bytes@ == trace0 + data@.take(i as int),
            decreases data.len() - i,
        {
            self.bytes.push(data[i]);
            i = i + 1;
            proof {
                assert(trace0 + data@.take(i as int) =~= (trace0 + data@.take(i - 1)).push(
                    data@[i - 1],
                ));
            }
        }
        proof {
            assert(data@.take(data@.len() as int) =~= data@);
        }
        Ok(())
    }
}

/// A sink whose bus always reports failure: it never accepts a byte. Its
/// trace stays empty, which exercises the error path of the sending step.
pub struct FailingSink;

impl FailingSink {
    /// A sink that refuses every write.
    pub fn new() -> (r: FailingSink)
        ensures
            r.sent() == Seq::<u8>::empty(),
    {
        FailingSink
    }
}

impl CommandSink for FailingSink {
    open spec fn sent(&self) -> Seq<u8> {
        Seq::empty()
    }

    fn write_command_bytes(&mut self, data: &[u8]) -> (r: Result<(), TransportError>) {
        Err(TransportError)
    }
}

} // verus!

use vstd::prelude::*;

verus! {

/// Failure reported by a bus transport.
#[derive(Clone, Copy, Debug, PartialEq, Eq, Structural)]
pub struct BusFault;

/// A two-wire bus transport, as the driver needs it: a single operation
/// issuing one write of a device address byte plus a payload.
///
/// `history()` is the ghost sequence of transactions issued so far, oldest
/// first; `write` appends the attempted transaction whether or not the
/// transport reports success (a failed transaction may still have latched
/// some of its bytes on the device). An implementation outside this crate
/// is trusted to report its outcomes accordingly.
pub trait Bus {
    /// The (address, payload) transactions issued so far, oldest first.
    /// The default leaves the history an arbitrary sequence; the
    /// transports of this crate override it with the transactions they
    /// record.
    open spec fn history(&self) -> Seq<(u8, Seq<u8>)> {
        vstd::pervasive::arbitrary()
    }

    /// Issue one write of `data` at the device address `addr`.
    fn write(&mut self, addr: u8, data: &[u8]) -> (r: Result<(), BusFault>)
        ensures
            final(self).history() == old(self).history().push((addr, data@)),
    ;
}

/// The transactions a recorded `Vec` log stands for.
pub open spec fn recorded_history(writes: Seq<(u8, Vec<u8>)>) -> Seq<(u8, Seq<u8>)> {
    writes.map(|i: int, w: (u8, Vec<u8>)| (w.0, w.1@))
}

/// An in-memory transport that records every write and always succeeds.
pub struct RecordingBus {
    /// Writes in issue order: address byte and payload.
    pub writes: Vec<(u8, Vec<u8>)>,
}

impl RecordingBus {
    /// A recording transport with an empty history.
    pub fn new() -> (r: RecordingBus)
        ensures
            r.history() == Seq::<(u8, Seq<u8>)>::empty(),
    {
        RecordingBus { writes: Vec::new() }
    }
}

impl Bus for RecordingBus {
    open spec fn history(&self) -> Seq<(u8, Seq<u8>)> {
        recorded_history(self.writes@)
    }

    fn write(&mut self, addr: u8, data: &[u8]) -> (r: Result<(), BusFault>) {
        let payload: Vec<u8> = vstd::slice::slice_to_vec(data);
        self.writes.push((addr, payload));
        proof {
            assert(self.history() =~= old(self).history().push((addr, data@)));
        }
        Ok(())
    }
}

/// An in-memory transport that records every write, reports success for
/// the first `fail_from` writes, and reports failure for every write
/// after those.
pub struct FailingBus {
    /// Writes in issue order: address byte and payload.
    pub writes: Vec<(u8, Vec<u8>)>,
    /// How many writes succeed before the transport starts failing.
    pub fail_from: usize,
}

impl FailingBus {
    /// A transport whose first `fail_from` writes succeed.
    pub fn new(fail_from: usize) -> (r: FailingBus)
        ensures
            r.history() == Seq::<(u8, Seq<u8>)>::empty(),
    {
        FailingBus { writes: Vec::new(), fail_from }
    }
}

impl Bus for FailingBus {
    open spec fn history(&self) -> Seq<(u8, Seq<u8>)> {
        recorded_history(self.writes@)
    }

    fn write(&mut self, addr: u8, data: &[u8]) -> (r: Result<(), BusFault>) {
        let payload: Vec<u8> = vstd::slice::slice_to_vec(data);
        self.writes.push((addr, payload));
        proof {
            assert(self.history() =~= old(self).history().push((addr, data@)));
        }
        if self.writes.len() > self.fail_from {
            Err(BusFault)
        } else {
            Ok(())
        }
    }
}

} // verus!

//! The bus that carries frames to a sensor and back, and a session on it that
//! keeps account of every transfer.

use vstd::prelude::*;

verus! {

/// A two-wire bus with addressed devices on it.
///
/// Nothing is assumed of an implementation: a transfer may succeed or fail in any
/// way, and a read may fill the buffer with any bytes.
pub trait Transport {
    /// What the bus reports when a transfer fails.
    type Error;

    /// Sends `bytes` to the device at `address`.
    fn write(&mut self, address: u8, bytes: &[u8]) -> Result<(), Self::Error>;

    /// Fills `buffer` with bytes read from the device at `address`.
    fn read(&mut self, address: u8, buffer: &mut [u8]) -> Result<(), Self::Error>;
}

/// One transfer on the bus, with what was handed over and what came back.
pub enum Transfer<E> {
    /// `bytes` were sent to the device at `address`; `failure` holds what the bus
    /// reported if it did not acknowledge them.
    Write { address: u8, bytes: Seq<u8>, failure: Option<E> },
    /// `len` bytes were asked of the device at `address`; on success `reply`
    /// holds the bytes received.
    Read { address: u8, len: nat, reply: Result<Seq<u8>, E> },
}

/// The failure that a transfer's result reports, if any.
pub open spec fn failure_of<E>(outcome: Result<(), E>) -> Option<E> {
    match outcome {
        Ok(_) => None,
        Err(e) => Some(e),
    }
}

/// What a read leaves in the record: the bytes now in the buffer if the bus
/// reported success, else the failure.
pub open spec fn reply_of<E>(outcome: Result<(), E>, received: Seq<u8>) -> Result<Seq<u8>, E> {
    match outcome {
        Ok(()) => Ok(received),
        Err(e) => Err(e),
    }
}

/// The record of a frame sent to the device at `address`.
pub open spec fn sent<E>(address: u8, frame: Seq<u8>, failure: Option<E>) -> Transfer<E> {
    Transfer::Write { address, bytes: frame, failure }
}

/// The record of `len` bytes asked of the device at `address`.
pub open spec fn asked<E>(address: u8, len: nat, reply: Result<Seq<u8>, E>) -> Transfer<E> {
    Transfer::Read { address, len, reply }
}

/// The bytes that the latest transfer of a record received, if it was a read that
/// succeeded; otherwise no bytes.
pub open spec fn last_reply<E>(transcript: Seq<Transfer<E>>) -> Seq<u8> {
    if transcript.len() == 0 {
        Seq::empty()
    } else {
        match transcript.last() {
            Transfer::Read { reply: Ok(data), .. } => data,
            _ => Seq::empty(),
        }
    }
}

/// A query that went through: on top of `before`, the record `after` holds the
/// frame, acknowledged, and then a read of `len` bytes that succeeded.
pub open spec fn answered<E>(
    before: Seq<Transfer<E>>,
    after: Seq<Transfer<E>>,
    address: u8,
    frame: Seq<u8>,
    len: nat,
) -> bool {
    &&& last_reply(after).len() == len
    &&& after == before.push(sent(address, frame, None)).push(
        asked(address, len, Ok(last_reply(after))),
    )
}

/// A query that failed with `error`: either the frame was refused and nothing was
/// read, or the frame was acknowledged and the read failed.
pub open spec fn unanswered<E>(
    before: Seq<Transfer<E>>,
    after: Seq<Transfer<E>>,
    address: u8,
    frame: Seq<u8>,
    len: nat,
    error: E,
) -> bool {
    ||| after == before.push(sent(address, frame, Some(error)))
    ||| after == before.push(sent(address, frame, None)).push(asked(address, len, Err(error)))
}

/// What one query leaves in the record, whichever way it ended: with a result of
/// `Ok` it was answered, with `Err` it failed with that error.
pub open spec fn exchanged<V, E>(
    before: Seq<Transfer<E>>,
    after: Seq<Transfer<E>>,
    address: u8,
    frame: Seq<u8>,
    len: nat,
    result: Result<V, E>,
) -> bool {
    match result {
        Ok(_) => answered(before, after, address, frame, len),
        Err(error) => unanswered(before, after, address, frame, len, error),
    }
}

/// A bus together with the record of all transfers made on it through this
/// session, oldest first.
pub struct Session<T: Transport> {
    bus: T,
    log: Ghost<Seq<Transfer<T::Error>>>,
}

impl<T: Transport> Session<T> {
    /// The bus that the session holds.
    pub closed spec fn bus(&self) -> T {
        self.bus
    }

    /// Every transfer made through the session so far, oldest first.
    pub closed spec fn transcript(&self) -> Seq<Transfer<T::Error>> {
        self.log@
    }

    /// Opens a session on `bus`, with nothing transferred yet.
    pub fn open(bus: T) -> (r: Self)
        ensures
            r.bus() == bus,
            r.transcript() == Seq::<Transfer<T::Error>>::empty(),
    {
        Session { bus, log: Ghost(Seq::empty()) }
    }

    /// Ends the session and hands the bus back.
    pub fn close(self) -> (r: T)
        ensures
            r == self.bus(),
    {
        self.bus
    }

    /// Continues the session on another bus. The record of transfers stays.
    pub fn replace_bus(&mut self, bus: T)
        ensures
            final(self).bus() == bus,
            final(self).transcript() == old(self).transcript(),
    {
        self.bus = bus;
    }

    /// Sends `bytes` to the device at `address`, once, and records the transfer
    /// with its outcome, which is also the result.
    pub fn write(&mut self, address: u8, bytes: &[u8]) -> (r: Result<(), T::Error>)
        ensures
            final(self).transcript() == old(self).transcript().push(
                sent(address, bytes@, failure_of(r)),
            ),
    {
        let r = self.bus.write(address, bytes);
        proof {
            self.log@ = self.log@.push(sent(address, bytes@, failure_of(r)));
        }
        r
    }

    /// Reads into `buffer` from the device at `address`, once, and records the
    /// transfer with the bytes received or the failure reported.
    pub fn read(&mut self, address: u8, buffer: &mut [u8]) -> (r: Result<(), T::Error>)
        ensures
            final(self).transcript() == old(self).transcript().push(
                asked(address, old(buffer)@.len(), reply_of(r, final(buffer)@)),
            ),
    {
        let r = self.bus.read(address, buffer);
        proof {
            self.log@ = self.log@.push(
                asked(address, old(buffer)@.len(), reply_of(r, buffer@)),
            );
        }
        r
    }

    /// Sends `frame` to the device at `address` and, if the bus acknowledged it,
    /// reads `N` bytes back into `buffer`. The first failure ends the query and is
    /// the result; nothing is tried twice.
    pub fn query<const N: usize>(&mut self, address: u8, frame: &[u8], buffer: &mut [u8; N]) -> (r:
        Result<(), T::Error>)
        ensures
            exchanged(
                old(self).transcript(),
                final(self).transcript(),
                address,
                frame@,
                N as nat,
                r,
            ),
            r is Ok ==> final(buffer)@ == last_reply(final(self).transcript()),
    {
        let sent_frame = self.write(address, frame);
        match sent_frame {
            Ok(()) => {},
            Err(e) => {
                return Err(e);
            },
        }
        let ghost between = self.transcript();
        let r = self.read(address, buffer);
        proof {
            let after = self.transcript();
            assert(after == between.push(asked(address, N as nat, reply_of(r, buffer@))));
            assert(after.last() == asked(address, N as nat, reply_of(r, buffer@)));
        }
        r
    }
}

} // verus!

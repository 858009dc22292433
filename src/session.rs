use vstd::prelude::*;

use crate::error::{FDPError, Operation};
use crate::setup::{Phase, Setup};

verus! {

/// Largest buffer that one native read can fill: its length field is 32 bits wide.
pub const MAX_READ_LEN: usize = 0xffff_ffff;

/// A session whose construction succeeded. It can only be had from a
/// finished `Setup`, so no operation is reachable before initialisation;
/// its operations take `&self`, so no outcome of one leaves it unusable.
#[derive(Debug)]
pub struct Session {
    ready: (),
}

impl Setup {
    /// Hands out the session once construction is finished: the session on
    /// success, the construction's error otherwise.
    pub fn into_session(self) -> (r: Result<Session, FDPError>)
        requires
            self@ is Ready || self@ is Failed,
        ensures
            self@ is Ready <==> r is Ok,
            self@ matches Phase::Failed(e) ==> r matches Err(f) && f == e,
    {
        match self.outcome() {
            Some(Ok(())) => Ok(Session { ready: () }),
            Some(Err(e)) => Err(e),
            None => Err(FDPError::Initialization),
        }
    }
}

impl Session {
    /// The length to hand to the native read for a buffer of `len` bytes,
    /// checked before any native call is made.
    pub fn read_len(&self, len: usize) -> (r: Result<u32, FDPError>)
        ensures
            len <= MAX_READ_LEN <==> r is Ok,
            r matches Ok(n) ==> n as usize == len,
            r is Err ==> r == Err::<u32, FDPError>(FDPError::SizeOverflow),
    {
        if len <= MAX_READ_LEN {
            Ok(len as u32)
        } else {
            Err(FDPError::SizeOverflow)
        }
    }

    /// The result of operation `op`, given whether the native call reported
    /// success.
    pub fn complete(&self, op: Operation, ok: bool) -> (r: Result<(), FDPError>)
        ensures
            ok <==> r is Ok,
            !ok ==> r == Err::<(), FDPError>(FDPError::Operation(op)),
    {
        if ok {
            Ok(())
        } else {
            Err(FDPError::Operation(op))
        }
    }

    /// The result of operation `op`, which yields `value` when the native call
    /// reported success.
    pub fn complete_value(&self, op: Operation, ok: bool, value: u64) -> (r: Result<u64, FDPError>)
        ensures
            ok ==> r == Ok::<u64, FDPError>(value),
            !ok ==> r == Err::<u64, FDPError>(FDPError::Operation(op)),
    {
        if ok {
            Ok(value)
        } else {
            Err(FDPError::Operation(op))
        }
    }
}

} // verus!

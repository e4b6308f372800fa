//! The state of one client session, shared by every protocol operation that
//! is in flight.

use vstd::prelude::*;
use crate::errors::{ProtocolError, Result};
use crate::protocol::signer::Signer;

verus! {

/// The session state. It owns the signer, if one was configured.
pub struct State {
    pub signer: Option<Signer>,
}

impl State {
    /// A session state around the given signer, or without one.
    pub fn new(signer: Option<Signer>) -> (state: State)
        ensures
            state.signer == signer,
    {
        State { signer }
    }

    /// The signer of this session. A session without a signer gives an error
    /// of its own, so that callers can tell it from a protocol error.
    pub fn signer(&mut self) -> (res: Result<&mut Signer>)
        ensures
            res.is_ok() == old(self).signer.is_some(),
            res matches Ok(signer) ==> *signer == old(self).signer.unwrap()
                && final(self).signer == Some(*final(signer)),
            res matches Err(e) ==> e@ == "Signer not initiated"@ && *final(self) == *old(self),
    {
        match &mut self.signer {
            Some(signer) => Ok(signer),
            None => Err(ProtocolError::coerce_static_from_str("Signer not initiated")),
        }
    }
}

} // verus!

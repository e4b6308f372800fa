//! Processing the server's answer to a pool fill: the shared values are
//! derived and stored, then the session's count of ready secrets is raised.

use vstd::prelude::*;
use crate::errors::{ProtocolError, Result};
use crate::mpc::{fill_rpool_k1, fill_rpool_r1};
use crate::protocol::dh_fill_pool::types::{
    all_points, parsed_points, texts_of, DhFillPoolRequest, DhFillPoolResponse, ServerPublics,
    BATCH_SIZE,
};
use crate::protocol::signer::Signer;
use crate::protocol::state::State;
use crate::types::Blockchain;

verus! {

/// Why a fill of the pool is refused, if it is: the server's points were
/// parsed for another blockchain than the request's, or they are not as many
/// as the request's secrets. The pairing of secret and point goes by position,
/// so the two lists must match exactly.
pub open spec fn fill_pool_error(
    request: DhFillPoolRequest,
    server_publics: ServerPublics,
) -> Option<Seq<char>> {
    if request.spec_blockchain() != server_publics.spec_blockchain() {
        Some("Invalid combination of blockchains in fill pool"@)
    } else if request.secret_count() != server_publics.texts().len() {
        Some("Server publics do not match request secrets"@)
    } else {
        None
    }
}

/// Combines each secret of the request with the server's point at the same
/// position and stores the shared values in the pool of the request's curve.
/// This is the cryptographic part of a fill; it touches no session state. It
/// fails, and stores nothing, exactly as `fill_pool_error` says.
pub fn fill_pool(request: &DhFillPoolRequest, server_publics: ServerPublics, signer: &Signer) -> (res:
    Result<()>)
    ensures
        res.is_ok() == fill_pool_error(*request, server_publics).is_none(),
        res matches Err(e) ==> Some(e@) == fill_pool_error(*request, server_publics),
{
    let modulus = signer.paillier_modulus();
    let filled = match (request, &server_publics) {
        (DhFillPoolRequest::Bitcoin(pool), ServerPublics::Bitcoin(points)) => {
            if pool.secrets.len() == points.len() {
                fill_rpool_k1(pool.secrets.clone(), points, modulus)
            } else {
                false
            }
        },
        (DhFillPoolRequest::Ethereum(pool), ServerPublics::Ethereum(points)) => {
            if pool.secrets.len() == points.len() {
                fill_rpool_k1(pool.secrets.clone(), points, modulus)
            } else {
                false
            }
        },
        (DhFillPoolRequest::NEO(pool), ServerPublics::NEO(points)) => {
            if pool.secrets.len() == points.len() {
                fill_rpool_r1(pool.secrets.clone(), points, modulus)
            } else {
                false
            }
        },
        _ => {
            return Err(
                ProtocolError::coerce_static_from_str(
                    "Invalid combination of blockchains in fill pool",
                ),
            );
        },
    };
    if filled {
        Ok(())
    } else {
        Err(ProtocolError::coerce_static_from_str("Server publics do not match request secrets"))
    }
}

/// Why a response is refused before anything is computed from it, if it is:
/// one of its texts encodes no point of the request's curve, or it does not
/// hold a full batch.
pub open spec fn response_error(request: DhFillPoolRequest, response: DhFillPoolResponse) -> Option<
    Seq<char>,
> {
    let texts = texts_of(response.server_publics@);
    if !all_points(request.spec_blockchain().spec_curve(), texts) {
        Some("Could not parse server public point"@)
    } else if texts.len() != BATCH_SIZE {
        Some("Server did not answer with a full batch"@)
    } else {
        None
    }
}

/// Why a batch cannot be credited to a blockchain in a session state, if it
/// cannot: the session has no signer, or the count has no room for a batch.
pub open spec fn credit_error(state: State, chain: Blockchain) -> Option<Seq<char>> {
    if state.signer.is_none() {
        Some("Signer not initiated"@)
    } else if state.signer.unwrap().remaining(chain) + BATCH_SIZE > u64::MAX {
        Some("No room for another batch in the pool"@)
    } else {
        None
    }
}

/// Why processing a response is refused, if it is. The checks come in this
/// order: the response must parse on the request's curve and hold a full
/// batch; the session must have a signer with room for the batch; and the
/// request must hold as many secrets as the response holds points.
pub open spec fn process_error(
    request: DhFillPoolRequest,
    response: DhFillPoolResponse,
    state: State,
) -> Option<Seq<char>> {
    if response_error(request, response).is_some() {
        response_error(request, response)
    } else if credit_error(state, request.spec_blockchain()).is_some() {
        credit_error(state, request.spec_blockchain())
    } else if request.secret_count() != BATCH_SIZE {
        Some("Server publics do not match request secrets"@)
    } else {
        None
    }
}

/// The state after one batch was credited to a blockchain: the count of that
/// blockchain has grown by `BATCH_SIZE`, and nothing else has changed.
pub open spec fn credited(before: State, after: State, chain: Blockchain) -> bool {
    &&& before.signer matches Some(old_signer)
    &&& after.signer matches Some(new_signer)
    &&& new_signer.remaining(chain) == old_signer.remaining(chain) + BATCH_SIZE
    &&& forall|other: Blockchain|
        other != chain ==> new_signer.remaining(other) == old_signer.remaining(other)
    &&& new_signer.modulus() == old_signer.modulus()
}

impl State {
    /// Credits one batch of ready secrets to a blockchain. This is the only
    /// part of a fill that changes the session state. It fails, and changes
    /// nothing, as `credit_error` says.
    pub fn credit_fill(&mut self, chain: Blockchain) -> (res: Result<()>)
        ensures
            res.is_ok() == credit_error(*old(self), chain).is_none(),
            res matches Err(e) ==> Some(e@) == credit_error(*old(self), chain) && *final(self)
                == *old(self),
            res.is_ok() ==> credited(*old(self), *final(self), chain),
    {
        let signer = match self.signer() {
            Ok(signer) => signer,
            Err(e) => {
                return Err(e);
            },
        };
        if !signer.has_room_for(chain, BATCH_SIZE as u32) {
            return Err(
                ProtocolError::coerce_static_from_str("No room for another batch in the pool"),
            );
        }
        signer.fill_r_vals(chain, BATCH_SIZE as u32);
        Ok(())
    }
}

impl DhFillPoolRequest {
    /// Parses the server's answer on the curve of this request and checks
    /// that it holds a full batch. Nothing is stored and no state is read.
    pub fn check_response(&self, response: &DhFillPoolResponse) -> (res: Result<ServerPublics>)
        ensures
            res.is_ok() == response_error(*self, *response).is_none(),
            res matches Err(e) ==> Some(e@) == response_error(*self, *response),
            res matches Ok(publics) ==> publics.spec_blockchain() == self.spec_blockchain()
                && publics.texts() == parsed_points(
                self.spec_blockchain().spec_curve(),
                texts_of(response.server_publics@),
            ),
    {
        let server_publics = match ServerPublics::from_hexstrings(self.blockchain(), response) {
            Ok(publics) => publics,
            Err(e) => {
                return Err(e);
            },
        };
        if server_publics.len() != BATCH_SIZE {
            return Err(
                ProtocolError::coerce_static_from_str("Server did not answer with a full batch"),
            );
        }
        Ok(server_publics)
    }

    /// Updates the pool with the server's answer. On success the shared
    /// values of the whole batch are stored and the session's count of ready
    /// secrets for the request's blockchain has grown by exactly
    /// `BATCH_SIZE`; the counts of the other blockchains are as they were.
    /// On any failure, among them an answer that is not a full batch, the
    /// session state is left as it was: there is no partial credit.
    pub fn process_response(&self, response: &DhFillPoolResponse, state: &mut State) -> (res:
        Result<()>)
        ensures
            res.is_ok() == process_error(*self, *response, *old(state)).is_none(),
            res matches Err(e) ==> Some(e@) == process_error(*self, *response, *old(state))
                && *final(state) == *old(state),
            res.is_ok() ==> credited(*old(state), *final(state), self.spec_blockchain()),
    {
        let chain = self.blockchain();
        let server_publics = match self.check_response(response) {
            Ok(publics) => publics,
            Err(e) => {
                return Err(e);
            },
        };
        let signer = match state.signer() {
            Ok(signer) => signer,
            Err(e) => {
                return Err(e);
            },
        };
        if !signer.has_room_for(chain, BATCH_SIZE as u32) {
            return Err(
                ProtocolError::coerce_static_from_str("No room for another batch in the pool"),
            );
        }
        match fill_pool(self, server_publics, signer) {
            Ok(()) => {},
            Err(e) => {
                return Err(e);
            },
        }
        signer.fill_r_vals(chain, BATCH_SIZE as u32);
        Ok(())
    }
}

/// The count of ready secrets of a blockchain in the state at position `i`
/// of a history of signer states.
pub open spec fn count_at(history: Seq<Signer>, chain: Blockchain, i: int) -> nat {
    history[i].remaining(chain)
}

/// Fills that take effect one after the other add up, and none is lost: if
/// each state of a history is its predecessor with one batch credited to a
/// blockchain, then the last state holds as many batches more than the first
/// as there were fills.
pub proof fn lemma_serialized_fills_add_up(history: Seq<Signer>, chain: Blockchain)
    requires
        history.len() > 0,
        forall|i: int|
            0 < i < history.len() ==> #[trigger] count_at(history, chain, i) == count_at(
                history,
                chain,
                i - 1,
            ) + BATCH_SIZE,
    ensures
        count_at(history, chain, history.len() - 1) == count_at(history, chain, 0) + BATCH_SIZE * (
        history.len() - 1),
    decreases history.len(),
{
    if history.len() > 1 {
        let shorter = history.drop_last();
        assert forall|i: int| 0 < i < shorter.len() implies #[trigger] count_at(shorter, chain, i)
            == count_at(shorter, chain, i - 1) + BATCH_SIZE by {
            assert(count_at(history, chain, i) == count_at(history, chain, i - 1) + BATCH_SIZE);
        }
        lemma_serialized_fills_add_up(shorter, chain);
        assert(count_at(history, chain, history.len() - 1) == count_at(
            history,
            chain,
            history.len() - 2,
        ) + BATCH_SIZE);
        assert(count_at(shorter, chain, shorter.len() - 1) == count_at(
            history,
            chain,
            history.len() - 2,
        ));
        assert(count_at(shorter, chain, 0) == count_at(history, chain, 0));
        assert(BATCH_SIZE * (history.len() - 1) == BATCH_SIZE * (history.len() - 2) + BATCH_SIZE)
            by (nonlinear_arith);
    }
}

} // verus!

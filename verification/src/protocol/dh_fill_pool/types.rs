//! The request and response of a pool fill.
//!
//! The client sends a batch of public curve points to the server and keeps the
//! matching secrets. The server answers with as many points of its own. Each
//! side multiplies the other's point by its own secret, and both arrive at the
//! same shared value. Bitcoin and Ethereum use the curve secp256k1, NEO uses
//! secp256r1. Only the public points ever leave the client.

use vstd::prelude::*;
use nash_mpc::curves::secp256_k1_rust::{Secp256k1Point, Secp256k1Scalar};
use nash_mpc::curves::secp256_r1::{Secp256r1Point, Secp256r1Scalar};
use crate::errors::{ProtocolError, Result};
use crate::mpc::{
    dh_init_k1, dh_init_r1, k1_hex_point, k1_point_from_hex, k1_point_text, k1_point_to_hex,
    r1_hex_point, r1_point_from_hex, r1_point_text, r1_point_to_hex,
};
use crate::types::{Blockchain, Curve};

verus! {

/// The number of secrets that one fill adds to a pool. The pool accounting
/// rests on it, so it is fixed here and not chosen by the caller.
pub const BATCH_SIZE: usize = 100;

/// The hex texts of a list of secp256k1 points, in order.
pub open spec fn k1_texts(points: Seq<Secp256k1Point>) -> Seq<Seq<char>> {
    Seq::new(points.len(), |i: int| k1_point_text(points[i]))
}

/// The hex texts of a list of secp256r1 points, in order.
pub open spec fn r1_texts(points: Seq<Secp256r1Point>) -> Seq<Seq<char>> {
    Seq::new(points.len(), |i: int| r1_point_text(points[i]))
}

/// The contents of a list of strings, in order.
pub open spec fn texts_of(strings: Seq<String>) -> Seq<Seq<char>> {
    Seq::new(strings.len(), |i: int| strings[i]@)
}

/// A batch of values on the curve secp256k1 (Bitcoin and Ethereum).
#[derive(Clone, Debug)]
pub struct K1FillPool {
    pub publics: Vec<Secp256k1Point>,
    pub secrets: Vec<Secp256k1Scalar>,
}

impl K1FillPool {
    /// A full batch: one public point for each secret, `BATCH_SIZE` of each.
    pub open spec fn is_full_batch(&self) -> bool {
        self.publics@.len() == BATCH_SIZE && self.secrets@.len() == BATCH_SIZE
    }

    /// Makes a batch of what the generator returned. A failed generation, or
    /// one that is not a full batch, is an error.
    pub fn from_generated(generated: Option<(Vec<Secp256k1Scalar>, Vec<Secp256k1Point>)>) -> (res:
        Result<Self>)
        ensures
            res.is_ok() == (generated matches Some(pair) && pair.0@.len() == BATCH_SIZE
                && pair.1@.len() == BATCH_SIZE),
            res matches Ok(pool) ==> pool.secrets == generated.unwrap().0 && pool.publics
                == generated.unwrap().1,
            res matches Err(e) ==> e@ == "Could not initialize k1 values"@,
    {
        match generated {
            Some((secrets, publics)) => {
                if secrets.len() == BATCH_SIZE && publics.len() == BATCH_SIZE {
                    Ok(Self { publics, secrets })
                } else {
                    Err(ProtocolError::coerce_static_from_str("Could not initialize k1 values"))
                }
            },
            None => Err(ProtocolError::coerce_static_from_str("Could not initialize k1 values")),
        }
    }

    /// Generates a fresh full batch. A failure of the random source or of the
    /// curve routine is reported and never retried.
    pub fn new() -> (res: Result<Self>)
        ensures
            res matches Ok(pool) ==> pool.is_full_batch(),
            res matches Err(e) ==> e@ == "Could not initialize k1 values"@,
    {
        Self::from_generated(dh_init_k1(BATCH_SIZE))
    }

    /// The public points of the batch as hex texts, in order. The secrets are
    /// not part of it.
    pub fn publics_hex(&self) -> (texts: Vec<String>)
        ensures
            texts_of(texts@) == k1_texts(self.publics@),
    {
        let mut texts: Vec<String> = Vec::new();
        let mut i: usize = 0;
        while i < self.publics.len()
            invariant
                i <= self.publics@.len(),
                texts@.len() == i,
                forall|j: int| 0 <= j < i ==> (#[trigger] texts@[j])@ == k1_point_text(self.publics@[j]),
            decreases self.publics@.len() - i,
        {
            texts.push(k1_point_to_hex(&self.publics[i]));
            i = i + 1;
        }
        assert(texts_of(texts@) =~= k1_texts(self.publics@));
        texts
    }
}

/// A batch of values on the curve secp256r1 (NEO).
#[derive(Clone, Debug)]
pub struct R1FillPool {
    pub publics: Vec<Secp256r1Point>,
    pub secrets: Vec<Secp256r1Scalar>,
}

impl R1FillPool {
    /// A full batch: one public point for each secret, `BATCH_SIZE` of each.
    pub open spec fn is_full_batch(&self) -> bool {
        self.publics@.len() == BATCH_SIZE && self.secrets@.len() == BATCH_SIZE
    }

    /// Makes a batch of what the generator returned. A failed generation, or
    /// one that is not a full batch, is an error.
    pub fn from_generated(generated: Option<(Vec<Secp256r1Scalar>, Vec<Secp256r1Point>)>) -> (res:
        Result<Self>)
        ensures
            res.is_ok() == (generated matches Some(pair) && pair.0@.len() == BATCH_SIZE
                && pair.1@.len() == BATCH_SIZE),
            res matches Ok(pool) ==> pool.secrets == generated.unwrap().0 && pool.publics
                == generated.unwrap().1,
            res matches Err(e) ==> e@ == "Could not initialize r1 values"@,
    {
        match generated {
            Some((secrets, publics)) => {
                if secrets.len() == BATCH_SIZE && publics.len() == BATCH_SIZE {
                    Ok(Self { publics, secrets })
                } else {
                    Err(ProtocolError::coerce_static_from_str("Could not initialize r1 values"))
                }
            },
            None => Err(ProtocolError::coerce_static_from_str("Could not initialize r1 values")),
        }
    }

    /// Generates a fresh full batch. A failure of the random source or of the
    /// curve routine is reported and never retried.
    pub fn new() -> (res: Result<Self>)
        ensures
            res matches Ok(pool) ==> pool.is_full_batch(),
            res matches Err(e) ==> e@ == "Could not initialize r1 values"@,
    {
        Self::from_generated(dh_init_r1(BATCH_SIZE))
    }

    /// The public points of the batch as hex texts, in order. The secrets are
    /// not part of it.
    pub fn publics_hex(&self) -> (texts: Vec<String>)
        ensures
            texts_of(texts@) == r1_texts(self.publics@),
    {
        let mut texts: Vec<String> = Vec::new();
        let mut i: usize = 0;
        while i < self.publics.len()
            invariant
                i <= self.publics@.len(),
                texts@.len() == i,
                forall|j: int| 0 <= j < i ==> (#[trigger] texts@[j])@ == r1_point_text(self.publics@[j]),
            decreases self.publics@.len() - i,
        {
            texts.push(r1_point_to_hex(&self.publics[i]));
            i = i + 1;
        }
        assert(texts_of(texts@) =~= r1_texts(self.publics@));
        texts
    }
}

/// A request to fill the pool of one blockchain. It holds the secrets and the
/// public points; only the public points go into the payload, and the secrets
/// are used when the response is processed.
#[derive(Clone, Debug)]
pub enum DhFillPoolRequest {
    Bitcoin(K1FillPool),
    Ethereum(K1FillPool),
    NEO(R1FillPool),
}

impl DhFillPoolRequest {
    /// The blockchain whose pool this request fills.
    pub open spec fn spec_blockchain(&self) -> Blockchain {
        match self {
            DhFillPoolRequest::Bitcoin(_) => Blockchain::Bitcoin,
            DhFillPoolRequest::Ethereum(_) => Blockchain::Ethereum,
            DhFillPoolRequest::NEO(_) => Blockchain::NEO,
        }
    }

    /// Whether the request holds a full batch.
    pub open spec fn is_full_batch(&self) -> bool {
        match self {
            DhFillPoolRequest::Bitcoin(pool) => pool.is_full_batch(),
            DhFillPoolRequest::Ethereum(pool) => pool.is_full_batch(),
            DhFillPoolRequest::NEO(pool) => pool.is_full_batch(),
        }
    }

    /// The hex texts of the public points, in order.
    pub open spec fn public_texts(&self) -> Seq<Seq<char>> {
        match self {
            DhFillPoolRequest::Bitcoin(pool) => k1_texts(pool.publics@),
            DhFillPoolRequest::Ethereum(pool) => k1_texts(pool.publics@),
            DhFillPoolRequest::NEO(pool) => r1_texts(pool.publics@),
        }
    }

    /// The number of secrets that the request holds.
    pub open spec fn secret_count(&self) -> nat {
        match self {
            DhFillPoolRequest::Bitcoin(pool) => pool.secrets@.len(),
            DhFillPoolRequest::Ethereum(pool) => pool.secrets@.len(),
            DhFillPoolRequest::NEO(pool) => pool.secrets@.len(),
        }
    }

    /// Creates a request for a blockchain, with a fresh full batch on the
    /// curve of that blockchain.
    pub fn new(chain: Blockchain) -> (res: Result<Self>)
        ensures
            res matches Ok(request) ==> request.spec_blockchain() == chain
                && request.is_full_batch(),
            res matches Err(e) ==> e@ == (if chain == Blockchain::NEO {
                "Could not initialize r1 values"@
            } else {
                "Could not initialize k1 values"@
            }),
    {
        match chain {
            Blockchain::Ethereum => match K1FillPool::new() {
                Ok(pool) => Ok(Self::Ethereum(pool)),
                Err(e) => Err(e),
            },
            Blockchain::Bitcoin => match K1FillPool::new() {
                Ok(pool) => Ok(Self::Bitcoin(pool)),
                Err(e) => Err(e),
            },
            Blockchain::NEO => match R1FillPool::new() {
                Ok(pool) => Ok(Self::NEO(pool)),
                Err(e) => Err(e),
            },
        }
    }

    /// The blockchain whose pool this request fills.
    #[verifier::when_used_as_spec(spec_blockchain)]
    pub fn blockchain(&self) -> (chain: Blockchain)
        ensures
            chain == self.spec_blockchain(),
    {
        match self {
            Self::Bitcoin(_) => Blockchain::Bitcoin,
            Self::Ethereum(_) => Blockchain::Ethereum,
            Self::NEO(_) => Blockchain::NEO,
        }
    }

    /// What the outgoing payload carries: the blockchain and the public
    /// points as hex texts. No secret is in it.
    pub fn variables(&self) -> (vars: DhFillPoolVariables)
        ensures
            vars.blockchain == self.spec_blockchain(),
            texts_of(vars.dh_publics@) == self.public_texts(),
    {
        let dh_publics = match self {
            Self::Bitcoin(pool) => pool.publics_hex(),
            Self::Ethereum(pool) => pool.publics_hex(),
            Self::NEO(pool) => pool.publics_hex(),
        };
        DhFillPoolVariables { blockchain: self.blockchain(), dh_publics }
    }
}

/// The variables of the outgoing query.
#[derive(Clone, Debug)]
pub struct DhFillPoolVariables {
    pub blockchain: Blockchain,
    pub dh_publics: Vec<String>,
}

/// The server's answer: its public points as hex texts.
#[derive(Clone, Debug)]
pub struct DhFillPoolResponse {
    pub server_publics: Vec<String>,
}

/// What a text is as a point of a curve: the point's own hex text, or `None`
/// where the text encodes no point of that curve.
pub open spec fn hex_point(curve: Curve, text: Seq<char>) -> Option<Seq<char>> {
    match curve {
        Curve::Secp256k1 => k1_hex_point(text),
        Curve::Secp256r1 => r1_hex_point(text),
    }
}

/// Whether every text of a list encodes a point of the curve.
pub open spec fn all_points(curve: Curve, texts: Seq<Seq<char>>) -> bool {
    forall|i: int| 0 <= i < texts.len() ==> (#[trigger] hex_point(curve, texts[i])).is_some()
}

/// The points that a list of texts encodes, each given by its own hex text.
pub open spec fn parsed_points(curve: Curve, texts: Seq<Seq<char>>) -> Seq<Seq<char>> {
    Seq::new(texts.len(), |i: int| hex_point(curve, texts[i]).unwrap())
}

/// The server's public points, parsed on the curve of a blockchain. It never
/// holds a secret.
pub enum ServerPublics {
    Bitcoin(Vec<Secp256k1Point>),
    Ethereum(Vec<Secp256k1Point>),
    NEO(Vec<Secp256r1Point>),
}

impl ServerPublics {
    /// The blockchain that the points were parsed for.
    pub open spec fn spec_blockchain(&self) -> Blockchain {
        match self {
            ServerPublics::Bitcoin(_) => Blockchain::Bitcoin,
            ServerPublics::Ethereum(_) => Blockchain::Ethereum,
            ServerPublics::NEO(_) => Blockchain::NEO,
        }
    }

    /// The hex texts of the points, in order.
    pub open spec fn texts(&self) -> Seq<Seq<char>> {
        match self {
            ServerPublics::Bitcoin(points) => k1_texts(points@),
            ServerPublics::Ethereum(points) => k1_texts(points@),
            ServerPublics::NEO(points) => r1_texts(points@),
        }
    }

    /// The blockchain that the points were parsed for.
    #[verifier::when_used_as_spec(spec_blockchain)]
    pub fn blockchain(&self) -> (chain: Blockchain)
        ensures
            chain == self.spec_blockchain(),
    {
        match self {
            Self::Bitcoin(_) => Blockchain::Bitcoin,
            Self::Ethereum(_) => Blockchain::Ethereum,
            Self::NEO(_) => Blockchain::NEO,
        }
    }

    /// The number of points.
    pub fn len(&self) -> (n: usize)
        ensures
            n == self.texts().len(),
    {
        match self {
            Self::Bitcoin(points) => points.len(),
            Self::Ethereum(points) => points.len(),
            Self::NEO(points) => points.len(),
        }
    }

    /// Parses hex texts as points of secp256k1, in order. One text that
    /// encodes no point fails the whole list.
    pub fn decode_k1(strings: &Vec<String>) -> (points: Option<Vec<Secp256k1Point>>)
        ensures
            points.is_some() == all_points(Curve::Secp256k1, texts_of(strings@)),
            points matches Some(v) ==> k1_texts(v@) == parsed_points(
                Curve::Secp256k1,
                texts_of(strings@),
            ),
    {
        let ghost texts = texts_of(strings@);
        let mut points: Vec<Secp256k1Point> = Vec::new();
        let mut i: usize = 0;
        while i < strings.len()
            invariant
                texts == texts_of(strings@),
                i <= strings@.len(),
                points@.len() == i,
                forall|j: int| 0 <= j < i ==> #[trigger] hex_point(Curve::Secp256k1, texts[j])
                    == Some(k1_point_text(points@[j])),
            decreases strings@.len() - i,
        {
            match k1_point_from_hex(strings[i].as_str()) {
                Some(point) => {
                    points.push(point);
                },
                None => {
                    assert(hex_point(Curve::Secp256k1, texts[i as int]).is_none());
                    return None;
                },
            }
            i = i + 1;
        }
        assert(k1_texts(points@) =~= parsed_points(Curve::Secp256k1, texts));
        Some(points)
    }

    /// Parses hex texts as points of secp256r1, in order. One text that
    /// encodes no point fails the whole list.
    pub fn decode_r1(strings: &Vec<String>) -> (points: Option<Vec<Secp256r1Point>>)
        ensures
            points.is_some() == all_points(Curve::Secp256r1, texts_of(strings@)),
            points matches Some(v) ==> r1_texts(v@) == parsed_points(
                Curve::Secp256r1,
                texts_of(strings@),
            ),
    {
        let ghost texts = texts_of(strings@);
        let mut points: Vec<Secp256r1Point> = Vec::new();
        let mut i: usize = 0;
        while i < strings.len()
            invariant
                texts == texts_of(strings@),
                i <= strings@.len(),
                points@.len() == i,
                forall|j: int| 0 <= j < i ==> #[trigger] hex_point(Curve::Secp256r1, texts[j])
                    == Some(r1_point_text(points@[j])),
            decreases strings@.len() - i,
        {
            match r1_point_from_hex(strings[i].as_str()) {
                Some(point) => {
                    points.push(point);
                },
                None => {
                    assert(hex_point(Curve::Secp256r1, texts[i as int]).is_none());
                    return None;
                },
            }
            i = i + 1;
        }
        assert(r1_texts(points@) =~= parsed_points(Curve::Secp256r1, texts));
        Some(points)
    }

    /// Parses the server's answer on the curve of the given blockchain. The
    /// result is tagged with that blockchain and holds one point for each
    /// text, in order. A text that encodes no point of the curve is a decoding
    /// error.
    pub fn from_hexstrings(chain: Blockchain, response: &DhFillPoolResponse) -> (res: Result<Self>)
        ensures
            res.is_ok() == all_points(chain.spec_curve(), texts_of(response.server_publics@)),
            res matches Ok(publics) ==> publics.spec_blockchain() == chain && publics.texts()
                == parsed_points(chain.spec_curve(), texts_of(response.server_publics@)),
            res matches Err(e) ==> e@ == "Could not parse server public point"@,
    {
        match chain {
            Blockchain::Bitcoin => match Self::decode_k1(&response.server_publics) {
                Some(points) => Ok(Self::Bitcoin(points)),
                None => Err(
                    ProtocolError::coerce_static_from_str("Could not parse server public point"),
                ),
            },
            Blockchain::Ethereum => match Self::decode_k1(&response.server_publics) {
                Some(points) => Ok(Self::Ethereum(points)),
                None => Err(
                    ProtocolError::coerce_static_from_str("Could not parse server public point"),
                ),
            },
            Blockchain::NEO => match Self::decode_r1(&response.server_publics) {
                Some(points) => Ok(Self::NEO(points)),
                None => Err(
                    ProtocolError::coerce_static_from_str("Could not parse server public point"),
                ),
            },
        }
    }
}

} // verus!

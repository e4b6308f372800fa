//! The signer: the part of the session that keeps count, for each blockchain,
//! of the one-time secret values that are ready for signing.

use vstd::prelude::*;
use vstd::string::StringSliceAdditionalSpecFns;
use crate::errors::{ProtocolError, Result};
use crate::hex::digit;
use crate::mpc::is_positive_hex;
use crate::types::Blockchain;

verus! {

/// Counts the ready one-time secrets of each blockchain, and holds the
/// modulus of the Paillier key under which the pools are filled.
pub struct Signer {
    paillier_modulus: String,
    remaining_neo: u64,
    remaining_ethereum: u64,
    remaining_bitcoin: u64,
}

impl Clone for Signer {
    fn clone(&self) -> (copy: Self)
        ensures
            copy.modulus() == self.modulus(),
            forall|chain: Blockchain| copy.remaining(chain) == self.remaining(chain),
    {
        proof {
            use_type_invariant(self);
        }
        Signer {
            paillier_modulus: self.paillier_modulus.clone(),
            remaining_neo: self.remaining_neo,
            remaining_ethereum: self.remaining_ethereum,
            remaining_bitcoin: self.remaining_bitcoin,
        }
    }
}

impl Signer {
    /// The signer's invariant: its Paillier modulus is a positive hex number.
    #[verifier::type_invariant]
    closed spec fn wf(&self) -> bool {
        is_positive_hex(vstd::utf8::encode_utf8(self.paillier_modulus@))
    }

    /// The hex text of the Paillier modulus.
    pub closed spec fn modulus(&self) -> Seq<char> {
        self.paillier_modulus@
    }

    /// How many one-time secrets are ready for a blockchain.
    pub closed spec fn remaining(&self, chain: Blockchain) -> nat {
        match chain {
            Blockchain::NEO => self.remaining_neo as nat,
            Blockchain::Ethereum => self.remaining_ethereum as nat,
            Blockchain::Bitcoin => self.remaining_bitcoin as nat,
        }
    }

    /// Whether a text is a positive hex number: hex digits only, one of them
    /// not zero.
    pub fn is_valid_modulus(text: &str) -> (valid: bool)
        ensures
            valid == is_positive_hex(text.spec_bytes()),
    {
        let raw = text.as_bytes();
        let n = raw.len();
        let mut nonzero = false;
        let ghost mut witness: int = 0;
        let mut i: usize = 0;
        while i < n
            invariant
                raw@ == text.spec_bytes(),
                n == raw@.len(),
                i <= n,
                forall|j: int| 0 <= j < i ==> (#[trigger] crate::hex::digit_value(raw@[j])).is_some(),
                nonzero ==> 0 <= witness < i && crate::hex::digit_value(raw@[witness]) != Some(0u8),
                !nonzero ==> forall|j: int| 0 <= j < i ==> #[trigger] crate::hex::digit_value(raw@[j]) == Some(0u8),
            decreases n - i,
        {
            match digit(raw[i]) {
                Some(d) => {
                    if d != 0 {
                        nonzero = true;
                        proof {
                            witness = i as int;
                        }
                    }
                },
                None => {
                    return false;
                },
            }
            i = i + 1;
        }
        nonzero
    }

    /// A signer for the given Paillier modulus, with every pool empty. A
    /// modulus that is no positive hex number is refused.
    pub fn new(paillier_modulus: &str) -> (res: Result<Signer>)
        ensures
            res.is_ok() == is_positive_hex(paillier_modulus.spec_bytes()),
            res matches Ok(signer) ==> {
                &&& signer.modulus() == paillier_modulus@
                &&& forall|chain: Blockchain| signer.remaining(chain) == 0
            },
            res matches Err(e) ==> e@ == "Invalid Paillier modulus"@,
    {
        if Self::is_valid_modulus(paillier_modulus) {
            let owned = paillier_modulus.to_owned();
            Ok(Signer {
                paillier_modulus: owned,
                remaining_neo: 0,
                remaining_ethereum: 0,
                remaining_bitcoin: 0,
            })
        } else {
            Err(ProtocolError::coerce_static_from_str("Invalid Paillier modulus"))
        }
    }

    /// The hex text of the Paillier modulus.
    pub fn paillier_modulus(&self) -> (text: &str)
        ensures
            text@ == self.modulus(),
            is_positive_hex(text.spec_bytes()),
    {
        proof {
            use_type_invariant(self);
        }
        self.paillier_modulus.as_str()
    }

    /// How many one-time secrets are ready for a blockchain.
    pub fn get_remaining_r_vals(&self, chain: Blockchain) -> (count: u64)
        ensures
            count == self.remaining(chain),
    {
        match chain {
            Blockchain::NEO => self.remaining_neo,
            Blockchain::Ethereum => self.remaining_ethereum,
            Blockchain::Bitcoin => self.remaining_bitcoin,
        }
    }

    /// Whether the count of a blockchain can grow by `count` without leaving
    /// the range of the counter.
    pub fn has_room_for(&self, chain: Blockchain, count: u32) -> (fits: bool)
        ensures
            fits == (self.remaining(chain) + count <= u64::MAX),
    {
        self.get_remaining_r_vals(chain) <= u64::MAX - count as u64
    }

    /// Records `count` new one-time secrets for a blockchain. Each call
    /// records a replenishment of its own: calling twice counts twice.
    pub fn fill_r_vals(&mut self, chain: Blockchain, count: u32)
        requires
            old(self).remaining(chain) + count <= u64::MAX,
        ensures
            final(self).remaining(chain) == old(self).remaining(chain) + count,
            forall|other: Blockchain| other != chain ==> final(self).remaining(other) == old(self).remaining(other),
            final(self).modulus() == old(self).modulus(),
    {
        proof {
            use_type_invariant(&*self);
        }
        match chain {
            Blockchain::NEO => {
                self.remaining_neo = self.remaining_neo + count as u64;
            },
            Blockchain::Ethereum => {
                self.remaining_ethereum = self.remaining_ethereum + count as u64;
            },
            Blockchain::Bitcoin => {
                self.remaining_bitcoin = self.remaining_bitcoin + count as u64;
            },
        }
    }

    /// Takes one ready secret of a blockchain out of the count. With none
    /// ready it fails and changes nothing.
    pub fn use_r_val(&mut self, chain: Blockchain) -> (res: Result<()>)
        ensures
            res.is_ok() == (old(self).remaining(chain) > 0),
            res.is_ok() ==> final(self).remaining(chain) == old(self).remaining(chain) - 1,
            res.is_err() ==> final(self).remaining(chain) == old(self).remaining(chain),
            forall|other: Blockchain| other != chain ==> final(self).remaining(other) == old(self).remaining(other),
            final(self).modulus() == old(self).modulus(),
            res matches Err(e) ==> e@ == "No r values left in the pool"@,
    {
        proof {
            use_type_invariant(&*self);
        }
        if self.get_remaining_r_vals(chain) == 0 {
            return Err(ProtocolError::coerce_static_from_str("No r values left in the pool"));
        }
        match chain {
            Blockchain::NEO => {
                self.remaining_neo = self.remaining_neo - 1;
            },
            Blockchain::Ethereum => {
                self.remaining_ethereum = self.remaining_ethereum - 1;
            },
            Blockchain::Bitcoin => {
                self.remaining_bitcoin = self.remaining_bitcoin - 1;
            },
        }
        Ok(())
    }
}

} // verus!

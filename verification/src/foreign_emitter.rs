//! The foreign-emitter registry.
//!
//! For every remote chain at most one sender address is authorized to
//! originate inbound messages. Registration is an owner-gated upsert: a
//! chain id may be re-registered to replace a compromised or migrated
//! emitter, and the previous address then stops verifying. Every inbound
//! message is gated on `verify`.

use vstd::prelude::*;

verus! {

use crate::constants::CHAIN_ID_SOLANA;
use crate::error::ErrorFactory;
use crate::utils::bytes32_eq;
use crate::utils::is_zero_address;
use crate::utils::spec_is_zero_address;

/// One authorized sender: a remote chain id and the emitter address on it.
#[derive(Clone, Copy, Debug, PartialEq, Eq)]
pub struct ForeignEmitter {
    /// Remote chain id. Never zero and never the host chain's own id.
    pub chain: u16,
    /// Emitter address on that chain. Never the all-zero address.
    pub address: [u8; 32],
}

impl ForeignEmitter {
    /// Whether an address equals the one saved in this record.
    pub fn verify(&self, address: &[u8; 32]) -> (r: bool)
        ensures
            r <==> self.address@ == address@,
    {
        bytes32_eq(&self.address, address)
    }
}

/// A bare collection of emitter records, with membership by address alone.
#[derive(Debug)]
pub struct ForeignEmitterCollection {
    /// Collection of foreign emitters.
    pub emitters: Vec<ForeignEmitter>,
}

impl ForeignEmitterCollection {
    /// An empty collection.
    pub fn new() -> (r: ForeignEmitterCollection)
        ensures
            r.emitters@ == Seq::<ForeignEmitter>::empty(),
    {
        ForeignEmitterCollection { emitters: Vec::new() }
    }

    /// Appends a new foreign emitter.
    pub fn add_emitter(&mut self, emitter: ForeignEmitter)
        ensures
            final(self).emitters@ == old(self).emitters@.push(emitter),
    {
        self.emitters.push(emitter);
    }

    /// Whether any emitter in the collection has this address.
    pub fn verify(&self, address: &[u8; 32]) -> (r: bool)
        ensures
            r <==> exists|i: int|
                0 <= i < self.emitters@.len() && self.emitters@[i].address@ == address@,
    {
        let n = self.emitters.len();
        let mut k: usize = 0;
        while k < n
            invariant
                k <= n,
                n == self.emitters@.len(),
                forall|i: int| 0 <= i < k ==> self.emitters@[i].address@ != address@,
            decreases n - k,
        {
            if self.emitters[k].verify(address) {
                return true;
            }
            k = k + 1;
        }
        false
    }
}

/// True when `(chain, address)` may be registered: the chain id is neither
/// zero nor the host chain's, and the address is not all-zero.
pub open spec fn spec_valid_emitter(chain: u16, address: Seq<u8>) -> bool {
    chain != 0 && chain != CHAIN_ID_SOLANA && !spec_is_zero_address(address)
}

/// Whether some record of the sequence carries this chain id.
pub open spec fn spec_has_chain(s: Seq<ForeignEmitter>, chain: u16) -> bool {
    exists|i: int| 0 <= i < s.len() && s[i].chain == chain
}

/// The index of the record carrying this chain id.
pub open spec fn spec_chain_index(s: Seq<ForeignEmitter>, chain: u16) -> int {
    choose|i: int| 0 <= i < s.len() && s[i].chain == chain
}

/// The registry of authorized senders, one per remote chain.
#[derive(Debug)]
pub struct EmitterRegistry {
    emitters: Vec<ForeignEmitter>,
}

impl View for EmitterRegistry {
    type V = Map<u16, Seq<u8>>;

    /// The registry denotes a finite map from chain id to the one
    /// registered emitter address.
    closed spec fn view(&self) -> Map<u16, Seq<u8>> {
        Map::new(
            |chain: u16| spec_has_chain(self.emitters@, chain),
            |chain: u16| self.emitters@[spec_chain_index(self.emitters@, chain)].address@,
        )
    }
}

impl EmitterRegistry {
    /// Well-formed: chain ids are unique and every record is valid.
    pub closed spec fn wf(self) -> bool {
        &&& forall|i: int, j: int|
            0 <= i < j < self.emitters@.len() ==> self.emitters@[i].chain != self.emitters@[
                j
            ].chain
        &&& forall|i: int|
            0 <= i < self.emitters@.len() ==> spec_valid_emitter(
                #[trigger] self.emitters@[i].chain,
                self.emitters@[i].address@,
            )
    }

    /// An empty registry: no chain verifies anything.
    pub fn new() -> (r: EmitterRegistry)
        ensures
            r.wf(),
            r@ == Map::<u16, Seq<u8>>::empty(),
    {
        let r = EmitterRegistry { emitters: Vec::new() };
        proof {
            assert(r@ =~= Map::<u16, Seq<u8>>::empty());
        }
        r
    }

    /// Registers `address` as the one authorized sender for `chain`,
    /// replacing any previously registered address for that chain.
    /// Fails, leaving the registry unchanged, exactly when the chain id is
    /// zero or the host chain's own, or the address is all-zero. The
    /// caller is the owner; owner gating is enforced by the operation that
    /// invokes this.
    pub fn register_emitter(&mut self, chain: u16, address: &[u8; 32]) -> (r: Result<
        (),
        ErrorFactory,
    >)
        requires
            old(self).wf(),
        ensures
            final(self).wf(),
            r is Ok <==> spec_valid_emitter(chain, address@),
            r is Ok ==> final(self)@ == old(self)@.insert(chain, address@),
            r is Err ==> final(self)@ == old(self)@ && r == Err::<(), ErrorFactory>(
                ErrorFactory::InvalidForeignEmitter,
            ),
    {
        if chain == 0 || chain == CHAIN_ID_SOLANA || is_zero_address(address) {
            return Err(ErrorFactory::InvalidForeignEmitter);
        }
        let emitter = ForeignEmitter { chain, address: *address };
        let ghost old_seq = self.emitters@;
        match self.find_chain_index(chain) {
            Some(k) => {
                self.emitters.set(k, emitter);
                proof {
                    let new_seq = self.emitters@;
                    assert(new_seq == old_seq.update(k as int, emitter));
                    assert forall|c: u16| #[trigger] spec_has_chain(new_seq, c) && c
                        != chain implies spec_has_chain(old_seq, c) && new_seq[spec_chain_index(
                        new_seq,
                        c,
                    )].address@ == old_seq[spec_chain_index(old_seq, c)].address@ by {
                        let w = choose|i: int|
                            0 <= i < new_seq.len() && new_seq[i].chain == c;
                        assert(w != k);
                        assert(old_seq[w].chain == c);
                        assert(spec_has_chain(old_seq, c));
                        let i = spec_chain_index(new_seq, c);
                        let j = spec_chain_index(old_seq, c);
                        assert(0 <= i < new_seq.len() && new_seq[i].chain == c);
                        assert(0 <= j < old_seq.len() && old_seq[j].chain == c);
                        assert(i != k);
                        assert(old_seq[i].chain == c);
                        assert(i == j);
                    }
                    assert forall|c: u16| #[trigger] spec_has_chain(old_seq, c) implies
                        spec_has_chain(new_seq, c) by {
                        let i = choose|i: int|
                            0 <= i < old_seq.len() && old_seq[i].chain == c;
                        if i == k {
                            assert(old_seq[k as int].chain == chain);
                            assert(new_seq[k as int].chain == chain);
                        } else {
                            assert(new_seq[i].chain == c);
                        }
                    }
                    assert(spec_has_chain(new_seq, chain) && new_seq[spec_chain_index(
                        new_seq,
                        chain,
                    )].address@ == address@) by {
                        assert(new_seq[k as int].chain == chain);
                        let i = spec_chain_index(new_seq, chain);
                        assert(0 <= i < new_seq.len() && new_seq[i].chain == chain);
                        assert(i == k);
                    }
                    assert(final(self)@ =~= old(self)@.insert(chain, address@));
                    assert(final(self).wf()) by {
                        assert(forall|i: int|
                            0 <= i < new_seq.len() && i != k ==> new_seq[i] == old_seq[i]);
                        assert(new_seq[k as int].chain == old_seq[k as int].chain);
                    }
                }
                Ok(())
            },
            None => {
                self.emitters.push(emitter);
                proof {
                    let new_seq = self.emitters@;
                    assert(new_seq == old_seq.push(emitter));
                    assert(forall|i: int| 0 <= i < old_seq.len() ==> new_seq[i] == old_seq[i]);
                    assert forall|c: u16| #[trigger] spec_has_chain(new_seq, c) && c
                        != chain implies spec_has_chain(old_seq, c) && new_seq[spec_chain_index(
                        new_seq,
                        c,
                    )].address@ == old_seq[spec_chain_index(old_seq, c)].address@ by {
                        let w = choose|i: int|
                            0 <= i < new_seq.len() && new_seq[i].chain == c;
                        assert(w < old_seq.len());
                        assert(old_seq[w].chain == c);
                        assert(spec_has_chain(old_seq, c));
                        let i = spec_chain_index(new_seq, c);
                        let j = spec_chain_index(old_seq, c);
                        assert(0 <= i < new_seq.len() && new_seq[i].chain == c);
                        assert(i < old_seq.len());
                        assert(old_seq[i].chain == c);
                        assert(0 <= j < old_seq.len() && old_seq[j].chain == c);
                        assert(i == j);
                    }
                    assert forall|c: u16| #[trigger] spec_has_chain(old_seq, c) implies
                        spec_has_chain(new_seq, c) by {
                        let i = choose|i: int|
                            0 <= i < old_seq.len() && old_seq[i].chain == c;
                        assert(new_seq[i].chain == c);
                    }
                    assert(spec_has_chain(new_seq, chain) && new_seq[spec_chain_index(
                        new_seq,
                        chain,
                    )].address@ == address@) by {
                        assert(new_seq[old_seq.len() as int].chain == chain);
                        let i = spec_chain_index(new_seq, chain);
                        assert(0 <= i < new_seq.len() && new_seq[i].chain == chain);
                        if i < old_seq.len() {
                            assert(old_seq[i].chain == chain);
                            assert(spec_has_chain(old_seq, chain));
                        }
                        assert(i == old_seq.len() as int);
                    }
                    assert(final(self)@ =~= old(self)@.insert(chain, address@));
                    assert(final(self).wf()) by {
                        assert forall|i: int, j: int|
                            0 <= i < j < new_seq.len() implies new_seq[i].chain != new_seq[
                            j
                        ].chain by {
                            if j == old_seq.len() as int {
                                if old_seq[i].chain == chain {
                                    assert(spec_has_chain(old_seq, chain));
                                }
                            }
                        }
                    }
                }
                Ok(())
            },
        }
    }

    /// The position of the record for `chain`, if one exists.
    fn find_chain_index(&self, chain: u16) -> (r: Option<usize>)
        ensures
            r matches Some(k) ==> k < self.emitters@.len() && self.emitters@[k as int].chain
                == chain,
            r is None ==> !spec_has_chain(self.emitters@, chain),
    {
        let n = self.emitters.len();
        let mut k: usize = 0;
        while k < n
            invariant
                k <= n,
                n == self.emitters@.len(),
                forall|i: int| 0 <= i < k ==> self.emitters@[i].chain != chain,
            decreases n - k,
        {
            if self.emitters[k].chain == chain {
                return Some(k);
            }
            k = k + 1;
        }
        None
    }

    /// True exactly when a record exists for `chain` and its stored
    /// address equals `address`. Gates every inbound message.
    pub fn verify(&self, chain: u16, address: &[u8; 32]) -> (r: bool)
        requires
            self.wf(),
        ensures
            r <==> (self@.contains_key(chain) && self@[chain] == address@),
    {
        let n = self.emitters.len();
        let mut k: usize = 0;
        while k < n
            invariant
                k <= n,
                n == self.emitters@.len(),
                self.wf(),
                forall|i: int| 0 <= i < k ==> self.emitters@[i].chain != chain,
            decreases n - k,
        {
            if self.emitters[k].chain == chain {
                proof {
                    let s = self.emitters@;
                    assert(spec_has_chain(s, chain));
                    let i = spec_chain_index(s, chain);
                    assert(0 <= i < s.len() && s[i].chain == chain);
                    assert(i == k);
                    assert(self@[chain] == s[k as int].address@);
                }
                return self.emitters[k].verify(address);
            }
            k = k + 1;
        }
        proof {
            assert(!spec_has_chain(self.emitters@, chain));
        }
        false
    }

    /// Whether any emitter is registered for `chain`.
    pub fn has_chain(&self, chain: u16) -> (r: bool)
        requires
            self.wf(),
        ensures
            r <==> self@.contains_key(chain),
    {
        let n = self.emitters.len();
        let mut k: usize = 0;
        while k < n
            invariant
                k <= n,
                n == self.emitters@.len(),
                forall|i: int| 0 <= i < k ==> self.emitters@[i].chain != chain,
            decreases n - k,
        {
            if self.emitters[k].chain == chain {
                return true;
            }
            k = k + 1;
        }
        proof {
            assert(!spec_has_chain(self.emitters@, chain));
        }
        false
    }
}

/// Law: emitter gating. No chain verifies on an empty registry; after
/// registering an address for a chain, exactly that address verifies; and
/// re-registering a different address makes the old one fail.
pub proof fn lemma_emitter_gating(m: Map<u16, Seq<u8>>, chain: u16, a1: Seq<u8>, a2: Seq<u8>)
    ensures
        !Map::<u16, Seq<u8>>::empty().contains_key(chain),
        m.insert(chain, a1).contains_key(chain) && m.insert(chain, a1)[chain] == a1,
        a2 != a1 ==> m.insert(chain, a1)[chain] != a2,
        m.insert(chain, a1).insert(chain, a2)[chain] == a2,
        a2 != a1 ==> m.insert(chain, a1).insert(chain, a2)[chain] != a1,
{
}

} // verus!

//! The replay-protection ledger.
//!
//! Every relayed message is identified by its (remote chain id, sequence)
//! pair. A record for that pair is created exactly once, when the message
//! is consumed; a second attempt with the same pair must fail, whatever
//! hash it carries. This create-if-absent behaviour is the protocol's sole
//! replay defense. Records are never mutated and never deleted.

use vstd::prelude::*;

verus! {

use crate::error::ErrorFactory;

/// Upper bound on the payload bytes kept with a record.
pub const MESSAGE_MAX_LENGTH: usize = 101;

/// What is kept about one consumed message.
#[derive(Clone, Debug, PartialEq, Eq)]
pub struct Received {
    /// Batch id (a.k.a. nonce) of the consumed message.
    pub batch_id: u32,
    /// Keccak256 hash of the verified message.
    pub wormhole_message_hash: [u8; 32],
    /// The consumed payload bytes.
    pub payload: Vec<u8>,
}

impl Received {
    /// Bytes a stored record occupies: an 8-byte discriminator, the batch
    /// id, the hash, and a length-prefixed payload.
    pub const MAXIMUM_SIZE: usize = 8 + 4 + 32 + 4 + MESSAGE_MAX_LENGTH;
}

/// One ledger slot: the key pair and what was recorded under it.
#[derive(Clone, Debug, PartialEq, Eq)]
struct ReceivedEntry {
    chain: u16,
    sequence: u64,
    received: Received,
}

/// Whether some entry carries this key pair.
spec fn spec_has_key(s: Seq<ReceivedEntry>, chain: u16, sequence: u64) -> bool {
    exists|i: int| 0 <= i < s.len() && s[i].chain == chain && s[i].sequence == sequence
}

/// The index of the entry carrying this key pair.
spec fn spec_key_index(s: Seq<ReceivedEntry>, chain: u16, sequence: u64) -> int {
    choose|i: int| 0 <= i < s.len() && s[i].chain == chain && s[i].sequence == sequence
}

/// The one-time-use ledger of consumed messages.
#[derive(Debug)]
pub struct ReceivedLedger {
    entries: Vec<ReceivedEntry>,
}

impl View for ReceivedLedger {
    type V = Map<(u16, u64), Received>;

    /// The ledger denotes a finite map from (chain, sequence) to the
    /// record created when that message was consumed.
    closed spec fn view(&self) -> Map<(u16, u64), Received> {
        Map::new(
            |k: (u16, u64)| spec_has_key(self.entries@, k.0, k.1),
            |k: (u16, u64)| self.entries@[spec_key_index(self.entries@, k.0, k.1)].received,
        )
    }
}

impl ReceivedLedger {
    /// Well-formed: no key pair occurs twice.
    pub closed spec fn wf(self) -> bool {
        forall|i: int, j: int|
            0 <= i < j < self.entries@.len() ==> !(self.entries@[i].chain == self.entries@[
                j
            ].chain && self.entries@[i].sequence == self.entries@[j].sequence)
    }

    /// An empty ledger: nothing has been consumed.
    pub fn new() -> (r: ReceivedLedger)
        ensures
            r.wf(),
            r@ == Map::<(u16, u64), Received>::empty(),
    {
        let r = ReceivedLedger { entries: Vec::new() };
        proof {
            assert(r@ =~= Map::<(u16, u64), Received>::empty());
        }
        r
    }

    /// Whether the message keyed by `(chain, sequence)` was already
    /// consumed.
    pub fn contains(&self, chain: u16, sequence: u64) -> (r: bool)
        ensures
            r <==> self@.contains_key((chain, sequence)),
    {
        let n = self.entries.len();
        let mut k: usize = 0;
        while k < n
            invariant
                k <= n,
                n == self.entries@.len(),
                forall|i: int|
                    0 <= i < k ==> !(self.entries@[i].chain == chain && self.entries@[
                        i
                    ].sequence == sequence),
            decreases n - k,
        {
            if self.entries[k].chain == chain && self.entries[k].sequence == sequence {
                proof {
                    assert(spec_has_key(self.entries@, chain, sequence));
                }
                return true;
            }
            k = k + 1;
        }
        proof {
            assert(!spec_has_key(self.entries@, chain, sequence));
        }
        false
    }

    /// Atomic create-if-absent: records that the message keyed by
    /// `(chain, sequence)` has been consumed. Succeeds exactly when no
    /// record for that pair exists yet; a second call with the same pair
    /// fails and changes nothing, whatever `received` holds.
    pub fn record(&mut self, chain: u16, sequence: u64, received: Received) -> (r: Result<
        (),
        ErrorFactory,
    >)
        requires
            old(self).wf(),
        ensures
            final(self).wf(),
            r is Ok <==> !old(self)@.contains_key((chain, sequence)),
            r is Ok ==> final(self)@ == old(self)@.insert((chain, sequence), received),
            r is Err ==> final(self)@ == old(self)@ && r == Err::<(), ErrorFactory>(
                ErrorFactory::AlreadyProcessed,
            ),
    {
        if self.contains(chain, sequence) {
            return Err(ErrorFactory::AlreadyProcessed);
        }
        let ghost old_seq = self.entries@;
        self.entries.push(ReceivedEntry { chain, sequence, received });
        proof {
            let new_seq = self.entries@;
            assert(forall|i: int| 0 <= i < old_seq.len() ==> new_seq[i] == old_seq[i]);
            assert forall|c: u16, q: u64| #[trigger] spec_has_key(new_seq, c, q) && !(c == chain
                && q == sequence) implies spec_has_key(old_seq, c, q) && new_seq[spec_key_index(
                new_seq,
                c,
                q,
            )].received == old_seq[spec_key_index(old_seq, c, q)].received by {
                let w = choose|i: int|
                    0 <= i < new_seq.len() && new_seq[i].chain == c && new_seq[i].sequence == q;
                assert(w < old_seq.len());
                assert(old_seq[w].chain == c && old_seq[w].sequence == q);
                assert(spec_has_key(old_seq, c, q));
                let i = spec_key_index(new_seq, c, q);
                let j = spec_key_index(old_seq, c, q);
                assert(0 <= i < new_seq.len() && new_seq[i].chain == c && new_seq[i].sequence
                    == q);
                assert(i < old_seq.len());
                assert(old_seq[i].chain == c && old_seq[i].sequence == q);
                assert(0 <= j < old_seq.len() && old_seq[j].chain == c && old_seq[j].sequence
                    == q);
                assert(i == j);
            }
            assert forall|c: u16, q: u64| #[trigger] spec_has_key(old_seq, c, q) implies
                spec_has_key(new_seq, c, q) by {
                let i = choose|i: int|
                    0 <= i < old_seq.len() && old_seq[i].chain == c && old_seq[i].sequence == q;
                assert(new_seq[i].chain == c && new_seq[i].sequence == q);
            }
            assert(spec_has_key(new_seq, chain, sequence) && new_seq[spec_key_index(
                new_seq,
                chain,
                sequence,
            )].received == received) by {
                assert(new_seq[old_seq.len() as int].chain == chain);
                assert(new_seq[old_seq.len() as int].sequence == sequence);
                let i = spec_key_index(new_seq, chain, sequence);
                assert(0 <= i < new_seq.len() && new_seq[i].chain == chain && new_seq[
                    i
                ].sequence == sequence);
                if i < old_seq.len() {
                    assert(old_seq[i].chain == chain && old_seq[i].sequence == sequence);
                    assert(spec_has_key(old_seq, chain, sequence));
                }
                assert(i == old_seq.len() as int);
            }
            assert(final(self)@ =~= old(self)@.insert((chain, sequence), received));
            assert(final(self).wf()) by {
                assert forall|i: int, j: int| 0 <= i < j < new_seq.len() implies !(new_seq[
                    i
                ].chain == new_seq[j].chain && new_seq[i].sequence == new_seq[j].sequence) by {
                    if j == old_seq.len() as int {
                        if old_seq[i].chain == chain && old_seq[i].sequence == sequence {
                            assert(spec_has_key(old_seq, chain, sequence));
                        }
                    }
                }
            }
        }
        Ok(())
    }
}

/// Law: replay idempotence. Once a record for `(chain, sequence)` is
/// created, the key is present in the ledger's map, so by `record`'s
/// contract any further `record` call with that pair fails and leaves the
/// ledger unchanged, whatever record value the retry carries.
pub proof fn lemma_replay_idempotence(
    m: Map<(u16, u64), Received>,
    chain: u16,
    sequence: u64,
    first: Received,
)
    ensures
        m.insert((chain, sequence), first).contains_key((chain, sequence)),
{
}

} // verus!

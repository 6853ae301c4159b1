//! The counter that numbers the nonces of one sealing or opening session.

use vstd::prelude::*;

verus! {

/// Length in bytes of every nonce.
pub const NONCE_LEN: usize = 12;

/// The counter value a fresh sequence starts from.
pub const FIRST_COUNTER: u32 = 1;

/// The nonce that carries `counter`: eight zero bytes, then the counter in
/// four bytes, most significant first.
pub open spec fn nonce_bytes(counter: u32) -> Seq<u8> {
    seq![
        0u8, 0u8, 0u8, 0u8, 0u8, 0u8, 0u8, 0u8,
        (counter / 0x100_0000) as u8,
        (counter / 0x1_0000 % 0x100) as u8,
        (counter / 0x100 % 0x100) as u8,
        (counter % 0x100) as u8,
    ]
}

/// The counter value that a nonce of the form `nonce_bytes(..)` carries.
pub open spec fn nonce_counter(nonce: Seq<u8>) -> int {
    nonce[8] * 0x100_0000 + nonce[9] * 0x1_0000 + nonce[10] * 0x100 + nonce[11]
}

/// Why a sequence gave no nonce.
#[derive(Clone, Copy, Debug, PartialEq, Eq, Structural)]
pub enum NonceError {
    /// Every counter value that can be followed by another has been given out.
    Exhausted,
}

/// A source of nonces for one key-use session: it gives out the counter
/// values from 1 upwards, each once.
pub struct CounterNonceSequence {
    counter: u32,
}

impl View for CounterNonceSequence {
    type V = u32;

    /// The counter value that the next nonce will carry.
    closed spec fn view(&self) -> u32 {
        self.counter
    }
}

impl CounterNonceSequence {
    /// A sequence at its start: the next nonce carries 1.
    pub fn new() -> (seq: Self)
        ensures
            seq@ == FIRST_COUNTER,
    {
        CounterNonceSequence { counter: FIRST_COUNTER }
    }

    /// A sequence whose next nonce carries `counter`.
    pub fn starting_at(counter: u32) -> (seq: Self)
        ensures
            seq@ == counter,
    {
        CounterNonceSequence { counter }
    }

    /// Gives out the nonce of the current counter value and moves the counter
    /// on by one. Where the counter has no successor nothing is given out and
    /// the sequence stays as it is, so that no value can come twice.
    pub fn advance(&mut self) -> (r: Result<[u8; NONCE_LEN], NonceError>)
        ensures
            match r {
                Ok(nonce) => {
                    &&& old(self)@ < u32::MAX
                    &&& nonce@ == nonce_bytes(old(self)@)
                    &&& final(self)@ == old(self)@ + 1
                },
                Err(e) => {
                    &&& old(self)@ == u32::MAX
                    &&& e == NonceError::Exhausted
                    &&& final(self)@ == old(self)@
                },
            },
    {
        let current: u32 = self.counter;
        if current == u32::MAX {
            return Err(NonceError::Exhausted);
        }
        let nonce: [u8; NONCE_LEN] = [
            0,
            0,
            0,
            0,
            0,
            0,
            0,
            0,
            (current / 0x100_0000) as u8,
            (current / 0x1_0000 % 0x100) as u8,
            (current / 0x100 % 0x100) as u8,
            (current % 0x100) as u8,
        ];
        self.counter = current + 1;
        assert(nonce@ =~= nonce_bytes(current));
        Ok(nonce)
    }
}

/// A nonce has the fixed length, and the counter can be read back from it:
/// so two counter values never share a nonce.
pub proof fn lemma_nonce_carries_counter(counter: u32)
    ensures
        nonce_bytes(counter).len() == NONCE_LEN,
        nonce_counter(nonce_bytes(counter)) == counter,
{
}

/// Distinct counter values give distinct nonces.
pub proof fn lemma_nonces_differ(a: u32, b: u32)
    requires
        a != b,
    ensures
        nonce_bytes(a) != nonce_bytes(b),
{
    lemma_nonce_carries_counter(a);
    lemma_nonce_carries_counter(b);
}

} // verus!

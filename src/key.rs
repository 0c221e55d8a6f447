use vstd::prelude::*;

verus! {

/// The 32-byte identity of a principal: a wallet, the administrator, or the
/// owner that a card account is keyed by.
#[derive(Clone, Copy, Debug)]
pub struct Key {
    pub bytes: [u8; 32],
}

impl View for Key {
    type V = Seq<u8>;

    open spec fn view(&self) -> Seq<u8> {
        self.bytes@
    }
}

impl PartialEq for Key {
    fn eq(&self, other: &Key) -> (r: bool) {
        let mut i: usize = 0;
        while i < 32
            invariant
                i <= 32,
                self.bytes@.len() == 32,
                other.bytes@.len() == 32,
                forall|j: int| 0 <= j < i ==> self.bytes@[j] == other.bytes@[j],
            decreases 32 - i,
        {
            if self.bytes[i] != other.bytes[i] {
                return false;
            }
            i = i + 1;
        }
        proof {
            assert(self.bytes@ =~= other.bytes@);
        }
        true
    }
}

impl vstd::std_specs::cmp::PartialEqSpecImpl for Key {
    open spec fn obeys_eq_spec() -> bool {
        true
    }

    open spec fn eq_spec(&self, other: &Key) -> bool {
        self@ == other@
    }
}

/// What `Pubkey::from_str` makes of a text: the 32 bytes of the key it
/// spells in base58, or nothing when it spells none.
pub uninterp spec fn base58_key(s: Seq<char>) -> Option<Seq<u8>>;

/// Relies on anchor_lang's `Pubkey::from_str` (solana-program's impl) to
/// decode a base58 key; it returns an error, and never panics, on text that
/// is not one.
#[verifier::external_body]
pub(crate) fn parse_key(s: &str) -> (r: Option<Key>)
    ensures
        match r {
            Some(k) => base58_key(s@) == Some(k@),
            None => base58_key(s@) is None,
        },
{
    match <anchor_lang::prelude::Pubkey as std::str::FromStr>::from_str(s) {
        Ok(p) => Some(Key { bytes: p.to_bytes() }),
        Err(_) => None,
    }
}

impl Key {
    pub fn new(bytes: [u8; 32]) -> (r: Key)
        ensures
            r.bytes == bytes,
    {
        Key { bytes }
    }
}

} // verus!

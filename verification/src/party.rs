//! Parties: the addresses of accounts and contracts, held as the text of
//! their address.
use vstd::prelude::*;
use crate::bytes::{bytes_equal, copy_bytes};

verus! {

/// An account or contract address, held as the bytes of its address text.
/// Two parties are the same address exactly when their texts are equal.
#[derive(Debug)]
pub struct Party {
    pub key: Vec<u8>,
}

impl View for Party {
    type V = Seq<u8>;

    open spec fn view(&self) -> Seq<u8> {
        self.key@
    }
}

impl Party {
    /// The party whose address text is `key`.
    pub fn new(key: Vec<u8>) -> (p: Party)
        ensures
            p@ == key@,
    {
        Party { key }
    }

    /// Whether `self` and `other` are the same address.
    pub fn same_as(&self, other: &Party) -> (r: bool)
        ensures
            r == (self@ == other@),
    {
        bytes_equal(&self.key, &other.key)
    }

    /// A copy of this party.
    pub fn duplicate(&self) -> (p: Party)
        ensures
            p@ == self@,
    {
        Party { key: copy_bytes(&self.key) }
    }
}

} // verus!

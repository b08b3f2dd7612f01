use vstd::prelude::*;
use crate::address::{domain_bytes, MAX_DOMAIN_LEN};
use crate::key::{Key, KEY_LEN};

verus! {

/// Bytes of the header that the ledger puts in front of every record.
pub const HEADER_LEN: usize = 8;

/// Bytes of the length prefix of the stored domain name.
pub const DOMAIN_PREFIX_LEN: usize = 4;

/// Bytes allocated for one record: header, authority, owner, the domain name
/// with its length prefix, and the token reference.
pub const MARKER_SPACE: usize = 140;

/// The record that binds one domain name to its keys.
#[derive(Clone, Debug)]
pub struct Marker {
    /// Identity with administrative control; fixed at creation.
    pub authority: Key,
    /// Identity that currently holds the token.
    pub owner: Key,
    /// The name itself; fixed at creation.
    pub domain: String,
    /// The token that stands for ownership of the name; fixed at creation.
    pub mint: Key,
}

pub struct MarkerView {
    pub authority: Seq<u8>,
    pub owner: Seq<u8>,
    pub domain: Seq<char>,
    pub mint: Seq<u8>,
}

impl View for Marker {
    type V = MarkerView;

    open spec fn view(&self) -> MarkerView {
        MarkerView {
            authority: self.authority@,
            owner: self.owner@,
            domain: self.domain@,
            mint: self.mint@,
        }
    }
}

/// Bytes that a record's fields take in storage, header included.
pub open spec fn stored_len(m: MarkerView) -> nat {
    (HEADER_LEN + 3 * KEY_LEN + DOMAIN_PREFIX_LEN + domain_bytes(m.domain).len()) as nat
}

impl Marker {
    /// Bytes that this record takes in storage, header included.
    pub fn stored_len(&self) -> (r: usize)
        requires
            domain_bytes(self.domain@).len() <= MAX_DOMAIN_LEN,
        ensures
            r == stored_len(self@),
            r <= MARKER_SPACE,
    {
        HEADER_LEN + 3 * KEY_LEN + DOMAIN_PREFIX_LEN + self.domain.as_str().as_bytes().len()
    }
}

/// A token-holding account as the custody service reports it.
#[derive(Clone, Copy, Debug)]
pub struct TokenAccount {
    /// Where the holding account lives.
    pub address: Key,
    /// The identity that holds the balance.
    pub owner: Key,
    /// The token held.
    pub mint: Key,
    /// How many units are held.
    pub amount: u64,
}

pub struct TokenAccountView {
    pub address: Seq<u8>,
    pub owner: Seq<u8>,
    pub mint: Seq<u8>,
    pub amount: nat,
}

impl View for TokenAccount {
    type V = TokenAccountView;

    open spec fn view(&self) -> TokenAccountView {
        TokenAccountView {
            address: self.address@,
            owner: self.owner@,
            mint: self.mint@,
            amount: self.amount as nat,
        }
    }
}

/// A holding account proves that `holder` possesses a unit of `mint`.
pub open spec fn proves_custody(t: TokenAccountView, holder: Seq<u8>, mint: Seq<u8>) -> bool {
    &&& t.owner == holder
    &&& t.mint == mint
    &&& t.amount > 0
}

impl TokenAccount {
    /// Whether this account proves that `holder` possesses a unit of `mint`.
    pub fn proves_custody(&self, holder: &Key, mint: &Key) -> (r: bool)
        ensures
            r == proves_custody(self@, holder@, mint@),
    {
        self.owner.same(holder) && self.mint.same(mint) && self.amount > 0
    }
}

} // verus!

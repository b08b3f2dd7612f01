use vstd::prelude::*;
use crate::address::{marker_address, marker_address_of};
use crate::key::Key;
use crate::marker::{proves_custody, Marker, MarkerView, TokenAccount};
use crate::registry::Registry;

verus! {

/// Why an operation was rejected. A rejected operation changes nothing.
#[derive(Clone, Copy, Debug, PartialEq, Eq, Structural)]
pub enum MarkerError {
    /// The record location is not the address derived from the domain name,
    /// or the name has no address (it is longer than a seed may be).
    AddressMismatch,
    RecordAlreadyExists,
    RecordNotFound,
    /// A signer is not the identity that the record names for its role.
    Unauthorized,
    /// The holding account has another holder, another token, or no balance.
    InvalidCustodyProof,
    /// The token service reported a failure while burning the token.
    TokenBurnFailed,
}

/// The signers and accounts presented to `create_marker`.
#[derive(Clone, Copy, Debug)]
pub struct CreateMarker {
    /// The creator, who pays for the record and becomes its owner.
    pub owner: Key,
    pub authority: Key,
    /// Where the new record is to live.
    pub marker: Key,
    pub mint: Key,
    /// The creator's holding of `mint`.
    pub token_account: TokenAccount,
}

/// The signer and accounts presented to `update_owner`.
#[derive(Clone, Copy, Debug)]
pub struct UpdateOwner {
    pub authority: Key,
    pub marker: Key,
    pub new_owner: Key,
    /// The new owner's holding of the record's token.
    pub token_account: TokenAccount,
}

/// The signers and accounts presented to `burn_marker_and_mint`.
#[derive(Clone, Copy, Debug)]
pub struct BurnMarkerAndMint {
    pub owner: Key,
    pub mint: Key,
    pub authority: Key,
    pub marker: Key,
    /// The owner's holding of the record's token, from which one unit burns.
    pub token_account: TokenAccount,
}

/// The signer and account presented to `burn_marker_only`.
#[derive(Clone, Copy, Debug)]
pub struct BurnMarker {
    pub authority: Key,
    pub marker: Key,
}

/// The one call to the token service that destroying a record with its
/// token takes: burn `amount` units of `mint` from `from`, signed by
/// `authority`.
#[derive(Clone, Copy, Debug)]
pub struct TokenBurn {
    pub mint: Key,
    pub from: Key,
    pub authority: Key,
    pub amount: u64,
}

/// The error, if any, that rejects a creation.
pub open spec fn create_error(
    store: Map<Seq<u8>, MarkerView>,
    program: Seq<u8>,
    acc: CreateMarker,
    domain: Seq<char>,
) -> Option<MarkerError> {
    if marker_address_of(program, domain) != Some(acc.marker@) {
        Some(MarkerError::AddressMismatch)
    } else if store.contains_key(acc.marker@) {
        Some(MarkerError::RecordAlreadyExists)
    } else if !proves_custody(acc.token_account@, acc.owner@, acc.mint@) {
        Some(MarkerError::InvalidCustodyProof)
    } else {
        None
    }
}

/// The record that a successful creation stores.
pub open spec fn created_marker(acc: CreateMarker, domain: Seq<char>) -> MarkerView {
    MarkerView { authority: acc.authority@, owner: acc.owner@, domain, mint: acc.mint@ }
}

/// The error, if any, that rejects an owner update.
pub open spec fn update_owner_error(
    store: Map<Seq<u8>, MarkerView>,
    program: Seq<u8>,
    acc: UpdateOwner,
    domain: Seq<char>,
) -> Option<MarkerError> {
    if marker_address_of(program, domain) != Some(acc.marker@) {
        Some(MarkerError::AddressMismatch)
    } else if !store.contains_key(acc.marker@) {
        Some(MarkerError::RecordNotFound)
    } else if acc.authority@ != store[acc.marker@].authority {
        Some(MarkerError::Unauthorized)
    } else if !proves_custody(acc.token_account@, acc.new_owner@, store[acc.marker@].mint) {
        Some(MarkerError::InvalidCustodyProof)
    } else {
        None
    }
}

/// The error, if any, that rejects destroying a record with its token,
/// before the token is burned.
pub open spec fn burn_error(
    store: Map<Seq<u8>, MarkerView>,
    program: Seq<u8>,
    acc: BurnMarkerAndMint,
    domain: Seq<char>,
) -> Option<MarkerError> {
    if marker_address_of(program, domain) != Some(acc.marker@) {
        Some(MarkerError::AddressMismatch)
    } else if !store.contains_key(acc.marker@) {
        Some(MarkerError::RecordNotFound)
    } else if acc.authority@ != store[acc.marker@].authority || acc.owner@
        != store[acc.marker@].owner {
        Some(MarkerError::Unauthorized)
    } else if !proves_custody(
        acc.token_account@,
        store[acc.marker@].owner,
        store[acc.marker@].mint,
    ) || acc.mint@ != store[acc.marker@].mint {
        Some(MarkerError::InvalidCustodyProof)
    } else {
        None
    }
}

/// The error, if any, that rejects destroying a record alone.
pub open spec fn burn_only_error(
    store: Map<Seq<u8>, MarkerView>,
    program: Seq<u8>,
    acc: BurnMarker,
    domain: Seq<char>,
) -> Option<MarkerError> {
    if marker_address_of(program, domain) != Some(acc.marker@) {
        Some(MarkerError::AddressMismatch)
    } else if !store.contains_key(acc.marker@) {
        Some(MarkerError::RecordNotFound)
    } else if acc.authority@ != store[acc.marker@].authority {
        Some(MarkerError::Unauthorized)
    } else {
        None
    }
}

/// Whether `marker` is the derived address of `domain` in this store.
fn is_marker_address(registry: &Registry, marker: &Key, domain: &str) -> (r: bool)
    ensures
        r == (marker_address_of(registry.program_id@, domain@) == Some(marker@)),
{
    match marker_address(&registry.program_id, domain) {
        Some(k) => k.same(marker),
        None => false,
    }
}

/// Creates the record of `domain` at `accounts.marker`, with the creator as
/// owner, where no record lives there and the creator holds the token.
pub fn create_marker(registry: &mut Registry, accounts: &CreateMarker, domain: String) -> (r: Result<(), MarkerError>)
    requires
        old(registry).wf(),
    ensures
        final(registry).wf(),
        final(registry).program_id == old(registry).program_id,
        r matches Err(e) ==> create_error(old(registry)@, old(registry).program_id@, *accounts, domain@) == Some(e),
        r is Ok ==> create_error(old(registry)@, old(registry).program_id@, *accounts, domain@) is None,
        r is Err ==> final(registry)@ == old(registry)@,
        r is Ok ==> final(registry)@ == old(registry)@.insert(
            accounts.marker@,
            created_marker(*accounts, domain@),
        ),
{
    if !is_marker_address(registry, &accounts.marker, domain.as_str()) {
        return Err(MarkerError::AddressMismatch);
    }
    if registry.find(&accounts.marker).is_some() {
        return Err(MarkerError::RecordAlreadyExists);
    }
    if !accounts.token_account.proves_custody(&accounts.owner, &accounts.mint) {
        return Err(MarkerError::InvalidCustodyProof);
    }
    let marker = Marker {
        authority: accounts.authority,
        owner: accounts.owner,
        domain,
        mint: accounts.mint,
    };
    registry.insert_new(accounts.marker, marker);
    Ok(())
}

/// Hands the record of `domain` to `accounts.new_owner`, where the authority
/// signs and the new owner holds the record's token.
pub fn update_owner(registry: &mut Registry, accounts: &UpdateOwner, domain: &str) -> (r: Result<(), MarkerError>)
    requires
        old(registry).wf(),
    ensures
        final(registry).wf(),
        final(registry).program_id == old(registry).program_id,
        r matches Err(e) ==> update_owner_error(old(registry)@, old(registry).program_id@, *accounts, domain@) == Some(e),
        r is Ok ==> update_owner_error(old(registry)@, old(registry).program_id@, *accounts, domain@) is None,
        r is Err ==> final(registry)@ == old(registry)@,
        r is Ok ==> final(registry)@ == old(registry)@.insert(
            accounts.marker@,
            MarkerView { owner: accounts.new_owner@, ..old(registry)@[accounts.marker@] },
        ),
{
    if !is_marker_address(registry, &accounts.marker, domain) {
        return Err(MarkerError::AddressMismatch);
    }
    let i = match registry.find(&accounts.marker) {
        Some(i) => i,
        None => return Err(MarkerError::RecordNotFound),
    };
    let stored = &registry.records[i].marker;
    if !accounts.authority.same(&stored.authority) {
        return Err(MarkerError::Unauthorized);
    }
    if !accounts.token_account.proves_custody(&accounts.new_owner, &stored.mint) {
        return Err(MarkerError::InvalidCustodyProof);
    }
    registry.set_owner_at(i, accounts.new_owner);
    Ok(())
}

/// The checks of destroying a record with its token, and the position of
/// the record where they pass.
fn check_burn(registry: &Registry, accounts: &BurnMarkerAndMint, domain: &str) -> (r: Result<usize, MarkerError>)
    requires
        registry.wf(),
    ensures
        r matches Err(e) ==> burn_error(registry@, registry.program_id@, *accounts, domain@) == Some(e),
        r matches Ok(i) ==> {
            &&& burn_error(registry@, registry.program_id@, *accounts, domain@) is None
            &&& i < registry.records@.len()
            &&& registry.records@[i as int].address@ == accounts.marker@
        },
{
    if !is_marker_address(registry, &accounts.marker, domain) {
        return Err(MarkerError::AddressMismatch);
    }
    let i = match registry.find(&accounts.marker) {
        Some(i) => i,
        None => return Err(MarkerError::RecordNotFound),
    };
    let stored = &registry.records[i].marker;
    if !accounts.authority.same(&stored.authority) || !accounts.owner.same(&stored.owner) {
        return Err(MarkerError::Unauthorized);
    }
    if !accounts.token_account.proves_custody(&stored.owner, &stored.mint) || !accounts.mint.same(
        &stored.mint,
    ) {
        return Err(MarkerError::InvalidCustodyProof);
    }
    Ok(i)
}

/// Checks a request to destroy the record of `domain` together with one unit
/// of its token, and returns the one token burn to perform. The store is not
/// touched: `complete_burn_marker_and_mint` destroys the record once the
/// burn is done.
pub fn burn_marker_and_mint(registry: &Registry, accounts: &BurnMarkerAndMint, domain: &str) -> (r: Result<TokenBurn, MarkerError>)
    requires
        registry.wf(),
    ensures
        r matches Err(e) ==> burn_error(registry@, registry.program_id@, *accounts, domain@) == Some(e),
        r matches Ok(b) ==> {
            &&& burn_error(registry@, registry.program_id@, *accounts, domain@) is None
            &&& b.mint@ == registry@[accounts.marker@].mint
            &&& b.from@ == accounts.token_account.address@
            &&& b.authority@ == accounts.owner@
            &&& b.amount == 1
        },
{
    let i = check_burn(registry, accounts, domain)?;
    proof {
        registry.lemma_view_at(i as int);
    }
    Ok(TokenBurn {
        mint: registry.records[i].marker.mint,
        from: accounts.token_account.address,
        authority: accounts.owner,
        amount: 1,
    })
}

/// Destroys the record of `domain` once the token burn that
/// `burn_marker_and_mint` asked for has been attempted: only where the checks
/// still pass and the burn succeeded. Returns the identity that receives the
/// record's storage back, its authority.
pub fn complete_burn_marker_and_mint(
    registry: &mut Registry,
    accounts: &BurnMarkerAndMint,
    domain: &str,
    burned: bool,
) -> (r: Result<Key, MarkerError>)
    requires
        old(registry).wf(),
    ensures
        final(registry).wf(),
        final(registry).program_id == old(registry).program_id,
        burn_error(old(registry)@, old(registry).program_id@, *accounts, domain@) matches Some(e)
            ==> r == Err::<Key, MarkerError>(e),
        burn_error(old(registry)@, old(registry).program_id@, *accounts, domain@) is None ==> {
            &&& !burned ==> r == Err::<Key, MarkerError>(MarkerError::TokenBurnFailed)
            &&& burned ==> (r matches Ok(k) && k@ == old(registry)@[accounts.marker@].authority)
        },
        r is Err ==> final(registry)@ == old(registry)@,
        r is Ok ==> final(registry)@ == old(registry)@.remove(accounts.marker@),
        r is Ok ==> !final(registry)@.contains_key(accounts.marker@),
        !burned ==> final(registry)@ == old(registry)@,
{
    let i = check_burn(registry, accounts, domain)?;
    if !burned {
        return Err(MarkerError::TokenBurnFailed);
    }
    proof {
        registry.lemma_view_at(i as int);
    }
    let beneficiary = registry.records[i].marker.authority;
    registry.remove_at(i);
    Ok(beneficiary)
}

/// Destroys the record of `domain` without touching any token, where its
/// authority signs: the cleanup path for a record whose token is gone.
/// Returns the identity that receives the record's storage back.
pub fn burn_marker_only(registry: &mut Registry, accounts: &BurnMarker, domain: &str) -> (r: Result<Key, MarkerError>)
    requires
        old(registry).wf(),
    ensures
        final(registry).wf(),
        final(registry).program_id == old(registry).program_id,
        r matches Err(e) ==> burn_only_error(old(registry)@, old(registry).program_id@, *accounts, domain@) == Some(e),
        r matches Ok(k) ==> {
            &&& burn_only_error(old(registry)@, old(registry).program_id@, *accounts, domain@) is None
            &&& k@ == old(registry)@[accounts.marker@].authority
        },
        r is Err ==> final(registry)@ == old(registry)@,
        r is Ok ==> final(registry)@ == old(registry)@.remove(accounts.marker@),
{
    if !is_marker_address(registry, &accounts.marker, domain) {
        return Err(MarkerError::AddressMismatch);
    }
    let i = match registry.find(&accounts.marker) {
        Some(i) => i,
        None => return Err(MarkerError::RecordNotFound),
    };
    let beneficiary = registry.records[i].marker.authority;
    if !accounts.authority.same(&beneficiary) {
        return Err(MarkerError::Unauthorized);
    }
    registry.remove_at(i);
    Ok(beneficiary)
}

} // verus!

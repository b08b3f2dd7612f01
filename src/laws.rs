use vstd::prelude::*;
use crate::address::marker_address_of;
use crate::lifecycle::{
    burn_only_error,
    create_error,
    created_marker,
    update_owner_error,
    BurnMarker,
    CreateMarker,
    MarkerError,
    UpdateOwner,
};
use crate::marker::MarkerView;
use crate::registry::Registry;

verus! {

/// Once a domain has been created, creating it again is rejected: with
/// `RecordAlreadyExists` at the same address, and as a mismatch anywhere else.
pub proof fn lemma_create_twice_rejected(
    store: Map<Seq<u8>, MarkerView>,
    program: Seq<u8>,
    first: CreateMarker,
    second: CreateMarker,
    domain: Seq<char>,
)
    requires
        create_error(store, program, first, domain) is None,
    ensures
        create_error(
            store.insert(first.marker@, created_marker(first, domain)),
            program,
            second,
            domain,
        ) == Some(
            if second.marker@ == first.marker@ {
                MarkerError::RecordAlreadyExists
            } else {
                MarkerError::AddressMismatch
            },
        ),
{
}

/// A creation stores its record at the address derived from the domain name,
/// and every record of a store stays at the address that deriving its own
/// name again gives.
pub proof fn lemma_address_stable(
    registry: Registry,
    acc: CreateMarker,
    domain: Seq<char>,
)
    requires
        registry.wf(),
    ensures
        create_error(registry@, registry.program_id@, acc, domain) is None
            ==> marker_address_of(registry.program_id@, domain) == Some(acc.marker@),
        forall|a: Seq<u8>| #[trigger] registry@.contains_key(a)
            ==> marker_address_of(registry.program_id@, registry@[a].domain) == Some(a),
{
    assert forall|a: Seq<u8>| #[trigger] registry@.contains_key(a)
        implies marker_address_of(registry.program_id@, registry@[a].domain) == Some(a) by {
        let i = registry.index_of(a);
        registry.lemma_view_at(i);
    }
}

/// No two records of a store hold the same domain name.
pub proof fn lemma_one_record_per_domain(registry: Registry, a: Seq<u8>, b: Seq<u8>)
    requires
        registry.wf(),
        registry@.contains_key(a),
        registry@.contains_key(b),
        registry@[a].domain == registry@[b].domain,
    ensures
        a == b,
{
    lemma_address_stable(registry, arbitrary(), arbitrary());
}

/// On a record that exists at its derived address, an owner update passes
/// exactly when the authority signs and the new owner holds a unit of the
/// record's token; a wrong signer is `Unauthorized`, a wrong holder, token or
/// an empty balance is `InvalidCustodyProof`.
pub proof fn lemma_update_owner_conditions(
    store: Map<Seq<u8>, MarkerView>,
    program: Seq<u8>,
    acc: UpdateOwner,
    domain: Seq<char>,
)
    requires
        marker_address_of(program, domain) == Some(acc.marker@),
        store.contains_key(acc.marker@),
    ensures
        update_owner_error(store, program, acc, domain) is None <==> {
            &&& acc.authority@ == store[acc.marker@].authority
            &&& acc.token_account.owner@ == acc.new_owner@
            &&& acc.token_account.mint@ == store[acc.marker@].mint
            &&& acc.token_account.amount > 0
        },
        acc.authority@ != store[acc.marker@].authority ==> update_owner_error(
            store,
            program,
            acc,
            domain,
        ) == Some(MarkerError::Unauthorized),
        acc.authority@ == store[acc.marker@].authority && (acc.token_account.owner@
            != acc.new_owner@ || acc.token_account.mint@ != store[acc.marker@].mint
            || acc.token_account.amount == 0) ==> update_owner_error(store, program, acc, domain)
            == Some(MarkerError::InvalidCustodyProof),
{
}

/// On a record that exists at its derived address, destroying it alone
/// passes exactly when its authority signs, and is `Unauthorized` for any
/// other signer; no holding account takes part.
pub proof fn lemma_burn_only_conditions(
    store: Map<Seq<u8>, MarkerView>,
    program: Seq<u8>,
    acc: BurnMarker,
    domain: Seq<char>,
)
    requires
        marker_address_of(program, domain) == Some(acc.marker@),
        store.contains_key(acc.marker@),
    ensures
        acc.authority@ == store[acc.marker@].authority ==> burn_only_error(
            store,
            program,
            acc,
            domain,
        ) is None,
        acc.authority@ != store[acc.marker@].authority ==> burn_only_error(
            store,
            program,
            acc,
            domain,
        ) == Some(MarkerError::Unauthorized),
{
}

/// Once the record at an address is destroyed, the name can be created
/// again there: the store no longer stands in the way.
pub proof fn lemma_name_reusable_after_destroy(
    store: Map<Seq<u8>, MarkerView>,
    program: Seq<u8>,
    acc: CreateMarker,
    domain: Seq<char>,
)
    requires
        marker_address_of(program, domain) == Some(acc.marker@),
    ensures
        create_error(store.remove(acc.marker@), program, acc, domain) != Some(
            MarkerError::RecordAlreadyExists,
        ),
        acc.token_account.owner@ == acc.owner@ && acc.token_account.mint@ == acc.mint@
            && acc.token_account.amount > 0 ==> create_error(
            store.remove(acc.marker@),
            program,
            acc,
            domain,
        ) is None,
{
}

} // verus!

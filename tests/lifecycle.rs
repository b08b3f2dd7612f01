use anchor_lang::prelude::Pubkey;
use customshop::address::{marker_address, MAX_DOMAIN_LEN};
use customshop::key::Key;
use customshop::lifecycle::{
    burn_marker_and_mint, burn_marker_only, complete_burn_marker_and_mint, create_marker,
    update_owner, BurnMarker, BurnMarkerAndMint, CreateMarker, MarkerError, UpdateOwner,
};
use customshop::marker::{Marker, TokenAccount, MARKER_SPACE};
use customshop::registry::Registry;

fn key(n: u8) -> Key {
    Key::new([n; 32])
}

fn program() -> Key {
    key(200)
}

const A: u8 = 1;
const O1: u8 = 2;
const O2: u8 = 3;
const M: u8 = 4;
const OTHER_MINT: u8 = 5;
const STRANGER: u8 = 6;

fn holding(address: u8, owner: u8, mint: u8, amount: u64) -> TokenAccount {
    TokenAccount { address: key(address), owner: key(owner), mint: key(mint), amount }
}

fn address_of(domain: &str) -> Key {
    marker_address(&program(), domain).expect("domain has an address")
}

fn create_accounts(domain: &str) -> CreateMarker {
    CreateMarker {
        owner: key(O1),
        authority: key(A),
        marker: address_of(domain),
        mint: key(M),
        token_account: holding(50, O1, M, 1),
    }
}

fn registry_with(domain: &str) -> Registry {
    let mut registry = Registry::new(program());
    assert_eq!(create_marker(&mut registry, &create_accounts(domain), domain.to_string()), Ok(()));
    registry
}

fn burn_accounts(domain: &str, owner: u8, holding_account: TokenAccount) -> BurnMarkerAndMint {
    BurnMarkerAndMint {
        owner: key(owner),
        mint: key(M),
        authority: key(A),
        marker: address_of(domain),
        token_account: holding_account,
    }
}

#[test]
fn alice_shop_full_lifecycle() {
    let domain = "alice.shop";
    let mut registry = registry_with(domain);
    let at = address_of(domain);
    {
        let m: &Marker = registry.get(&at).expect("created");
        assert_eq!(m.authority, key(A));
        assert_eq!(m.owner, key(O1));
        assert_eq!(m.mint, key(M));
        assert_eq!(m.domain, "alice.shop");
    }

    let update = UpdateOwner {
        authority: key(A),
        marker: at,
        new_owner: key(O2),
        token_account: holding(51, O2, M, 1),
    };
    assert_eq!(update_owner(&mut registry, &update, domain), Ok(()));
    assert_eq!(registry.get(&at).unwrap().owner, key(O2));

    let acc = burn_accounts(domain, O2, holding(51, O2, M, 1));
    let burn = burn_marker_and_mint(&registry, &acc, domain).expect("checks pass");
    assert_eq!(burn.amount, 1);
    assert_eq!(burn.mint, key(M));
    assert_eq!(burn.from, key(51));
    assert_eq!(burn.authority, key(O2));
    assert_eq!(complete_burn_marker_and_mint(&mut registry, &acc, domain, true), Ok(key(A)));
    assert!(registry.get(&at).is_none());

    assert_eq!(create_marker(&mut registry, &create_accounts(domain), domain.to_string()), Ok(()));
    assert!(registry.get(&at).is_some());
}

#[test]
fn second_create_is_rejected() {
    let domain = "bob.shop";
    let mut registry = registry_with(domain);
    assert_eq!(
        create_marker(&mut registry, &create_accounts(domain), domain.to_string()),
        Err(MarkerError::RecordAlreadyExists)
    );
    let mut elsewhere = create_accounts(domain);
    elsewhere.marker = address_of("carol.shop");
    assert_eq!(
        create_marker(&mut registry, &elsewhere, domain.to_string()),
        Err(MarkerError::AddressMismatch)
    );
    assert_eq!(registry.records.len(), 1);
}

#[test]
fn address_is_stable_and_matches_the_program_derivation() {
    let a1 = address_of("alice.shop");
    let a2 = address_of("alice.shop");
    assert_eq!(a1, a2);
    assert_ne!(a1, address_of("alice.shoq"));
    assert_ne!(a1, program());
    let pid = Pubkey::new_from_array(program().to_bytes());
    let (expected, _) = Pubkey::find_program_address(&[b"marker", b"alice.shop"], &pid);
    assert_eq!(a1.to_bytes(), expected.to_bytes());
    let other = marker_address(&key(201), "alice.shop").unwrap();
    assert_ne!(a1, other);
}

#[test]
fn overlong_domain_has_no_address() {
    let long = "a".repeat(MAX_DOMAIN_LEN + 1);
    assert!(marker_address(&program(), &long).is_none());
    let longest = "a".repeat(MAX_DOMAIN_LEN);
    assert!(marker_address(&program(), &longest).is_some());
    let mut registry = Registry::new(program());
    let mut acc = create_accounts("alice.shop");
    acc.marker = key(9);
    assert_eq!(create_marker(&mut registry, &acc, long), Err(MarkerError::AddressMismatch));
    assert!(registry.records.is_empty());
}

#[test]
fn create_needs_custody_of_the_token() {
    let domain = "dave.shop";
    let mut registry = Registry::new(program());
    for bad in [holding(50, O1, M, 0), holding(50, O1, OTHER_MINT, 1), holding(50, STRANGER, M, 1)] {
        let mut acc = create_accounts(domain);
        acc.token_account = bad;
        assert_eq!(
            create_marker(&mut registry, &acc, domain.to_string()),
            Err(MarkerError::InvalidCustodyProof)
        );
    }
    assert!(registry.get(&address_of(domain)).is_none());
}

#[test]
fn update_owner_rejects_each_violated_condition() {
    let domain = "erin.shop";
    let mut registry = registry_with(domain);
    let at = address_of(domain);
    let good = UpdateOwner {
        authority: key(A),
        marker: at,
        new_owner: key(O2),
        token_account: holding(51, O2, M, 1),
    };
    let mut wrong_signer = good;
    wrong_signer.authority = key(STRANGER);
    assert_eq!(update_owner(&mut registry, &wrong_signer, domain), Err(MarkerError::Unauthorized));
    let mut wrong_mint = good;
    wrong_mint.token_account.mint = key(OTHER_MINT);
    assert_eq!(update_owner(&mut registry, &wrong_mint, domain), Err(MarkerError::InvalidCustodyProof));
    let mut empty = good;
    empty.token_account.amount = 0;
    assert_eq!(update_owner(&mut registry, &empty, domain), Err(MarkerError::InvalidCustodyProof));
    let mut wrong_holder = good;
    wrong_holder.token_account.owner = key(STRANGER);
    assert_eq!(update_owner(&mut registry, &wrong_holder, domain), Err(MarkerError::InvalidCustodyProof));
    assert_eq!(registry.get(&at).unwrap().owner, key(O1));
    let mut missing = good;
    missing.marker = address_of("frank.shop");
    assert_eq!(update_owner(&mut registry, &missing, "frank.shop"), Err(MarkerError::RecordNotFound));
    assert_eq!(update_owner(&mut registry, &good, "frank.shop"), Err(MarkerError::AddressMismatch));
    assert_eq!(update_owner(&mut registry, &good, domain), Ok(()));
    assert_eq!(registry.get(&at).unwrap().owner, key(O2));
}

#[test]
fn failed_token_burn_keeps_the_record() {
    let domain = "gina.shop";
    let mut registry = registry_with(domain);
    let acc = burn_accounts(domain, O1, holding(50, O1, M, 1));
    assert!(burn_marker_and_mint(&registry, &acc, domain).is_ok());
    assert_eq!(
        complete_burn_marker_and_mint(&mut registry, &acc, domain, false),
        Err(MarkerError::TokenBurnFailed)
    );
    assert!(registry.get(&address_of(domain)).is_some());
}

#[test]
fn burn_with_token_checks_signers_and_custody() {
    let domain = "hugo.shop";
    let mut registry = registry_with(domain);
    let mut not_owner = burn_accounts(domain, STRANGER, holding(50, STRANGER, M, 1));
    assert_eq!(burn_marker_and_mint(&registry, &not_owner, domain).unwrap_err(), MarkerError::Unauthorized);
    not_owner.owner = key(O1);
    not_owner.authority = key(STRANGER);
    assert_eq!(burn_marker_and_mint(&registry, &not_owner, domain).unwrap_err(), MarkerError::Unauthorized);
    let empty = burn_accounts(domain, O1, holding(50, O1, M, 0));
    assert_eq!(burn_marker_and_mint(&registry, &empty, domain).unwrap_err(), MarkerError::InvalidCustodyProof);
    let mut wrong_mint = burn_accounts(domain, O1, holding(50, O1, M, 1));
    wrong_mint.mint = key(OTHER_MINT);
    assert_eq!(
        complete_burn_marker_and_mint(&mut registry, &wrong_mint, domain, true),
        Err(MarkerError::InvalidCustodyProof)
    );
    assert!(registry.get(&address_of(domain)).is_some());
    let missing = burn_accounts("ivan.shop", O1, holding(50, O1, M, 1));
    assert_eq!(burn_marker_and_mint(&registry, &missing, "ivan.shop").unwrap_err(), MarkerError::RecordNotFound);
}

#[test]
fn burn_marker_only_needs_the_authority_alone() {
    let domain = "jane.shop";
    let mut registry = registry_with(domain);
    let at = address_of(domain);
    let stranger = BurnMarker { authority: key(STRANGER), marker: at };
    assert_eq!(burn_marker_only(&mut registry, &stranger, domain), Err(MarkerError::Unauthorized));
    let owner = BurnMarker { authority: key(O1), marker: at };
    assert_eq!(burn_marker_only(&mut registry, &owner, domain), Err(MarkerError::Unauthorized));
    assert!(registry.get(&at).is_some());
    let authority = BurnMarker { authority: key(A), marker: at };
    assert_eq!(burn_marker_only(&mut registry, &authority, domain), Ok(key(A)));
    assert!(registry.get(&at).is_none());
    assert_eq!(burn_marker_only(&mut registry, &authority, domain), Err(MarkerError::RecordNotFound));
}

#[test]
fn stored_length_fits_the_allocation() {
    let registry = registry_with("alice.shop");
    let m = registry.get(&address_of("alice.shop")).unwrap();
    assert_eq!(m.stored_len(), 8 + 32 + 32 + 4 + 10 + 32);
    let longest = "z".repeat(MAX_DOMAIN_LEN);
    let registry = registry_with(&longest);
    let m = registry.get(&address_of(&longest)).unwrap();
    assert_eq!(m.stored_len(), MARKER_SPACE);
    assert_eq!(MARKER_SPACE, 140);
}

#[test]
fn keys_compare_by_bytes() {
    let mut b = [3u8; 32];
    assert!(Key::new(b).same(&key(3)));
    b[31] = 4;
    assert!(!Key::new(b).same(&key(3)));
    assert_ne!(Key::new(b), key(3));
}

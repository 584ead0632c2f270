use std::collections::HashMap;

use nft_announce::account::AccountId;
use nft_announce::contract::{authorizes, AnnounceError, NFTAnnounce};
use nft_announce::interfaces::{
    ComposeableStats, Owner, TokenCompliant, TokenKey, TokenMetadataCompliant,
};

fn account(name: &str) -> AccountId {
    AccountId::parse(name).unwrap()
}

fn metadata() -> TokenMetadataCompliant {
    TokenMetadataCompliant {
        title: None,
        description: None,
        media: None,
        media_hash: None,
        copies: None,
        issued_at: None,
        expires_at: None,
        starts_at: None,
        updated_at: None,
        extra: None,
        reference: None,
        reference_hash: None,
    }
}

fn token(id: u64, owner: Owner) -> TokenCompliant {
    TokenCompliant {
        token_id: id.to_string(),
        owner_id: owner,
        approved_account_ids: HashMap::new(),
        metadata: metadata(),
        royalty: None,
        split_owners: None,
        minter: account("minter.near"),
        loan: None,
        composeable_stats: ComposeableStats { local_depth: 0, cross_contract_children: 0 },
        origin_key: None,
    }
}

fn service() -> NFTAnnounce {
    NFTAnnounce::new(account("store.near"), false).unwrap()
}

/// Runs one request by `signer` to its end, with the registry reporting `owner`.
fn run(
    c: &mut NFTAnnounce,
    nft_id: u64,
    text: &str,
    signer: &str,
    owner: Option<Owner>,
) -> Result<(), AnnounceError> {
    let (query, pending) = c.announce(nft_id, text.to_string(), account(signer));
    assert_eq!(query.token_id, nft_id);
    assert_eq!(query.registry, account("store.near"));
    c.query_token_callback(owner.map(|o| token(nft_id, o)), pending)
}

#[test]
fn get_nft_contract() {
    let alice: AccountId = "alice.near".parse().unwrap();
    assert!("invalid.".parse::<AccountId>().is_err());

    let announcer = NFTAnnounce {
        nft_store_contract: alice.clone(),
        announcements: HashMap::new(),
    };
    let store = announcer.get_nft_store_contract();

    assert_eq!(store, alice);
}

#[test]
fn set_hash_as_owner() {
    let mut c = service();
    let r = run(&mut c, 42, "hello", "alice", Some(Owner::Account(account("alice"))));
    assert_eq!(r, Ok(()));
    assert_eq!(c.get_announcement(42), "hello");
}

#[test]
fn try_set_hash_not_owner() {
    let mut c = service();
    run(&mut c, 42, "hello", "alice", Some(Owner::Account(account("alice")))).unwrap();
    let r = run(&mut c, 42, "bye", "bob", Some(Owner::Account(account("alice"))));
    assert_eq!(r, Err(AnnounceError::AuthorizationDenied));
    assert_eq!(c.get_announcement(42), "hello");
}

#[test]
fn never_announced_reads_empty() {
    let c = service();
    assert_eq!(c.get_announcement(7), "");
    assert_eq!(c.get_announcement(u64::MAX), "");
}

#[test]
fn failed_query_changes_nothing() {
    let mut c = service();
    run(&mut c, 3, "first", "alice", Some(Owner::Account(account("alice")))).unwrap();
    let r = run(&mut c, 3, "second", "alice", None);
    assert_eq!(r, Err(AnnounceError::ExternalCallFailed));
    assert_eq!(c.get_announcement(3), "first");
    let r = run(&mut c, 4, "other", "alice", None);
    assert_eq!(r, Err(AnnounceError::ExternalCallFailed));
    assert_eq!(c.get_announcement(4), "");
}

#[test]
fn composed_cross_and_locked_are_denied() {
    let mut c = service();
    let key = TokenKey { token_id: 9, account_id: "other.near".to_string() };
    for owner in [
        Owner::TokenId(5),
        Owner::CrossKey(key),
        Owner::Lock(account("alice")),
    ] {
        let r = run(&mut c, 1, "text", "alice", Some(owner));
        assert_eq!(r, Err(AnnounceError::AuthorizationDenied));
        assert_eq!(c.get_announcement(1), "");
    }
}

#[test]
fn second_announcement_overwrites_first() {
    let mut c = service();
    run(&mut c, 8, "s1", "alice", Some(Owner::Account(account("alice")))).unwrap();
    run(&mut c, 8, "s2", "alice", Some(Owner::Account(account("alice")))).unwrap();
    assert_eq!(c.get_announcement(8), "s2");
}

#[test]
fn concurrent_announcements_leave_one_of_them() {
    let mut c = service();
    let (_, pa) = c.announce(5, "from a".to_string(), account("alice"));
    let (_, pb) = c.announce(5, "from b".to_string(), account("bob"));
    assert_eq!(c.get_announcement(5), "");
    // bob's answer arrives first, then the token moves to alice
    c.query_token_callback(Some(token(5, Owner::Account(account("bob")))), pb).unwrap();
    c.query_token_callback(Some(token(5, Owner::Account(account("alice")))), pa).unwrap();
    let fin = c.get_announcement(5);
    assert!(fin == "from a" || fin == "from b");
    assert_eq!(fin, "from a");
}

#[test]
fn other_tokens_are_untouched() {
    let mut c = service();
    run(&mut c, 1, "one", "alice", Some(Owner::Account(account("alice")))).unwrap();
    run(&mut c, 2, "two", "alice", Some(Owner::Account(account("alice")))).unwrap();
    assert_eq!(c.get_announcement(1), "one");
    assert_eq!(c.get_announcement(2), "two");
}

#[test]
fn second_construction_fails() {
    let r = NFTAnnounce::new(account("store.near"), true);
    assert!(matches!(r, Err(AnnounceError::AlreadyInitialized)));
    let c = NFTAnnounce::new(account("store.near"), false).unwrap();
    assert_eq!(c.get_nft_store_contract(), account("store.near"));
}

#[test]
fn owner_query_reports_owner_or_failure() {
    let c = service();
    let q = c.get_nft_owner(11);
    assert_eq!(q.token_id, 11);
    assert_eq!(q.registry, account("store.near"));
    let r = c.query_token_view_callback(Some(token(11, Owner::TokenId(3))));
    assert!(matches!(r, Ok(Owner::TokenId(3))));
    let r = c.query_token_view_callback(None);
    assert!(matches!(r, Err(AnnounceError::ExternalCallFailed)));
}

#[test]
fn policy_trusts_direct_account_only() {
    let alice = account("alice");
    assert!(authorizes(&Owner::Account(account("alice")), &alice));
    assert!(!authorizes(&Owner::Account(account("bob")), &alice));
    assert!(!authorizes(&Owner::Lock(account("alice")), &alice));
    assert!(!authorizes(&Owner::TokenId(1), &alice));
}

#[test]
fn account_names_follow_the_rules() {
    assert!(AccountId::parse("ab").is_ok());
    assert!(AccountId::parse("a-b_c.near").is_ok());
    assert_eq!(AccountId::parse("alice.near").unwrap().as_str(), "alice.near");
    assert!(AccountId::parse("a").is_err());
    assert!(AccountId::parse("Alice").is_err());
    assert!(AccountId::parse("a..b").is_err());
    assert!(AccountId::parse(".ab").is_err());
    assert!(AccountId::parse("ab-").is_err());
    assert!(AccountId::parse("é.near").is_err());
    assert!(AccountId::parse(&"a".repeat(64)).is_ok());
    assert!(AccountId::parse(&"a".repeat(65)).is_err());
}

use sns_subdomain::{
    get_domain_key, parse_registrar_account, registrar_address, registrar_from_fetch, FetchError,
    LookupError,
};
use solana_program::pubkey::Pubkey;
use sub_registrar::state::registry::Registrar;
use sub_registrar::state::schedule::Price;
use sub_registrar::state::{Tag, ROOT_DOMAIN_ACCOUNT};

fn name_key(label: &[u8], parent: &Pubkey) -> Pubkey {
    let mut data = spl_name_service_2::state::HASH_PREFIX.as_bytes().to_vec();
    data.extend_from_slice(label);
    let hashed = solana_program::hash::hash(&data).to_bytes().to_vec();
    spl_name_service_2::state::get_seeds_and_key(&spl_name_service_2::ID, hashed, None, Some(parent))
        .0
}

fn sample_registrar(authority: Pubkey) -> Registrar {
    Registrar::new(
        &authority,
        &Pubkey::new_from_array([2u8; 32]),
        &Pubkey::new_from_array([3u8; 32]),
        &Pubkey::new_from_array([4u8; 32]),
        vec![Price { length: 1, price: 100 }, Price { length: 3, price: 20 }],
        254,
        Some(Pubkey::new_from_array([5u8; 32])),
        2,
        true,
        3600,
    )
}

#[test]
fn top_level_domain_key_matches_name_service() {
    let expected = name_key(b"example", &ROOT_DOMAIN_ACCOUNT);
    assert_eq!(get_domain_key("example"), Ok(expected.to_bytes()));
}

#[test]
fn sol_suffix_is_ignored() {
    assert_eq!(get_domain_key("example.sol"), get_domain_key("example"));
    assert_eq!(get_domain_key("sub.example.sol"), get_domain_key("sub.example"));
}

#[test]
fn sub_domain_key_is_under_parent() {
    let parent = name_key(b"example", &ROOT_DOMAIN_ACCOUNT);
    let expected = name_key(b"\0sub", &parent);
    assert_eq!(get_domain_key("sub.example"), Ok(expected.to_bytes()));
    assert_ne!(get_domain_key("sub.example"), get_domain_key("example"));
}

#[test]
fn too_many_labels_is_invalid() {
    assert_eq!(get_domain_key("a.b.c"), Err(LookupError::InvalidDomain));
    assert_eq!(registrar_address("a.b.c.sol"), Err(LookupError::InvalidDomain));
}

#[test]
fn registrar_address_uses_registrar_program() {
    let domain_key = name_key(b"example", &ROOT_DOMAIN_ACCOUNT);
    let expected = Registrar::find_key(&domain_key, &sub_registrar::ID).0;
    assert_eq!(registrar_address("example"), Ok(expected.to_bytes()));
    assert_ne!(registrar_address("example"), get_domain_key("example"));
}

#[test]
fn derivation_is_deterministic() {
    let first = registrar_address("example");
    let second = registrar_address("example");
    assert!(first.is_ok());
    assert_eq!(first, second);
}

#[test]
fn foreign_tag_is_rejected() {
    let mut data = borsh::to_vec(&sample_registrar(Pubkey::new_from_array([1u8; 32]))).unwrap();
    data[0] = 0x02;
    assert_eq!(
        registrar_from_fetch(Ok(data.clone())).unwrap_err(),
        LookupError::UnexpectedRecordTag
    );
    data[0] = 0x00;
    assert_eq!(parse_registrar_account(&data).unwrap_err(), LookupError::UnexpectedRecordTag);
}

#[test]
fn foreign_tag_with_undecodable_body_is_rejected_by_tag() {
    let data = vec![0x02u8, 0xff];
    assert_eq!(
        registrar_from_fetch(Ok(data)).unwrap_err(),
        LookupError::UnexpectedRecordTag
    );
}

#[test]
fn empty_account_is_malformed() {
    assert_eq!(
        registrar_from_fetch(Ok(Vec::new())).unwrap_err(),
        LookupError::MalformedAccount
    );
}

#[test]
fn absence_and_failure_are_distinct() {
    let missing = registrar_from_fetch(Err(FetchError::NotFound)).unwrap_err();
    let unreachable = registrar_from_fetch(Err(FetchError::Unreachable)).unwrap_err();
    assert_eq!(missing, LookupError::AccountNotFound);
    assert_eq!(unreachable, LookupError::AccountUnreachable);
    assert_ne!(missing, unreachable);
}

#[test]
fn tagged_record_round_trips() {
    let rec = sample_registrar(Pubkey::new_from_array([9u8; 32]));
    let data = borsh::to_vec(&rec).unwrap();
    assert_eq!(data[0], Tag::Registrar as u8);
    assert_eq!(registrar_from_fetch(Ok(data)).unwrap(), rec);
}

#[test]
fn trailing_bytes_after_record_are_ignored() {
    let rec = sample_registrar(Pubkey::new_from_array([9u8; 32]));
    let mut data = borsh::to_vec(&rec).unwrap();
    data.extend_from_slice(&[0u8; 16]);
    assert_eq!(parse_registrar_account(&data).unwrap(), rec);
}

#[test]
fn repeated_lookups_agree() {
    let rec = sample_registrar(Pubkey::new_from_array([7u8; 32]));
    let data = borsh::to_vec(&rec).unwrap();
    let first = registrar_from_fetch(Ok(data.clone())).unwrap();
    let second = registrar_from_fetch(Ok(data)).unwrap();
    assert_eq!(first, second);
}

#[test]
fn registrar_tag_gives_authority() {
    assert!(registrar_address("example").is_ok());
    let authority = Pubkey::new_from_array([42u8; 32]);
    let mut data = vec![0x01u8];
    data.extend_from_slice(&borsh::to_vec(&sample_registrar(authority)).unwrap()[1..]);
    let rec = registrar_from_fetch(Ok(data)).unwrap();
    assert_eq!(rec.authority, authority);
    assert_eq!(rec.tag, Tag::Registrar);
}

#[test]
fn other_tag_for_example_is_rejected() {
    assert!(registrar_address("example").is_ok());
    let mut data = vec![0x02u8];
    data.extend_from_slice(&borsh::to_vec(&sample_registrar(Pubkey::default())).unwrap()[1..]);
    assert_eq!(
        registrar_from_fetch(Ok(data)).unwrap_err(),
        LookupError::UnexpectedRecordTag
    );
}

#[test]
fn truncated_record_is_decode_error() {
    let data = borsh::to_vec(&sample_registrar(Pubkey::new_from_array([1u8; 32]))).unwrap();
    assert_eq!(
        parse_registrar_account(&data[..10]).unwrap_err(),
        LookupError::DecodeError
    );
    assert_eq!(parse_registrar_account(&[0x01u8]).unwrap_err(), LookupError::DecodeError);
}

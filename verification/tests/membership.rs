use borsh::BorshSerialize;
use mpl_corenft_staking::error::StakingError;
use mpl_corenft_staking::identity::Identity;
use mpl_corenft_staking::metadata::{
    lists_creator, verify_account, verify_membership, Eligibility, Metadata, METADATA_KEY,
};
use mpl_token_metadata::accounts::Metadata as Record;
use mpl_token_metadata::types::{Collection, Creator, Key, TokenStandard};

fn id(n: u8) -> Identity {
    Identity::new([n; 32])
}

fn ids(list: &[u8]) -> Vec<Identity> {
    list.iter().map(|n| id(*n)).collect()
}

fn record(collection: Option<u8>, creators: Option<&[u8]>) -> Record {
    Record {
        key: Key::MetadataV1,
        update_authority: [61u8; 32].into(),
        mint: [62u8; 32].into(),
        name: String::from("Asset #1"),
        symbol: String::from("AST"),
        uri: String::from("https://example.org/1.json"),
        seller_fee_basis_points: 500,
        creators: creators.map(|list| {
            list.iter().map(|n| Creator { address: [*n; 32].into(), verified: false, share: 0 }).collect()
        }),
        primary_sale_happened: false,
        is_mutable: true,
        edition_nonce: Some(255),
        token_standard: Some(TokenStandard::ProgrammableNonFungible),
        collection: collection.map(|n| Collection { verified: true, key: [n; 32].into() }),
        uses: None,
        collection_details: None,
        programmable_config: None,
    }
}

fn bytes(collection: Option<u8>, creators: Option<&[u8]>) -> Vec<u8> {
    record(collection, creators).try_to_vec().unwrap()
}

#[test]
fn membership_by_collection() {
    let m = Metadata { collection: Some(id(7)), creators: Some(ids(&[8, 9])) };
    assert_eq!(verify_membership(&m, &id(7)), Ok(Eligibility::ByCollection));
}

#[test]
fn membership_by_first_creator() {
    let m = Metadata { collection: Some(id(7)), creators: Some(ids(&[8, 9])) };
    assert_eq!(verify_membership(&m, &id(8)), Ok(Eligibility::ByCreator));
}

#[test]
fn membership_by_last_creator() {
    let m = Metadata { collection: Some(id(7)), creators: Some(ids(&[8, 9, 10])) };
    assert_eq!(verify_membership(&m, &id(10)), Ok(Eligibility::ByCreator));
}

#[test]
fn membership_by_both_names_the_collection() {
    let m = Metadata { collection: Some(id(7)), creators: Some(ids(&[7])) };
    assert_eq!(verify_membership(&m, &id(7)), Ok(Eligibility::ByCollection));
}

#[test]
fn membership_by_neither_is_ineligible() {
    let m = Metadata { collection: Some(id(7)), creators: Some(ids(&[8, 9])) };
    assert_eq!(verify_membership(&m, &id(1)), Err(StakingError::IneligibleCollection));
}

#[test]
fn membership_with_an_empty_creator_list() {
    let m = Metadata { collection: Some(id(7)), creators: Some(Vec::new()) };
    assert_eq!(verify_membership(&m, &id(7)), Ok(Eligibility::ByCollection));
    assert_eq!(verify_membership(&m, &id(8)), Err(StakingError::IneligibleCollection));
}

#[test]
fn membership_without_collection_is_a_parse_error() {
    let m = Metadata { collection: None, creators: Some(ids(&[8])) };
    assert_eq!(verify_membership(&m, &id(8)), Err(StakingError::MetadataParseError));
    assert_eq!(verify_membership(&m, &id(1)), Err(StakingError::MetadataParseError));
}

#[test]
fn membership_without_creators_is_a_parse_error() {
    let m = Metadata { collection: Some(id(7)), creators: None };
    assert_eq!(verify_membership(&m, &id(7)), Err(StakingError::MetadataParseError));
    assert_eq!(verify_membership(&m, &id(1)), Err(StakingError::MetadataParseError));
}

#[test]
fn membership_without_either_is_a_parse_error() {
    let m = Metadata { collection: None, creators: None };
    assert_eq!(verify_membership(&m, &id(7)), Err(StakingError::MetadataParseError));
}

#[test]
fn creator_lookup() {
    assert!(lists_creator(&ids(&[8, 9]), &id(9)));
    assert!(!lists_creator(&ids(&[8, 9]), &id(7)));
    assert!(!lists_creator(&Vec::new(), &id(7)));
}

#[test]
fn record_bytes_give_collection_and_creators() {
    let data = bytes(Some(7), Some(&[8, 9]));
    assert_eq!(
        Metadata::from_account_data(&data),
        Ok(Metadata { collection: Some(id(7)), creators: Some(ids(&[8, 9])) })
    );
}

#[test]
fn record_bytes_keep_the_creators_order() {
    let data = bytes(Some(7), Some(&[9, 8, 9]));
    assert_eq!(
        Metadata::from_account_data(&data),
        Ok(Metadata { collection: Some(id(7)), creators: Some(ids(&[9, 8, 9])) })
    );
}

#[test]
fn record_bytes_in_a_padded_account() {
    let mut data = bytes(Some(7), Some(&[8]));
    data.resize(679, 0);
    assert_eq!(
        Metadata::from_account_data(&data),
        Ok(Metadata { collection: Some(id(7)), creators: Some(ids(&[8])) })
    );
}

#[test]
fn record_bytes_without_optional_fields() {
    assert_eq!(
        Metadata::from_account_data(&bytes(None, Some(&[8]))),
        Ok(Metadata { collection: None, creators: Some(ids(&[8])) })
    );
    assert_eq!(
        Metadata::from_account_data(&bytes(Some(7), None)),
        Ok(Metadata { collection: Some(id(7)), creators: None })
    );
    assert_eq!(
        Metadata::from_account_data(&bytes(None, None)),
        Ok(Metadata { collection: None, creators: None })
    );
}

#[test]
fn empty_account_is_a_parse_error() {
    assert_eq!(Metadata::from_account_data(&[]), Err(StakingError::MetadataParseError));
}

#[test]
fn account_of_another_kind_is_a_parse_error() {
    let mut data = bytes(Some(7), Some(&[8]));
    assert_eq!(data[0], METADATA_KEY);
    data[0] = 6;
    assert_eq!(Metadata::from_account_data(&data), Err(StakingError::MetadataParseError));
    data[0] = 0;
    assert_eq!(Metadata::from_account_data(&data), Err(StakingError::MetadataParseError));
}

#[test]
fn truncated_account_is_a_parse_error() {
    let data = bytes(Some(7), Some(&[8]));
    assert_eq!(Metadata::from_account_data(&data[..40]), Err(StakingError::MetadataParseError));
    assert_eq!(Metadata::from_account_data(&data[..1]), Err(StakingError::MetadataParseError));
}

#[test]
fn account_bytes_decide_membership() {
    let data = bytes(Some(7), Some(&[8, 9]));
    assert_eq!(verify_account(&data, &id(7)), Ok(Eligibility::ByCollection));
    assert_eq!(verify_account(&data, &id(9)), Ok(Eligibility::ByCreator));
    assert_eq!(verify_account(&data, &id(1)), Err(StakingError::IneligibleCollection));
    assert_eq!(verify_account(&bytes(None, Some(&[8])), &id(8)), Err(StakingError::MetadataParseError));
    assert_eq!(verify_account(&bytes(Some(7), None), &id(7)), Err(StakingError::MetadataParseError));
    assert_eq!(verify_account(&[], &id(7)), Err(StakingError::MetadataParseError));
}

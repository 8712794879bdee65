//! The metadata of a programmable asset, and whether it proves that the asset belongs
//! with an expected collection or creator.

use vstd::prelude::*;

use crate::error::StakingError;
use crate::identity::Identity;

verus! {

/// What the service reads of a programmable asset's metadata record.
#[derive(Clone, Debug, PartialEq, Eq)]
pub struct Metadata {
    /// The collection the asset declares, if it declares one.
    pub collection: Option<Identity>,
    /// The addresses of the asset's creators, in the record's order, if it has the list.
    pub creators: Option<Vec<Identity>>,
}

/// A `Metadata` as a mathematical value.
pub struct MetadataView {
    pub collection: Option<Identity>,
    pub creators: Option<Seq<Identity>>,
}

impl View for Metadata {
    type V = MetadataView;

    open spec fn view(&self) -> MetadataView {
        MetadataView {
            collection: self.collection,
            creators: match self.creators {
                Some(list) => Some(list@),
                None => None,
            },
        }
    }
}

/// Which of the two proofs of authenticity an asset gave.
#[derive(Clone, Copy, Debug, PartialEq, Eq, Structural)]
pub enum Eligibility {
    /// The metadata declares the expected collection.
    ByCollection,
    /// The metadata declares another collection, and lists the expected creator.
    ByCreator,
}

/// What the token-metadata decoder makes of an account's bytes: the collection key and
/// the creators' addresses of the record it reads, or `None` where it reads no record.
pub uninterp spec fn decoded_metadata(data: Seq<u8>) -> Option<MetadataView>;

/// The view of a decoder's answer.
pub open spec fn answer_view(answer: Option<Metadata>) -> Option<MetadataView> {
    match answer {
        Some(metadata) => Some(metadata@),
        None => None,
    }
}

/// The first byte of every metadata record.
pub const METADATA_KEY: u8 = 4;

/// Calls `mpl_token_metadata::accounts::Metadata::safe_deserialize` and keeps, of the
/// record it returns, the collection's key and each creator's address.
///
/// Trusted: the answer depends on the bytes alone, and the decoder returns an error on
/// empty data and on data whose first byte is not the metadata key.
#[verifier::external_body]
fn decode_metadata(data: &[u8]) -> (answer: Option<Metadata>)
    ensures
        answer_view(answer) == decoded_metadata(data@),
        data@.len() == 0 || data@[0] != METADATA_KEY ==> answer is None,
{
    match mpl_token_metadata::accounts::Metadata::safe_deserialize(data) {
        Ok(record) => Some(Metadata {
            collection: record.collection.map(|c| Identity { bytes: c.key.to_bytes() }),
            creators: record.creators.map(
                |list| list.iter().map(|c| Identity { bytes: c.address.to_bytes() }).collect(),
            ),
        }),
        Err(_) => None,
    }
}

/// What reading a metadata account's bytes gives.
pub open spec fn parsed(data: Seq<u8>) -> Result<MetadataView, StakingError> {
    match decoded_metadata(data) {
        Some(metadata) => Ok(metadata),
        None => Err(StakingError::MetadataParseError),
    }
}

/// Whether `metadata` proves that its asset belongs with `expected`, taken either as the
/// collection or as a creator. Both fields must be there; the collection is tried first.
pub open spec fn membership(metadata: MetadataView, expected: Identity) -> Result<
    Eligibility,
    StakingError,
> {
    match (metadata.collection, metadata.creators) {
        (Some(collection), Some(creators)) => {
            if collection == expected {
                Ok(Eligibility::ByCollection)
            } else if creators.contains(expected) {
                Ok(Eligibility::ByCreator)
            } else {
                Err(StakingError::IneligibleCollection)
            }
        },
        _ => Err(StakingError::MetadataParseError),
    }
}

/// Whether an account with these bytes proves membership with `expected`.
pub open spec fn membership_of_data(data: Seq<u8>, expected: Identity) -> Result<
    Eligibility,
    StakingError,
> {
    match parsed(data) {
        Ok(metadata) => membership(metadata, expected),
        Err(e) => Err(e),
    }
}

impl Metadata {
    /// Reads the metadata record out of its account's bytes.
    pub fn from_account_data(data: &[u8]) -> (r: Result<Metadata, StakingError>)
        ensures
            match r {
                Ok(metadata) => parsed(data@) == Ok::<MetadataView, StakingError>(metadata@),
                Err(e) => parsed(data@) == Err::<MetadataView, StakingError>(e),
            },
            data@.len() == 0 || data@[0] != METADATA_KEY ==> r == Err::<Metadata, StakingError>(
                StakingError::MetadataParseError,
            ),
    {
        match decode_metadata(data) {
            Some(metadata) => Ok(metadata),
            None => Err(StakingError::MetadataParseError),
        }
    }
}

/// Whether `expected` is among `creators`.
pub fn lists_creator(creators: &Vec<Identity>, expected: &Identity) -> (found: bool)
    ensures
        found == creators@.contains(*expected),
{
    let mut i: usize = 0;
    while i < creators.len()
        invariant
            i <= creators.len(),
            forall|j: int| 0 <= j < i ==> creators@[j] != *expected,
        decreases creators.len() - i,
    {
        if creators[i] == *expected {
            return true;
        }
        i += 1;
    }
    false
}

/// Decides whether an asset with this metadata may be locked for `expected`.
pub fn verify_membership(metadata: &Metadata, expected: &Identity) -> (r: Result<
    Eligibility,
    StakingError,
>)
    ensures
        r == membership(metadata@, *expected),
{
    match &metadata.collection {
        None => Err(StakingError::MetadataParseError),
        Some(collection) => match &metadata.creators {
            None => Err(StakingError::MetadataParseError),
            Some(creators) => {
                if *collection == *expected {
                    Ok(Eligibility::ByCollection)
                } else if lists_creator(creators, expected) {
                    Ok(Eligibility::ByCreator)
                } else {
                    Err(StakingError::IneligibleCollection)
                }
            },
        },
    }
}

/// Reads the metadata out of `data` and decides whether its asset may be locked for
/// `expected`.
pub fn verify_account(data: &[u8], expected: &Identity) -> (r: Result<Eligibility, StakingError>)
    ensures
        r == membership_of_data(data@, *expected),
        data@.len() == 0 || data@[0] != METADATA_KEY ==> r == Err::<Eligibility, StakingError>(
            StakingError::MetadataParseError,
        ),
{
    match Metadata::from_account_data(data) {
        Ok(metadata) => verify_membership(&metadata, expected),
        Err(e) => Err(e),
    }
}

} // verus!

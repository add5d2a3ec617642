use crate::error::LookupError;
use borsh::BorshDeserialize;
use sub_registrar::state::registry::Registrar;
use sub_registrar::state::Tag;
use vstd::prelude::*;

verus! {

#[verifier::external_type_specification]
#[verifier::external_body]
pub struct ExRegistrar(Registrar);

#[verifier::external_type_specification]
#[verifier::external_body]
pub struct ExIoError(std::io::Error);

/// Why the ledger node handed back no account data.
#[derive(PartialEq, Eq, Structural, Debug, Clone, Copy)]
pub enum FetchError {
    /// The address holds no account.
    NotFound,
    /// The node could not be reached, or failed to answer.
    Unreachable,
}

/// The tag byte that opens a registrar record.
pub open spec fn registrar_tag_byte() -> u8 {
    1
}

/// The registrar record that the record decoder reads from the front of the
/// given bytes, or `None` where it rejects them.
pub uninterp spec fn decoded_registrar(data: Seq<u8>) -> Option<Registrar>;

/// What a lookup yields for the stored bytes of an account: an empty account
/// is malformed, one whose first byte is not the registrar tag holds another
/// kind of record, and only a correctly tagged one is handed to the decoder.
pub open spec fn account_outcome(data: Seq<u8>) -> Result<Registrar, LookupError> {
    if data.len() == 0 {
        Err(LookupError::MalformedAccount)
    } else if data[0] != registrar_tag_byte() {
        Err(LookupError::UnexpectedRecordTag)
    } else {
        match decoded_registrar(data) {
            Some(rec) => Ok(rec),
            None => Err(LookupError::DecodeError),
        }
    }
}

/// The bytes of a fetch, or why it failed.
pub open spec fn fetched_view(fetched: Result<Vec<u8>, FetchError>) -> Result<Seq<u8>, FetchError> {
    match fetched {
        Ok(data) => Ok(data@),
        Err(e) => Err(e),
    }
}

/// What a lookup yields for the outcome of fetching the registrar's account.
pub open spec fn lookup_outcome(fetched: Result<Seq<u8>, FetchError>) -> Result<Registrar, LookupError> {
    match fetched {
        Ok(data) => account_outcome(data),
        Err(FetchError::NotFound) => Err(LookupError::AccountNotFound),
        Err(FetchError::Unreachable) => Err(LookupError::AccountUnreachable),
    }
}

/// Relies on sub_registrar::state::Tag: `Registrar` is its second variant, so
/// its byte is 1.
#[verifier::external_body]
fn registrar_tag() -> (r: u8)
    ensures
        r == registrar_tag_byte(),
{
    Tag::Registrar as u8
}

/// Relies on the borsh decoder of sub_registrar's Registrar, reading from the
/// front of the slice: its result depends on the bytes alone.
#[verifier::external_body]
fn decode_registrar(data: &[u8]) -> (r: Result<Registrar, std::io::Error>)
    ensures
        r is Ok <==> decoded_registrar(data@) is Some,
        r matches Ok(rec) ==> decoded_registrar(data@) == Some(rec),
{
    let mut rest = data;
    Registrar::deserialize(&mut rest)
}

/// Reads the registrar record out of the stored bytes of an account. The
/// first byte must be the registrar tag; only then are the bytes, tag
/// included, decoded.
pub fn parse_registrar_account(data: &[u8]) -> (r: Result<Registrar, LookupError>)
    ensures
        r == account_outcome(data@),
{
    if data.len() == 0 {
        return Err(LookupError::MalformedAccount);
    }
    if data[0] != registrar_tag() {
        return Err(LookupError::UnexpectedRecordTag);
    }
    match decode_registrar(data) {
        Ok(rec) => Ok(rec),
        Err(_) => Err(LookupError::DecodeError),
    }
}

/// Finishes a lookup from what fetching the registrar's account gave: a
/// missing account and an unreachable node stay apart, and stored bytes are
/// checked and decoded as `parse_registrar_account` does.
pub fn registrar_from_fetch(fetched: Result<Vec<u8>, FetchError>) -> (r: Result<Registrar, LookupError>)
    ensures
        r == lookup_outcome(fetched_view(fetched)),
{
    match fetched {
        Ok(data) => parse_registrar_account(data.as_slice()),
        Err(FetchError::NotFound) => Err(LookupError::AccountNotFound),
        Err(FetchError::Unreachable) => Err(LookupError::AccountUnreachable),
    }
}

/// Stored bytes whose first byte is not the registrar tag are rejected as a
/// record of another kind, whatever follows, without being decoded.
pub proof fn lemma_foreign_tag_rejected(data: Seq<u8>)
    requires
        data.len() > 0,
        data[0] != registrar_tag_byte(),
    ensures
        lookup_outcome(Ok(data)) == Err::<Registrar, LookupError>(LookupError::UnexpectedRecordTag),
{
}

/// An empty account is reported as malformed.
pub proof fn lemma_empty_account_malformed()
    ensures
        lookup_outcome(Ok(Seq::empty())) == Err::<Registrar, LookupError>(LookupError::MalformedAccount),
{
}

/// A missing account and an unreachable node give two distinct errors.
pub proof fn lemma_absence_distinct_from_failure()
    ensures
        lookup_outcome(Err(FetchError::NotFound)) == Err::<Registrar, LookupError>(LookupError::AccountNotFound),
        lookup_outcome(Err(FetchError::Unreachable)) == Err::<Registrar, LookupError>(LookupError::AccountUnreachable),
        lookup_outcome(Err(FetchError::NotFound)) != lookup_outcome(Err(FetchError::Unreachable)),
{
}

/// Bytes that open with the registrar tag and that the decoder reads as a
/// record yield exactly that record.
pub proof fn lemma_tagged_record_decodes(data: Seq<u8>, rec: Registrar)
    requires
        data.len() > 0,
        data[0] == registrar_tag_byte(),
        decoded_registrar(data) == Some(rec),
    ensures
        lookup_outcome(Ok(data)) == Ok::<Registrar, LookupError>(rec),
{
}

/// Two lookups of an unchanged account give equal results; in particular two
/// successful ones give equal records.
pub proof fn lemma_lookup_idempotent(first: Result<Seq<u8>, FetchError>, second: Result<Seq<u8>, FetchError>)
    requires
        first == second,
    ensures
        lookup_outcome(first) == lookup_outcome(second),
        lookup_outcome(first) is Ok ==> lookup_outcome(second) == lookup_outcome(first),
{
}

} // verus!

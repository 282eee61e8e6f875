//! The Candid wire form of a record, produced and read by the `candid` crate.
//!
//! A record travels as a Candid message of nine arguments of primitive type:
//! `nat64`, `text`, `text`, `nat64`, `nat64`, `nat64`, `bool`, `nat64`,
//! `text`. They are the fields of [`crate::campaign::Campaign`] in their
//! order, with the time of the last update as a flag and a number: an `opt`
//! would be read leniently by the decoder, which turns an option that it
//! cannot read into an absent one.

use vstd::prelude::*;

verus! {

/// The nine values of a message, texts as sequences of characters.
pub type Fields = (u64, Seq<char>, Seq<char>, u64, u64, u64, bool, u64, Seq<char>);

/// The nine values of a message as the decoder hands them out.
pub type OwnedFields = (u64, String, String, u64, u64, u64, bool, u64, String);

/// The bytes that `candid::encode_args` returns for the nine values.
pub uninterp spec fn candid_encoding(
    id: u64,
    title: Seq<char>,
    description: Seq<char>,
    goal_amount: u64,
    raised_amount: u64,
    created_at: u64,
    updated: bool,
    updated_at: u64,
    creator: Seq<char>,
) -> Seq<u8>;

/// The nine values that `candid::decode_args` reads from `bytes`, where
/// `bytes` is a message that `candid::encode_args` wrote for nine values of
/// these types. Of other bytes the name says nothing.
pub uninterp spec fn candid_decoding(bytes: Seq<u8>) -> Option<Fields>;

/// The message that `candid::encode_args` writes for `fields`.
pub open spec fn message_of(fields: Fields) -> Seq<u8> {
    candid_encoding(
        fields.0,
        fields.1,
        fields.2,
        fields.3,
        fields.4,
        fields.5,
        fields.6,
        fields.7,
        fields.8,
    )
}

/// The values that the decoder handed out, texts as sequences of characters.
pub open spec fn fields_of(read: OwnedFields) -> Fields {
    (read.0, read.1@, read.2@, read.3, read.4, read.5, read.6, read.7, read.8@)
}

/// Calls `candid::encode_args` on the nine values.
///
/// Trusted: the result is the Candid message of these arguments, and
/// `candid::decode_args` reads the same nine values back from it, as the
/// documentation of both functions shows on examples. Writing numbers, flags
/// and texts into a vector has no failing branch in the encoder, so the
/// `Result` it returns is always `Ok`.
#[verifier::external_body]
pub(crate) fn candid_encode(
    id: u64,
    title: &String,
    description: &String,
    goal_amount: u64,
    raised_amount: u64,
    created_at: u64,
    updated: bool,
    updated_at: u64,
    creator: &String,
) -> (bytes: Vec<u8>)
    ensures
        bytes@ == candid_encoding(
            id,
            title@,
            description@,
            goal_amount,
            raised_amount,
            created_at,
            updated,
            updated_at,
            creator@,
        ),
        candid_decoding(bytes@) == Some(
            (
                id,
                title@,
                description@,
                goal_amount,
                raised_amount,
                created_at,
                updated,
                updated_at,
                creator@,
            ),
        ),
{
    candid::encode_args(
        (
            id,
            title,
            description,
            goal_amount,
            raised_amount,
            created_at,
            updated,
            updated_at,
            creator,
        ),
    ).unwrap()
}

/// Calls `candid::decode_args` for the nine types; an error of the decoder
/// becomes `None`.
///
/// Trusted: from a message that `candid::encode_args` wrote for nine values
/// of these types, the decoder reads those values. Nothing is stated of what
/// it makes of other bytes.
#[verifier::external_body]
pub(crate) fn candid_decode(bytes: &Vec<u8>) -> (decoded: Option<OwnedFields>)
    ensures
        (match candid_decoding(bytes@) {
            Some(fields) => bytes@ == message_of(fields) ==> {
                &&& decoded is Some
                &&& fields_of(decoded.unwrap()) == fields
            },
            None => true,
        }),
{
    candid::decode_args(bytes.as_slice()).ok()
}

} // verus!

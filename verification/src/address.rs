//! Wallet addresses: 32 bytes, written in base58.
//!
//! The base58 codec itself is `solana_sdk`'s. This module gives its two
//! directions a name each and states everything else over those names.

use solana_sdk::pubkey::{ParsePubkeyError, Pubkey};
use std::str::FromStr;
use vstd::prelude::*;

verus! {

/// Why a string is not an address: the two variants of `ParsePubkeyError`.
#[derive(Clone, Copy, Debug, PartialEq, Eq, Structural)]
pub enum AddressFault {
    /// The string is too long for an address, or is not the base58 form of
    /// exactly 32 bytes.
    WrongSize,
    /// The string holds a character that is no base58 digit.
    Invalid,
}

/// What `Pubkey::from_str` makes of `text`: the 32 bytes of the key, or the
/// reason for which it rejects the string.
pub uninterp spec fn pubkey_from_str(text: Seq<char>) -> Result<Seq<u8>, AddressFault>;

/// The string that `Pubkey`'s `Display` writes for the key made of `bytes`.
pub uninterp spec fn pubkey_to_string(bytes: Seq<u8>) -> Seq<char>;

/// `text` is accepted as the address made of `bytes`.
pub open spec fn decodes_to(text: Seq<char>, bytes: Seq<u8>) -> bool {
    pubkey_from_str(text) matches Ok(key) && key == bytes
}

/// `text` is refused as an address, for the reason `fault`.
pub open spec fn refused_for(text: Seq<char>, fault: AddressFault) -> bool {
    pubkey_from_str(text) matches Err(reason) && reason == fault
}

/// `text` is accepted as an address.
pub open spec fn well_formed(text: Seq<char>) -> bool {
    pubkey_from_str(text) is Ok
}

/// Calls `Pubkey::from_str` and hands back the key's bytes, or the variant of
/// `ParsePubkeyError` that came back. Trusted: the outcome is the one named
/// by [`pubkey_from_str`], a function of the characters alone.
#[verifier::external_body]
fn decode_pubkey(text: &str) -> (outcome: Result<[u8; 32], AddressFault>)
    ensures
        match outcome {
            Ok(bytes) => pubkey_from_str(text@) matches Ok(key) && key == bytes@,
            Err(fault) => pubkey_from_str(text@) matches Err(reason) && reason == fault,
        },
{
    match Pubkey::from_str(text) {
        Ok(key) => Ok(key.to_bytes()),
        Err(ParsePubkeyError::WrongSize) => Err(AddressFault::WrongSize),
        Err(ParsePubkeyError::Invalid) => Err(AddressFault::Invalid),
    }
}

/// Builds the `Pubkey` of `bytes` and calls its `to_string`. Trusted: the
/// string is the one named by [`pubkey_to_string`], a function of the bytes
/// alone.
#[verifier::external_body]
fn encode_pubkey(bytes: &[u8; 32]) -> (text: String)
    ensures
        text@ == pubkey_to_string(bytes@),
{
    Pubkey::new_from_array(*bytes).to_string()
}

/// A validated wallet address.
///
/// The only way to an `Address` is [`Address::parse`], so each one in use is
/// the key of some string that passed validation.
#[derive(Clone, Copy, Debug, PartialEq, Eq)]
pub struct Address {
    bytes: [u8; 32],
}

impl View for Address {
    type V = Seq<u8>;

    closed spec fn view(&self) -> Seq<u8> {
        self.bytes@
    }
}

impl Address {
    /// Some string passed validation with these bytes.
    #[verifier::type_invariant]
    spec fn validated(self) -> bool {
        exists|text: Seq<char>| #[trigger] decodes_to(text, self@)
    }

    /// Validates `text`. Succeeds exactly on the strings that
    /// `Pubkey::from_str` accepts, with the bytes it gives.
    pub fn parse(text: &str) -> (outcome: Result<Address, AddressFault>)
        ensures
            match outcome {
                Ok(address) => decodes_to(text@, address@),
                Err(fault) => refused_for(text@, fault),
            },
    {
        match decode_pubkey(text) {
            Ok(bytes) => {
                assert(decodes_to(text@, (Address { bytes })@));
                Ok(Address { bytes })
            },
            Err(fault) => Err(fault),
        }
    }

    /// The 32 bytes of the address.
    pub fn to_bytes(&self) -> (bytes: [u8; 32])
        ensures
            bytes@ == self@,
    {
        self.bytes
    }

    /// The address as it is displayed: its bytes in base58.
    pub fn to_string(&self) -> (text: String)
        ensures
            text@ == pubkey_to_string(self@),
    {
        encode_pubkey(&self.bytes)
    }
}

} // verus!

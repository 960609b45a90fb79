//! Validation of the configured address strings.

use crate::address::{decodes_to, refused_for, well_formed, Address, AddressFault};
use crate::error::InvalidAddress;
use vstd::prelude::*;

verus! {

/// Every string of `wallets` is accepted as an address.
pub open spec fn all_well_formed(wallets: Seq<String>) -> bool {
    forall|i: int| 0 <= i < wallets.len() ==> well_formed(#[trigger] wallets[i]@)
}

/// `addresses` holds, position by position, the address that each string of
/// `wallets` stands for.
pub open spec fn validated(wallets: Seq<String>, addresses: Seq<Address>) -> bool {
    &&& addresses.len() == wallets.len()
    &&& forall|i: int|
        #![trigger wallets[i]]
        #![trigger addresses[i]]
        0 <= i < wallets.len() ==> decodes_to(wallets[i]@, addresses[i]@)
}

/// The string at `position` is the first of `wallets` that is refused.
pub open spec fn first_invalid_at(wallets: Seq<String>, position: int) -> bool {
    &&& 0 <= position < wallets.len()
    &&& !well_formed(wallets[position]@)
    &&& forall|i: int| 0 <= i < position ==> well_formed(#[trigger] wallets[i]@)
}

/// `error` reports the first string of `wallets` that is refused: where it
/// stands, what it is, and why it is refused.
pub open spec fn reports_first_invalid(wallets: Seq<String>, error: InvalidAddress) -> bool {
    &&& first_invalid_at(wallets, error.position as int)
    &&& error.text@ == wallets[error.position as int]@
    &&& refused_for(wallets[error.position as int]@, error.fault)
}

/// What validation makes of the string `text` that stands at `position`,
/// given what parsing it came to: the address, or the error that names the
/// string, its place and the reason.
pub fn judge(position: usize, text: &str, parsed: Result<Address, AddressFault>) -> (verdict:
    Result<Address, InvalidAddress>)
    ensures
        match parsed {
            Ok(address) => verdict matches Ok(accepted) && accepted == address,
            Err(fault) => verdict matches Err(error) && error.position == position && error.text@
                == text@ && error.fault == fault,
        },
{
    match parsed {
        Ok(address) => Ok(address),
        Err(fault) => Err(InvalidAddress { position, text: text.to_owned(), fault }),
    }
}

/// Turns the configured strings into addresses, one for one and in order.
///
/// Fails as soon as one string is refused: the error names that string, and
/// the strings after it are not looked at. So the outcome is a list of
/// addresses exactly when every string is well formed, and an error as soon
/// as one is malformed, wherever in the list it stands.
pub fn get_wallets_from_strings(wallets: &Vec<String>) -> (outcome: Result<
    Vec<Address>,
    InvalidAddress,
>)
    ensures
        match outcome {
            Ok(addresses) => validated(wallets@, addresses@),
            Err(error) => reports_first_invalid(wallets@, error),
        },
        outcome is Ok <==> all_well_formed(wallets@),
        outcome is Err <==> exists|i: int|
            0 <= i < wallets.len() && !well_formed(#[trigger] wallets@[i]@),
{
    let mut validated_wallets: Vec<Address> = Vec::new();
    let mut i: usize = 0;
    while i < wallets.len()
        invariant
            0 <= i <= wallets.len(),
            validated(wallets@.take(i as int), validated_wallets@),
        decreases wallets.len() - i,
    {
        let wallet_string: &str = wallets[i].as_str();
        match judge(i, wallet_string, Address::parse(wallet_string)) {
            Ok(address) => {
                validated_wallets.push(address);
            },
            Err(error) => {
                assert forall|j: int| 0 <= j < i implies well_formed(#[trigger] wallets@[j]@) by {
                    assert(wallets@.take(i as int)[j] == wallets@[j]);
                }
                return Err(error);
            },
        }
        i += 1;
    }
    assert(wallets@.take(i as int) == wallets@);
    Ok(validated_wallets)
}

} // verus!

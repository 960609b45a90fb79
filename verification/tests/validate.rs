use wallet_balances::address::{Address, AddressFault};
use wallet_balances::error::InvalidAddress;
use wallet_balances::validate::{get_wallets_from_strings, judge};

const FIRST: &str = "2gPihUTjt3FJqf1VpidgrY5cZ6PuyMccGVwQHRfjMPZG";
const SECOND: &str = "Stake11111111111111111111111111111111111111";
const THIRD: &str = "11111111111111111111111111111111";

fn strings(texts: &[&str]) -> Vec<String> {
    texts.iter().map(|text| text.to_string()).collect()
}

#[test]
fn valid_strings_become_addresses_in_order() {
    let wallets = strings(&[FIRST, SECOND, THIRD]);
    let addresses = get_wallets_from_strings(&wallets).unwrap();
    assert_eq!(addresses.len(), 3);
    assert_eq!(addresses[0], Address::parse(FIRST).unwrap());
    assert_eq!(addresses[1], Address::parse(SECOND).unwrap());
    assert_eq!(addresses[2], Address::parse(THIRD).unwrap());
    assert_eq!(addresses[0].to_string(), FIRST);
    assert_eq!(addresses[1].to_string(), SECOND);
    assert_eq!(addresses[2].to_string(), THIRD);
}

#[test]
fn a_repeated_string_is_kept_twice() {
    let wallets = strings(&[SECOND, FIRST, SECOND]);
    let addresses = get_wallets_from_strings(&wallets).unwrap();
    assert_eq!(addresses.len(), 3);
    assert_eq!(addresses[0], addresses[2]);
    assert_eq!(addresses[1].to_string(), FIRST);
}

#[test]
fn an_empty_list_validates_to_an_empty_list() {
    let wallets: Vec<String> = Vec::new();
    assert_eq!(get_wallets_from_strings(&wallets), Ok(Vec::new()));
}

#[test]
fn a_malformed_string_in_first_place_fails() {
    let wallets = strings(&["not-an-address", FIRST, SECOND]);
    assert_eq!(
        get_wallets_from_strings(&wallets),
        Err(InvalidAddress {
            position: 0,
            text: "not-an-address".to_string(),
            fault: AddressFault::Invalid,
        })
    );
}

#[test]
fn a_malformed_string_in_the_middle_fails() {
    let wallets = strings(&[FIRST, "abc", SECOND]);
    assert_eq!(
        get_wallets_from_strings(&wallets),
        Err(InvalidAddress {
            position: 1,
            text: "abc".to_string(),
            fault: AddressFault::WrongSize,
        })
    );
}

#[test]
fn a_malformed_string_in_last_place_fails() {
    let wallets = strings(&[FIRST, SECOND, THIRD, ""]);
    assert_eq!(
        get_wallets_from_strings(&wallets),
        Err(InvalidAddress {
            position: 3,
            text: String::new(),
            fault: AddressFault::WrongSize,
        })
    );
}

#[test]
fn only_the_first_malformed_string_is_reported() {
    let wallets = strings(&[FIRST, "l0O", "abc", SECOND, "also bad"]);
    let error = get_wallets_from_strings(&wallets).unwrap_err();
    assert_eq!(error.position, 1);
    assert_eq!(error.text, "l0O");
    assert_eq!(error.fault, AddressFault::Invalid);
}

#[test]
fn a_single_malformed_string_fails() {
    let wallets = strings(&["2gPihUTjt3FJqf1VpidgrY5cZ6PuyMccGVwQHRfjMPZGx"]);
    let error = get_wallets_from_strings(&wallets).unwrap_err();
    assert_eq!(error.position, 0);
    assert_eq!(error.text, wallets[0]);
    assert_eq!(error.fault, AddressFault::WrongSize);
}

#[test]
fn a_parsed_string_is_judged_by_its_address() {
    let address = Address::parse(FIRST).unwrap();
    assert_eq!(judge(0, FIRST, Ok(address)), Ok(address));
    assert_eq!(judge(17, FIRST, Address::parse(FIRST)), Ok(address));
}

#[test]
fn a_refused_string_is_judged_with_its_place_and_reason() {
    assert_eq!(
        judge(5, "abc", Err(AddressFault::WrongSize)),
        Err(InvalidAddress { position: 5, text: "abc".to_string(), fault: AddressFault::WrongSize })
    );
    assert_eq!(
        judge(0, "l0O", Address::parse("l0O")),
        Err(InvalidAddress { position: 0, text: "l0O".to_string(), fault: AddressFault::Invalid })
    );
}

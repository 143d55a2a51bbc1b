use std::str::FromStr;

use aleo_prover::account::{check_signature, parse_address, parse_private_key, Account, AccountError, MAX_MESSAGE_BYTES};
use snarkvm::prelude::{Address, Signature, Testnet3};

const PRIVATE_KEY: &str = "APrivateKey1zkp8cC4jgHEBnbtu3xxs1Ndja2EMizcvTRDq5Nikdkukg1p";
const VIEW_KEY: &str = "AViewKey1n1n3ZbnVEtXVe3La2xWkUvY3EY7XaCG6RZJJ3tbvrrrD";
const ADDRESS: &str = "aleo1wvgwnqvy46qq0zemj0k6sfp3zv0mp77rw97khvwuhac05yuwscxqmfyhwf";

#[test]
fn account_of_private_key() {
    let account = match Account::from_private_key(PRIVATE_KEY) {
        Ok(account) => account,
        Err(error) => panic!("{:?}", error),
    };
    assert_eq!(account.private_key, PRIVATE_KEY);
    assert_eq!(account.view_key, VIEW_KEY);
    assert_eq!(account.address, ADDRESS);
}

#[test]
fn no_account_without_private_key() {
    for text in ["", "APrivateKey1abcdefghijklmnopqrstuvwxyz", VIEW_KEY, ADDRESS] {
        assert!(matches!(Account::from_private_key(text), Err(AccountError::PrivateKey)));
    }
}

#[test]
fn private_keys() {
    assert_eq!(parse_private_key(PRIVATE_KEY).as_deref(), Some(PRIVATE_KEY));
    assert_eq!(parse_private_key(VIEW_KEY), None);
    assert_eq!(parse_private_key(""), None);
}

#[test]
fn no_signature_without_private_key() {
    let account = Account {
        private_key: "nonsense".to_string(),
        view_key: VIEW_KEY.to_string(),
        address: ADDRESS.to_string(),
    };
    assert_eq!(account.sign_bytes(&vec![1]), None);
}

#[test]
fn longest_message() {
    let account = match Account::from_private_key(PRIVATE_KEY) {
        Ok(account) => account,
        Err(error) => panic!("{:?}", error),
    };
    let mut message = vec![7; MAX_MESSAGE_BYTES];
    let text = account.sign_bytes(&message).unwrap();
    let signature = Signature::<Testnet3>::from_str(&text).unwrap();
    assert!(signature.verify_bytes(&Address::<Testnet3>::from_str(ADDRESS).unwrap(), &message));
    message.push(7);
    assert_eq!(account.sign_bytes(&message), None);
    assert!(account.sign_bytes(&vec![]).is_some());
}

#[test]
fn addresses() {
    assert_eq!(parse_address(ADDRESS).as_deref(), Some(ADDRESS));
    assert_eq!(parse_address(""), None);
    assert_eq!(parse_address(PRIVATE_KEY), None);
    assert_eq!(parse_address("aleo1abcdefghijklmnopqrstuvwxyz"), None);
    assert_eq!(parse_address(&ADDRESS.replace("wvg", "wwg")), None);
}

#[test]
fn address_is_read_in_upper_case() {
    let upper = ADDRESS.to_uppercase();
    assert_eq!(
        parse_address(&upper),
        Address::<Testnet3>::from_str(&upper).ok().map(|address| address.to_string())
    );
}

#[test]
fn new_accounts() {
    let a = Account::generate().unwrap();
    let b = Account::generate().unwrap();
    assert_ne!(a.private_key, b.private_key);
    assert!(a.private_key.starts_with("APrivateKey1"));
    assert!(a.view_key.starts_with("AViewKey1"));
    assert_eq!(parse_address(&a.address).as_deref(), Some(a.address.as_str()));
}

#[test]
fn key_determines_account() {
    let new = Account::generate().unwrap();
    let again = match Account::from_private_key(&new.private_key) {
        Ok(account) => account,
        Err(error) => panic!("{:?}", error),
    };
    assert_eq!(again.private_key, new.private_key);
    assert_eq!(again.view_key, new.view_key);
    assert_eq!(again.address, new.address);
}

#[test]
fn signatures_verify() {
    let account = Account::generate().unwrap();
    let message = vec![1, 2, 3, 4];
    let text = account.sign_bytes(&message).unwrap();
    let signature = Signature::<Testnet3>::from_str(&text).unwrap();
    let address = Address::<Testnet3>::from_str(&account.address).unwrap();
    assert!(signature.verify_bytes(&address, &message));
    assert!(!signature.verify_bytes(&address, &[1, 2, 3, 5]));
}

#[test]
fn signatures_are_checked() {
    let account = Account::generate().unwrap();
    let message = vec![1, 2, 3, 4];
    let signature = account.sign_bytes(&message).unwrap();
    assert!(check_signature(&account.address, &message, &signature));
    assert!(!check_signature(&account.address, &vec![1, 2, 3], &signature));
    assert!(!check_signature(ADDRESS, &message, &signature));
    assert!(!check_signature("aleo1", &message, &signature));
    assert!(!check_signature(&account.address, &message, "sign1"));
}

#[test]
fn announcement_of_an_account() {
    let account = match Account::from_private_key(PRIVATE_KEY) {
        Ok(account) => account,
        Err(error) => panic!("{:?}", error),
    };
    assert_eq!(
        account.announcement(),
        vec![
            "".to_string(),
            format!("Private key: {}", PRIVATE_KEY),
            format!("   View key: {}", VIEW_KEY),
            format!("    Address: {}", ADDRESS),
            "".to_string(),
            "WARNING: Make sure you have a backup of both private key and view key!".to_string(),
            "         Nobody can help you recover those keys if you lose them!".to_string(),
            "".to_string(),
        ]
    );
}

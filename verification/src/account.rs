//! Prover accounts: a private key, the view key that it gives and the address that this gives.
//! All three are kept in the text form that the network uses.

use vstd::prelude::*;
use vstd::string::*;

use snarkvm::prelude::{Address, PrivateKey, Signature, Testnet3, ViewKey};

verus! {

/// The number of bytes in the longest message that an account can sign.
pub const MAX_MESSAGE_BYTES: usize = 131071;

/// The text of the private key that `PrivateKey::from_str` reads from `text`, if any.
pub uninterp spec fn parsed_private_key(text: Seq<char>) -> Option<Seq<char>>;

/// The text of the address that `Address::from_str` reads from `text`, if any.
pub uninterp spec fn parsed_address(text: Seq<char>) -> Option<Seq<char>>;

/// The text of the view key that `ViewKey::try_from` derives from the private key in
/// `private_key`, if any.
pub uninterp spec fn derived_view_key(private_key: Seq<char>) -> Option<Seq<char>>;

/// The text of the address that `Address::try_from` derives from the view key in `view_key`,
/// if any.
pub uninterp spec fn derived_address(view_key: Seq<char>) -> Option<Seq<char>>;

/// Whether `Signature::verify_bytes` accepts the signature in `signature` for `message` under
/// the address in `address`.
pub uninterp spec fn signature_verifies(
    address: Seq<char>,
    message: Seq<u8>,
    signature: Seq<char>,
) -> bool;

/// The characters of a text that may be missing.
pub open spec fn text_of(text: Option<String>) -> Option<Seq<char>> {
    match text {
        Some(text) => Some(text@),
        None => None,
    }
}

/// `PrivateKey::from_str`, then `to_string` on the key: a function of the text alone. The text
/// of a key is read back as that same key.
#[verifier::external_body]
fn read_private_key(text: &str) -> (key: Option<String>)
    ensures
        text_of(key) == parsed_private_key(text@),
        key matches Some(key) ==> parsed_private_key(key@) == Some(key@),
{
    Some(text.parse::<PrivateKey<Testnet3>>().ok()?.to_string())
}

/// `Address::from_str`, then `to_string` on the address: a function of the text alone. The text
/// of an address is read back as that same address.
#[verifier::external_body]
fn read_address(text: &str) -> (address: Option<String>)
    ensures
        text_of(address) == parsed_address(text@),
        address matches Some(address) ==> parsed_address(address@) == Some(address@),
{
    Some(text.parse::<Address<Testnet3>>().ok()?.to_string())
}

/// `ViewKey::try_from` on the private key in `private_key`: a function of that text alone. Every
/// private key gives a view key, whose text is read back by `Address::try_from` and gives an
/// address.
#[verifier::external_body]
fn derive_view_key(private_key: &str) -> (key: Option<String>)
    ensures
        text_of(key) == derived_view_key(private_key@),
        key is Some <==> parsed_private_key(private_key@) is Some,
        key matches Some(key) ==> derived_address(key@) is Some,
{
    let private_key = private_key.parse::<PrivateKey<Testnet3>>().ok()?;
    Some(ViewKey::try_from(&private_key).ok()?.to_string())
}

/// `Address::try_from` on the view key in `view_key`: a function of that text alone. The text
/// of an address is read back as that same address.
#[verifier::external_body]
fn derive_address(view_key: &str) -> (address: Option<String>)
    ensures
        text_of(address) == derived_address(view_key@),
        address matches Some(address) ==> parsed_address(address@) == Some(address@),
{
    let view_key = view_key.parse::<ViewKey<Testnet3>>().ok()?;
    Some(Address::try_from(&view_key).ok()?.to_string())
}

/// `PrivateKey::new` on the thread's random numbers: every seed makes a key, and whichever comes,
/// its text is read back as that same key.
#[verifier::external_body]
fn sample_private_key() -> (key: Option<String>)
    ensures
        key is Some,
        key matches Some(key) ==> parsed_private_key(key@) == Some(key@),
{
    Some(PrivateKey::<Testnet3>::new(&mut rand::thread_rng()).ok()?.to_string())
}

/// `Signature::sign_bytes` on the system's random numbers, for the private key in `private_key`:
/// whichever signature comes, it verifies for the message under the address that the private key
/// gives. There is one exactly for a private key and a message whose bits fill no more field
/// elements than the network allows: 4161 elements of 252 bits, which hold
/// [`MAX_MESSAGE_BYTES`] bytes.
#[verifier::external_body]
fn sign_bytes(private_key: &str, message: &[u8]) -> (signature: Option<String>)
    ensures
        signature is Some <==> (parsed_private_key(private_key@) is Some && message@.len()
            <= MAX_MESSAGE_BYTES),
        signature matches Some(signature) ==> forall|view_key: Seq<char>, address: Seq<char>|
            derived_view_key(private_key@) == Some(view_key) && #[trigger] derived_address(view_key)
                == Some(address) ==> #[trigger] signature_verifies(
                address,
                message@,
                signature@,
            ),
{
    let private_key = private_key.parse::<PrivateKey<Testnet3>>().ok()?;
    Some(Signature::sign_bytes(&private_key, message, &mut rand::rngs::OsRng).ok()?.to_string())
}

/// `Signature::verify_bytes` for the address in `address` and the signature in `signature`: a
/// function of the three arguments alone. Where one of the texts cannot be read nothing verifies.
#[verifier::external_body]
fn verify_signature(address: &str, message: &[u8], signature: &str) -> (verifies: bool)
    ensures
        verifies == signature_verifies(address@, message@, signature@),
{
    match (address.parse::<Address<Testnet3>>(), signature.parse::<Signature<Testnet3>>()) {
        (Ok(address), Ok(signature)) => signature.verify_bytes(&address, message),
        _ => false,
    }
}

/// An account of the network.
pub struct Account {
    pub private_key: String,
    pub view_key: String,
    pub address: String,
}

/// Why there is no account for a text.
#[derive(Clone, Copy, Debug, PartialEq, Eq, Structural)]
pub enum AccountError {
    /// The text is not a private key.
    PrivateKey,
    /// The private key gives no view key, or the view key no address. That never happens.
    Derivation,
}

/// The address that the private key in `private_key` gives, if any.
pub open spec fn address_of_key(private_key: Seq<char>) -> Option<Seq<char>> {
    match derived_view_key(private_key) {
        Some(view_key) => derived_address(view_key),
        None => None,
    }
}

/// The text of the private key in `text`, if there is one.
pub fn parse_private_key(text: &str) -> (key: Option<String>)
    ensures
        text_of(key) == parsed_private_key(text@),
        key matches Some(key) ==> parsed_private_key(key@) == Some(key@),
{
    read_private_key(text)
}

/// The text of the address in `text`, if there is one.
pub fn parse_address(text: &str) -> (address: Option<String>)
    ensures
        text_of(address) == parsed_address(text@),
        address matches Some(address) ==> parsed_address(address@) == Some(address@),
{
    read_address(text)
}

/// Whether `signature` is one of `message` by the account with this address.
pub fn check_signature(address: &str, message: &Vec<u8>, signature: &str) -> (verifies: bool)
    ensures
        verifies == signature_verifies(address@, message@, signature@),
{
    verify_signature(address, message.as_slice(), signature)
}

impl Account {
    /// Whether the view key and the address are those of the private key.
    pub open spec fn wf(self) -> bool {
        &&& parsed_private_key(self.private_key@) == Some(self.private_key@)
        &&& derived_view_key(self.private_key@) == Some(self.view_key@)
        &&& derived_address(self.view_key@) == Some(self.address@)
    }

    /// The account of the private key in `text`.
    pub fn from_private_key(text: &str) -> (account: Result<Account, AccountError>)
        ensures
            account is Ok <==> parsed_private_key(text@) is Some,
            account == Err::<Account, AccountError>(AccountError::PrivateKey)
                <==> parsed_private_key(text@) is None,
            account == Err::<Account, AccountError>(AccountError::Derivation)
                <==> parsed_private_key(text@) is Some && address_of_key(
                parsed_private_key(text@)->0,
            ) is None,
            account matches Ok(account) ==> account.wf() && Some(account.private_key@)
                == parsed_private_key(text@),
            account matches Ok(account) ==> derived_view_key(account.private_key@) == Some(
                account.view_key@,
            ) && derived_address(account.view_key@) == Some(account.address@),
    {
        match parse_private_key(text) {
            None => Err(AccountError::PrivateKey),
            Some(private_key) => match Account::derive(private_key) {
                None => Err(AccountError::Derivation),
                Some(account) => Ok(account),
            },
        }
    }

    /// The account of a private key.
    fn derive(private_key: String) -> (account: Option<Account>)
        requires
            parsed_private_key(private_key@) == Some(private_key@),
        ensures
            account is Some,
            account matches Some(account) ==> account.wf() && account.private_key == private_key
                && parsed_address(account.address@) == Some(account.address@),
    {
        let view_key: String = match derive_view_key(private_key.as_str()) {
            None => return None,
            Some(view_key) => view_key,
        };
        let address: String = match derive_address(view_key.as_str()) {
            None => return None,
            Some(address) => address,
        };
        Some(Account { private_key, view_key, address })
    }

    /// A new account, chosen at random. There always is one, and its address is one that can be
    /// proved for.
    pub fn generate() -> (account: Option<Account>)
        ensures
            account is Some,
            account matches Some(account) ==> account.wf() && parsed_address(account.address@)
                == Some(account.address@),
            account matches Some(account) ==> parsed_private_key(account.private_key@) == Some(
                account.private_key@,
            ) && derived_view_key(account.private_key@) == Some(account.view_key@)
                && derived_address(account.view_key@) == Some(account.address@),
    {
        match sample_private_key() {
            None => None,
            Some(private_key) => Account::derive(private_key),
        }
    }

    /// A signature of the account for `message`. There is one unless the account has no private key
    /// or the message is too long.
    pub fn sign_bytes(&self, message: &Vec<u8>) -> (signature: Option<String>)
        ensures
            signature is Some <==> parsed_private_key(self.private_key@) is Some && message@.len()
                <= MAX_MESSAGE_BYTES,
            self.wf() ==> (signature matches Some(signature) ==> signature_verifies(
                self.address@,
                message@,
                signature@,
            )),
            derived_view_key(self.private_key@) == Some(self.view_key@) && derived_address(
                self.view_key@,
            ) == Some(self.address@) ==> (signature matches Some(signature) ==> signature_verifies(
                self.address@,
                message@,
                signature@,
            )),
    {
        sign_bytes(self.private_key.as_str(), message.as_slice())
    }

    /// What a user is shown of a new account, line by line.
    pub fn announcement(&self) -> (lines: Vec<String>)
        ensures
            lines@.len() == 8,
            lines@[0]@ == ""@,
            lines@[1]@ == "Private key: "@ + self.private_key@,
            lines@[2]@ == "   View key: "@ + self.view_key@,
            lines@[3]@ == "    Address: "@ + self.address@,
            lines@[4]@ == ""@,
            lines@[5]@
                == "WARNING: Make sure you have a backup of both private key and view key!"@,
            lines@[6]@
                == "         Nobody can help you recover those keys if you lose them!"@,
            lines@[7]@ == ""@,
    {
        let mut private_key: String = "Private key: ".to_string();
        private_key.append(self.private_key.as_str());
        let mut view_key: String = "   View key: ".to_string();
        view_key.append(self.view_key.as_str());
        let mut address: String = "    Address: ".to_string();
        address.append(self.address.as_str());
        let mut lines: Vec<String> = Vec::new();
        lines.push("".to_string());
        lines.push(private_key);
        lines.push(view_key);
        lines.push(address);
        lines.push("".to_string());
        lines.push(
            "WARNING: Make sure you have a backup of both private key and view key!".to_string(),
        );
        lines.push(
            "         Nobody can help you recover those keys if you lose them!".to_string(),
        );
        lines.push("".to_string());
        lines
    }
}

/// An account is determined by its private key: whoever has the key has the account again.
pub proof fn law_key_determines_account(a: Account, b: Account)
    requires
        a.wf(),
        b.wf(),
        a.private_key@ == b.private_key@,
    ensures
        a.view_key@ == b.view_key@,
        a.address@ == b.address@,
{
}

/// An account is whole exactly when its private key reads as itself, its view key is the one that
/// the private key gives, and its address is the one that the view key gives, and so the one that
/// the private key gives.
pub proof fn law_whole_account_is_that_of_its_key(account: Account)
    ensures
        account.wf() <==> parsed_private_key(account.private_key@) == Some(account.private_key@)
            && derived_view_key(account.private_key@) == Some(account.view_key@)
            && derived_address(account.view_key@) == Some(account.address@),
        account.wf() ==> address_of_key(account.private_key@) == Some(account.address@),
{
}

/// A private key has the address that its view key gives, and none without a view key.
pub proof fn law_address_comes_through_view_key(private_key: Seq<char>, view_key: Seq<char>)
    ensures
        derived_view_key(private_key) == Some(view_key) ==> address_of_key(private_key)
            == derived_address(view_key),
        derived_view_key(private_key) is None ==> address_of_key(private_key) is None,
{
}

/// A text that is there has its own characters, and one that is not has none.
pub proof fn law_text_has_its_characters(text: String)
    ensures
        text_of(Some(text)) == Some(text@),
        text_of(None) is None,
{
}

} // verus!

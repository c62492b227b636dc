//! A remote wallet behind a session: the accounts it has, and the requests to sign.

use alloy::rpc::types::TransactionRequest;
use vstd::prelude::*;
use vstd::string::StringExecFns;

use crate::error::OpenLvError;
use crate::json::{null_value, set_member, Json};
use crate::provider::jsonrpc::JsonRpcRequest;

verus! {

/// The address of an account.
#[derive(Debug, Clone, Copy, PartialEq, Eq)]
pub struct Address {
    pub bytes: [u8; 20],
}

impl View for Address {
    type V = Seq<u8>;

    open spec fn view(&self) -> Seq<u8> {
        self.bytes@
    }
}

/// The addresses of a list, as bytes.
pub open spec fn address_list(addresses: Seq<Address>) -> Seq<Seq<u8>> {
    Seq::new(addresses.len(), |i: int| addresses[i]@)
}

/// Whether two addresses are the same.
pub fn same_address(a: &Address, b: &Address) -> (same: bool)
    ensures
        same == (a@ == b@),
{
    let mut i: usize = 0;
    while i < 20
        invariant
            i <= 20,
            forall|j: int| 0 <= j < i ==> a.bytes@[j] == b.bytes@[j],
        decreases 20 - i,
    {
        if a.bytes[i] != b.bytes[i] {
            return false;
        }
        i = i + 1;
    }
    assert(a.bytes@ =~= b.bytes@);
    true
}

/// The accounts that a JSON value lists, if `alloy` reads it as a list of addresses.
pub uninterp spec fn accounts_in(reply: Json) -> Option<Seq<Seq<u8>>>;

/// The text that `alloy` writes for an address, with its checksum.
pub uninterp spec fn address_text(address: Seq<u8>) -> Seq<char>;

/// Reads a value as a list of addresses: `serde_json::from_value`, for a `Vec` of
/// `alloy`'s `primitives::Address`.
///
/// Claimed: the outcome is a function of what the value holds, and the addresses that
/// come back are those read, in their order. Nothing is claimed of the error.
#[verifier::external_body]
fn parse_accounts(reply: serde_json::Value) -> (parsed: Result<Vec<Address>, serde_json::Error>)
    ensures
        match parsed {
            Ok(addresses) => accounts_in(crate::json::content(reply)) == Some(
                address_list(addresses@),
            ),
            Err(_) => accounts_in(crate::json::content(reply)) is None,
        },
{
    let accounts: Vec<alloy::primitives::Address> = serde_json::from_value(reply)?;
    Ok(accounts.into_iter().map(|account| Address { bytes: account.into_array() }).collect())
}

/// Writes an address out: the `to_string` of `alloy`'s `primitives::Address`.
///
/// Claimed: the text is a function of the bytes.
#[verifier::external_body]
fn write_address(address: &Address) -> (text: String)
    ensures
        text@ == address_text(address@),
{
    alloy::primitives::Address::from(address.bytes).to_string()
}

/// A transaction that is to be signed, of `alloy`.
#[verifier::external_type_specification]
#[verifier::external_body]
pub struct ExTransactionRequest(TransactionRequest);

/// What a transaction holds, under the names and in the form that `alloy` writes it.
pub uninterp spec fn transaction_fields(tx: TransactionRequest) -> Map<Seq<char>, Json>;

/// Writes a transaction as JSON: `serde_json::to_value`, for `alloy`'s
/// `rpc::types::TransactionRequest`.
///
/// Claimed: writing succeeds, as every part of a transaction is null, a text, a list or
/// an object whose names are texts; and what is written is an object, a function of the
/// transaction alone.
#[verifier::external_body]
fn write_transaction(tx: TransactionRequest) -> (written: Result<
    serde_json::Value,
    serde_json::Error,
>)
    ensures
        written is Ok && crate::json::content(written->Ok_0) == Json::Object(
            transaction_fields(tx),
        ),
{
    serde_json::to_value(tx)
}

/// The hexadecimal digit of a number below sixteen, in lower case.
pub open spec fn hex_digit(number: int) -> char {
    if number < 10 {
        ('0' as int + number) as char
    } else {
        ('a' as int + number - 10) as char
    }
}

/// Bytes in hexadecimal, in lower case and after `0x`.
pub open spec fn hex_text(bytes: Seq<u8>) -> Seq<char> {
    "0x"@ + Seq::new(
        2 * bytes.len(),
        |i: int|
            hex_digit(
                if i % 2 == 0 {
                    bytes[i / 2] as int / 16
                } else {
                    bytes[i / 2] as int % 16
                },
            ),
    )
}

/// Writes an address as JSON: `serde_json::to_value`, for `alloy`'s
/// `primitives::Address`.
///
/// Claimed: writing succeeds, and what is written is the text of the bytes in
/// hexadecimal, without a checksum.
#[verifier::external_body]
fn write_sender(sender: &Address) -> (written: Result<serde_json::Value, serde_json::Error>)
    ensures
        written is Ok && crate::json::content(written->Ok_0) == Json::Text(hex_text(sender@)),
{
    serde_json::to_value(alloy::primitives::Address::from(sender.bytes))
}

/// Why there is no wallet.
#[derive(Debug)]
pub enum WalletError {
    Serialization(serde_json::Error),
    OpenLV(OpenLvError),
    NoAddresses,
}

impl From<serde_json::Error> for WalletError {
    fn from(error: serde_json::Error) -> (wrapped: Self) {
        WalletError::Serialization(error)
    }
}

impl vstd::std_specs::convert::FromSpecImpl<serde_json::Error> for WalletError {
    open spec fn obeys_from_spec() -> bool {
        true
    }

    open spec fn from_spec(error: serde_json::Error) -> Self {
        WalletError::Serialization(error)
    }
}

impl From<OpenLvError> for WalletError {
    fn from(error: OpenLvError) -> (wrapped: Self) {
        WalletError::OpenLV(error)
    }
}

impl vstd::std_specs::convert::FromSpecImpl<OpenLvError> for WalletError {
    open spec fn obeys_from_spec() -> bool {
        true
    }

    open spec fn from_spec(error: OpenLvError) -> Self {
        WalletError::OpenLV(error)
    }
}

/// A remote wallet: the accounts it signs for, and the number of its next request.
#[derive(Debug)]
pub struct Wallet {
    id: u64,
    default: Address,
    addresses: Vec<Address>,
}

/// A [`Wallet`] with its addresses as bytes.
pub struct WalletView {
    pub id: u64,
    pub default: Seq<u8>,
    pub addresses: Seq<Seq<u8>>,
}

impl View for Wallet {
    type V = WalletView;

    closed spec fn view(&self) -> WalletView {
        WalletView {
            id: self.id,
            default: self.default@,
            addresses: address_list(self.addresses@),
        }
    }
}

impl WalletView {
    /// A wallet of some accounts, of which the first is the default. The request for
    /// the accounts was its first.
    pub open spec fn of_accounts(addresses: Seq<Seq<u8>>) -> Self {
        WalletView { id: 2, default: addresses[0], addresses }
    }

    /// The default account is the first of the accounts.
    pub open spec fn wf(self) -> bool {
        self.addresses.len() > 0 && self.default == self.addresses[0]
    }

    /// The wallet after a request.
    pub open spec fn requested(self) -> Self {
        WalletView { id: self.id.wrapping_add(1), ..self }
    }

    /// The wallet after it was asked to sign with an account: an account that it does
    /// not sign for takes no number.
    pub open spec fn asked(self, sender: Seq<u8>) -> Self {
        if self.addresses.contains(sender) {
            self.requested()
        } else {
            self
        }
    }

    /// The wallet after it was asked to sign with each account of a list in turn.
    pub open spec fn asked_all(self, senders: Seq<Seq<u8>>) -> Self
        decreases senders.len(),
    {
        if senders.len() == 0 {
            self
        } else {
            self.asked_all(senders.drop_last()).asked(senders.last())
        }
    }

    /// The numbers that the requests carry when the wallet is asked to sign with each
    /// account of a list in turn. A number is used up with the request, whatever becomes
    /// of it afterwards.
    pub open spec fn numbers(self, senders: Seq<Seq<u8>>) -> Seq<u64>
        decreases senders.len(),
    {
        if senders.len() == 0 {
            seq![]
        } else {
            let before = self.asked_all(senders.drop_last());
            if before.addresses.contains(senders.last()) {
                self.numbers(senders.drop_last()).push(before.id)
            } else {
                self.numbers(senders.drop_last())
            }
        }
    }
}

/// Why a transaction was not signed.
#[derive(Debug)]
pub enum SignError {
    NoSigner(Address),
    /// The request could not be written.
    Serialize(String),
    /// The request was not answered.
    Send(String),
    /// The response could not be read.
    Deserialize(String),
    /// The signed transaction could not be decoded.
    Decode(String),
}

impl SignError {
    /// The error in words.
    pub open spec fn text(self) -> Seq<char> {
        match self {
            SignError::NoSigner(address) => "no signer for address "@ + address_text(address@),
            SignError::Serialize(detail) => "failed to serialize request to OpenLV: "@ + detail@,
            SignError::Send(detail) => "failed to send request to OpenLV: "@ + detail@,
            SignError::Deserialize(detail) => "failed to deserialize response from OpenLV: "@
                + detail@,
            SignError::Decode(detail) => "failed to decode raw tx: "@ + detail@,
        }
    }

    /// The error in words.
    pub fn message(&self) -> (message: String)
        ensures
            message@ == self.text(),
    {
        match self {
            SignError::NoSigner(address) => "no signer for address ".to_owned().concat(
                write_address(address).as_str(),
            ),
            SignError::Serialize(detail) => "failed to serialize request to OpenLV: ".to_owned().concat(
                detail.as_str(),
            ),
            SignError::Send(detail) => "failed to send request to OpenLV: ".to_owned().concat(
                detail.as_str(),
            ),
            SignError::Deserialize(detail) => "failed to deserialize response from OpenLV: ".to_owned().concat(
                detail.as_str(),
            ),
            SignError::Decode(detail) => "failed to decode raw tx: ".to_owned().concat(
                detail.as_str(),
            ),
        }
    }
}

impl Wallet {
    /// The request for the accounts of a wallet, which is its first.
    pub fn accounts_request() -> (request: JsonRpcRequest<'static, serde_json::Value>)
        ensures
            request.jsonrpc@ == "2.0"@,
            request.method@ == "eth_requestAccounts"@,
            crate::json::content(request.params) == Json::Null,
            request.id == 1,
    {
        JsonRpcRequest::new("eth_requestAccounts", null_value(), 1)
    }

    /// A wallet of the accounts that were read from a reply, unless there are none.
    pub fn of_accounts(addresses: Vec<Address>) -> (wallet: Result<Self, WalletError>)
        ensures
            match wallet {
                Ok(w) => addresses@.len() > 0 && w@ == WalletView::of_accounts(
                    address_list(addresses@),
                ),
                Err(error) => addresses@.len() == 0 && error is NoAddresses,
            },
    {
        if addresses.len() == 0 {
            return Err(WalletError::NoAddresses);
        }
        let default = addresses[0];
        Ok(Wallet { id: 2, default, addresses })
    }

    /// A wallet, after what its request for the accounts came to.
    pub fn new(reply: Result<serde_json::Value, OpenLvError>) -> (wallet: Result<Self, WalletError>)
        ensures
            match reply {
                Err(error) => wallet == Err::<Wallet, WalletError>(WalletError::OpenLV(error)),
                Ok(value) => match accounts_in(crate::json::content(value)) {
                    None => wallet matches Err(error) && error is Serialization,
                    Some(accounts) => match wallet {
                        Ok(w) => accounts.len() > 0 && w@ == WalletView::of_accounts(accounts),
                        Err(error) => accounts.len() == 0 && error is NoAddresses,
                    },
                },
            },
    {
        match reply {
            Err(error) => Err(WalletError::from(error)),
            Ok(value) => match parse_accounts(value) {
                Err(error) => Err(WalletError::from(error)),
                Ok(addresses) => Wallet::of_accounts(addresses),
            },
        }
    }

    /// The account to sign with, unless another is asked for.
    pub fn default_signer_address(&self) -> (address: Address)
        ensures
            address@ == self@.default,
    {
        self.default
    }

    /// Whether the wallet signs for an account.
    pub fn has_signer_for(&self, address: &Address) -> (has: bool)
        ensures
            has == self@.addresses.contains(address@),
    {
        let mut i: usize = 0;
        while i < self.addresses.len()
            invariant
                i <= self.addresses@.len(),
                self@.addresses == address_list(self.addresses@),
                forall|j: int| 0 <= j < i ==> self@.addresses[j] != address@,
            decreases self.addresses@.len() - i,
        {
            if same_address(&self.addresses[i], address) {
                assert(self@.addresses[i as int] == address@);
                return true;
            }
            i = i + 1;
        }
        false
    }

    /// The accounts that the wallet signs for.
    pub fn signer_addresses(&self) -> (addresses: Vec<Address>)
        ensures
            address_list(addresses@) == self@.addresses,
    {
        let addresses = self.addresses.clone();
        assert(addresses@ =~= self.addresses@);
        addresses
    }

    /// The request to sign a transaction with an account of the wallet, as JSON: the
    /// account is named as the sender, whatever the transaction says.
    pub fn sign_transaction_from(&mut self, sender: Address, tx: TransactionRequest) -> (request:
        Result<serde_json::Value, SignError>)
        ensures
            final(self)@ == old(self)@.asked(sender@),
            if old(self)@.addresses.contains(sender@) {
                request matches Ok(value) && crate::json::content(value) == signature_request(
                    Json::Object(transaction_fields(tx)),
                    sender@,
                    old(self)@.id,
                )
            } else {
                request == Err::<serde_json::Value, SignError>(SignError::NoSigner(sender))
            },
    {
        if !self.has_signer_for(&sender) {
            return Err(SignError::NoSigner(sender));
        }
        let from = write_sender(&sender);
        self.request_signature(write_transaction(tx), from)
    }

    /// The request to sign a transaction, after what writing the transaction and its
    /// sender came to. It takes a number whether or not they could be written.
    pub fn request_signature(
        &mut self,
        tx: Result<serde_json::Value, serde_json::Error>,
        from: Result<serde_json::Value, serde_json::Error>,
    ) -> (request: Result<serde_json::Value, SignError>)
        ensures
            final(self)@ == old(self)@.requested(),
            match (tx, from) {
                (Ok(tx), Ok(from)) => request matches Ok(value) && crate::json::content(value)
                    == crate::provider::jsonrpc::request_json(
                    "2.0"@,
                    "eth_signTransaction"@,
                    Json::Array(
                        seq![with_sender(crate::json::content(tx), crate::json::content(from))],
                    ),
                    old(self)@.id,
                ),
                (Err(error), _) => request matches Err(SignError::Serialize(text))
                    && vstd::string::to_string_from_display_ensures(&error, text),
                (Ok(_), Err(error)) => request matches Err(SignError::Serialize(text))
                    && vstd::string::to_string_from_display_ensures(&error, text),
            },
    {
        let id: u64 = self.id;
        self.id = id.wrapping_add(1);
        match (tx, from) {
            (Ok(tx), Ok(from)) => {
                let params = (set_member(tx, "from".to_owned(), from),);
                Ok(JsonRpcRequest::new("eth_signTransaction", params, id).to_list_value())
            },
            (Err(error), _) => Err(SignError::Serialize(error.to_string())),
            (Ok(_), Err(error)) => Err(SignError::Serialize(error.to_string())),
        }
    }
}

/// What signing comes to, after what sending the request came to, within that what
/// reading the response came to, and within that what decoding the signed transaction
/// came to. Each that failed tells how.
pub fn signed<E>(reply: Result<Result<Result<E, String>, String>, String>) -> (signed: Result<
    E,
    SignError,
>)
    ensures
        signed == (match reply {
            Err(detail) => Err::<E, SignError>(SignError::Send(detail)),
            Ok(Err(detail)) => Err(SignError::Deserialize(detail)),
            Ok(Ok(Err(detail))) => Err(SignError::Decode(detail)),
            Ok(Ok(Ok(transaction))) => Ok(transaction),
        }),
{
    match reply {
        Err(detail) => Err(SignError::Send(detail)),
        Ok(Err(detail)) => Err(SignError::Deserialize(detail)),
        Ok(Ok(Err(detail))) => Err(SignError::Decode(detail)),
        Ok(Ok(Ok(transaction))) => Ok(transaction),
    }
}

/// A transaction, written as JSON, with its sender named.
pub open spec fn with_sender(tx: Json, from: Json) -> Json {
    match tx {
        Json::Object(members) => Json::Object(members.insert("from"@, from)),
        other => other,
    }
}

/// The request of a number to sign a transaction, written as JSON, with an account.
pub open spec fn signature_request(tx: Json, sender: Seq<u8>, id: u64) -> Json {
    crate::provider::jsonrpc::request_json(
        "2.0"@,
        "eth_signTransaction"@,
        Json::Array(seq![with_sender(tx, Json::Text(hex_text(sender)))]),
        id,
    )
}

/// A wallet that its accounts were read for has its default account among them, and
/// stays so through its requests.
pub proof fn law_default_account_signs(accounts: Seq<Seq<u8>>, wallet: WalletView)
    ensures
        accounts.len() > 0 ==> WalletView::of_accounts(accounts).wf(),
        wallet.wf() ==> wallet.addresses.contains(wallet.default) && wallet.requested().wf(),
{
    if wallet.wf() {
        assert(wallet.addresses[0] == wallet.default);
    }
}

/// A request to sign names the account it was asked for as the sender, and is otherwise
/// about the transaction it was asked for.
pub proof fn law_sender_is_named(fields: Map<Seq<char>, Json>, sender: Seq<u8>, id: u64, name: Seq<char>)
    ensures
        ({
            let params = signature_request(Json::Object(fields), sender, id).member("params"@);
            &&& params is Array && params->Array_0.len() == 1
            &&& params->Array_0[0].has_member("from"@)
            &&& params->Array_0[0].member("from"@) == Json::Text(hex_text(sender))
            &&& name != "from"@ ==> {
                &&& params->Array_0[0].has_member(name) <==> fields.dom().contains(name)
                &&& fields.dom().contains(name) ==> params->Array_0[0].member(name) == fields[name]
            }
        }),
{
    reveal_strlit("params");
    reveal_strlit("id");
    assert("params"@.len() == 6 && "id"@.len() == 2);
}

/// A wallet signs for exactly the accounts that were read for it, in their order, and
/// with the first of them unless another is asked for. Without accounts there is no
/// wallet.
pub proof fn law_wallet_signs_for_its_accounts(
    addresses: Vec<Address>,
    made: Result<Wallet, WalletError>,
    asked: Address,
    has: bool,
    default: Address,
    listed: Vec<Address>,
)
    requires
        call_ensures(Wallet::of_accounts, (addresses,), made),
        made matches Ok(wallet) ==> call_ensures(Wallet::has_signer_for, (&wallet, &asked), has),
        made matches Ok(wallet) ==> call_ensures(
            Wallet::default_signer_address,
            (&wallet,),
            default,
        ),
        made matches Ok(wallet) ==> call_ensures(Wallet::signer_addresses, (&wallet,), listed),
    ensures
        addresses@.len() == 0 ==> made == Err::<Wallet, WalletError>(WalletError::NoAddresses),
        addresses@.len() > 0 ==> {
            &&& made is Ok
            &&& has <==> exists|i: int|
                0 <= i < addresses@.len() && (#[trigger] addresses@[i]).bytes@ == asked.bytes@
            &&& default.bytes@ == addresses@[0].bytes@
            &&& listed@.len() == addresses@.len()
            &&& forall|i: int|
                0 <= i < addresses@.len() ==> (#[trigger] listed@[i]).bytes@ == addresses@[i].bytes@
        },
{
    if addresses@.len() > 0 {
        let wallet = made->Ok_0;
        let list = wallet@.addresses;
        assert forall|i: int| 0 <= i < addresses@.len() implies list[i]
            == #[trigger] addresses@[i].bytes@ by {}
        assert forall|i: int| 0 <= i < addresses@.len() implies (#[trigger] listed@[i]).bytes@
            == addresses@[i].bytes@ by {
            assert(address_list(listed@)[i] == listed@[i]@);
            assert(address_list(addresses@)[i] == addresses@[i]@);
        }
        if has {
            let k = choose|k: int| 0 <= k < list.len() && list[k] == asked@;
            assert(addresses@[k].bytes@ == asked.bytes@);
        }
        if exists|i: int|
            0 <= i < addresses@.len() && (#[trigger] addresses@[i]).bytes@ == asked.bytes@ {
            let k = choose|k: int|
                0 <= k < addresses@.len() && (#[trigger] addresses@[k]).bytes@ == asked.bytes@;
            assert(list[k] == asked@);
        }
        assert(address_list(listed@).len() == listed@.len());
    }
}

/// A wallet is made of a reply that lists accounts; a request that came to nothing, a
/// reply that lists none and one that cannot be read each give their error.
pub proof fn law_wallet_is_made_of_its_reply(
    reply: Result<serde_json::Value, OpenLvError>,
    made: Result<Wallet, WalletError>,
)
    requires
        call_ensures(Wallet::new, (reply,), made),
    ensures
        match reply {
            Err(error) => made == Err::<Wallet, WalletError>(WalletError::OpenLV(error)),
            Ok(value) => match accounts_in(crate::json::content(value)) {
                None => made matches Err(WalletError::Serialization(_)),
                Some(accounts) => if accounts.len() == 0 {
                    made == Err::<Wallet, WalletError>(WalletError::NoAddresses)
                } else {
                    made matches Ok(wallet) && wallet@.addresses == accounts && wallet@.default
                        == accounts[0] && wallet@.id == 2
                },
            },
        },
{
}

/// What kept a wallet from being made is kept as it is.
pub proof fn law_wallet_errors_are_kept(
    unread: serde_json::Error,
    unanswered: OpenLvError,
    first: WalletError,
    second: WalletError,
)
    requires
        call_ensures(<WalletError as From<serde_json::Error>>::from, (unread,), first),
        call_ensures(<WalletError as From<OpenLvError>>::from, (unanswered,), second),
    ensures
        first == WalletError::Serialization(unread),
        second == WalletError::OpenLV(unanswered),
{
}

/// Two addresses are the same exactly if all their bytes are.
pub proof fn law_addresses_are_told_apart(a: Address, b: Address, same: bool)
    requires
        call_ensures(same_address, (&a, &b), same),
    ensures
        same <==> forall|i: int| 0 <= i < 20 ==> #[trigger] a.bytes@[i] == b.bytes@[i],
{
    if forall|i: int| 0 <= i < 20 ==> #[trigger] a.bytes@[i] == b.bytes@[i] {
        assert(a.bytes@ =~= b.bytes@);
    }
}

/// The request for the accounts is the first of a wallet.
pub proof fn law_accounts_are_asked_for(request: JsonRpcRequest<'static, serde_json::Value>)
    requires
        call_ensures(Wallet::accounts_request, (), request),
    ensures
        request.jsonrpc@ == "2.0"@,
        request.method@ == "eth_requestAccounts"@,
        crate::json::content(request.params) == Json::Null,
        request.id == 1,
{
}

/// Whether a JSON value is the request of a number to sign a transaction of some fields
/// with an account: a JSON-RPC request for a signature, whose one parameter names the
/// account as the sender and is otherwise the transaction.
pub open spec fn asks_to_sign(
    asked: Json,
    fields: Map<Seq<char>, Json>,
    sender: Json,
    id: u64,
) -> bool {
    &&& asked is Object
    &&& forall|name: Seq<char>| #[trigger]
        asked.has_member(name) <==> name == "jsonrpc"@ || name == "method"@ || name == "params"@
            || name == "id"@
    &&& asked.member("jsonrpc"@) == Json::Text("2.0"@)
    &&& asked.member("method"@) == Json::Text("eth_signTransaction"@)
    &&& asked.member("id"@) == Json::Unsigned(id)
    &&& asked.member("params"@) matches Json::Array(params) && {
        &&& params.len() == 1
        &&& params[0].has_member("from"@)
        &&& params[0].member("from"@) == sender
        &&& forall|name: Seq<char>|
            name != "from"@ ==> (#[trigger] params[0].has_member(name) <==> fields.dom().contains(
                name,
            ))
        &&& forall|name: Seq<char>|
            name != "from"@ && #[trigger] fields.dom().contains(name) ==> params[0].member(name)
                == fields[name]
    }
}

/// A request to sign is one for a signature and nothing else, for every transaction,
/// account and number; it names the account as the sender and is otherwise about the
/// transaction it was asked for.
pub proof fn law_signature_request_asks_to_sign(
    tx: Json,
    fields: Map<Seq<char>, Json>,
    sender: Seq<u8>,
    id: u64,
)
    ensures
        ({
            let asked = signature_request(tx, sender, id);
            &&& asked.has_member("jsonrpc"@) && asked.member("jsonrpc"@) == Json::Text("2.0"@)
            &&& asked.has_member("method"@) && asked.member("method"@) == Json::Text(
                "eth_signTransaction"@,
            )
            &&& asked.has_member("id"@) && asked.member("id"@) == Json::Unsigned(id)
            &&& asked.has_member("params"@)
        }),
        asks_to_sign(
            signature_request(Json::Object(fields), sender, id),
            fields,
            Json::Text(hex_text(sender)),
            id,
        ),
{
    crate::provider::jsonrpc::law_request_has_its_members(
        "2.0"@,
        "eth_signTransaction"@,
        Json::Array(seq![with_sender(tx, Json::Text(hex_text(sender)))]),
        id,
    );
    crate::provider::jsonrpc::law_request_has_its_members(
        "2.0"@,
        "eth_signTransaction"@,
        Json::Array(seq![with_sender(Json::Object(fields), Json::Text(hex_text(sender)))]),
        id,
    );
}

/// Signing with an account of the wallet asks the remote wallet for a signature of that
/// account on that transaction, under the wallet's next number, whatever the transaction
/// is. Signing with any other account is refused, and changes nothing.
pub proof fn law_signing_asks_for_a_signature(
    wallet: &mut Wallet,
    sender: Address,
    tx: TransactionRequest,
    request: Result<serde_json::Value, SignError>,
)
    requires
        call_ensures(Wallet::sign_transaction_from, (wallet, sender, tx), request),
    ensures
        final(wallet)@.addresses == old(wallet)@.addresses,
        final(wallet)@.default == old(wallet)@.default,
        if old(wallet)@.addresses.contains(sender.bytes@) {
            &&& request matches Ok(value) && asks_to_sign(
                crate::json::content(value),
                transaction_fields(tx),
                Json::Text(hex_text(sender.bytes@)),
                old(wallet)@.id,
            )
            &&& old(wallet)@.id < u64::MAX ==> final(wallet)@.id == old(wallet)@.id + 1
            &&& old(wallet)@.id == u64::MAX ==> final(wallet)@.id == 0
        } else {
            &&& request == Err::<serde_json::Value, SignError>(SignError::NoSigner(sender))
            &&& final(wallet)@.id == old(wallet)@.id
        },
{
    law_signature_request_asks_to_sign(
        Json::Null,
        transaction_fields(tx),
        sender.bytes@,
        old(wallet)@.id,
    );
}

/// A request of a transaction and a sender that were written asks for a signature of that
/// sender on that transaction. If either could not be written, it fails with the text of
/// that, the transaction first. It takes a number in any case.
pub proof fn law_written_transaction_is_asked_for(
    wallet: &mut Wallet,
    tx: Result<serde_json::Value, serde_json::Error>,
    from: Result<serde_json::Value, serde_json::Error>,
    request: Result<serde_json::Value, SignError>,
)
    requires
        call_ensures(Wallet::request_signature, (wallet, tx, from), request),
    ensures
        old(wallet)@.id < u64::MAX ==> final(wallet)@.id == old(wallet)@.id + 1,
        old(wallet)@.id == u64::MAX ==> final(wallet)@.id == 0,
        final(wallet)@.addresses == old(wallet)@.addresses,
        final(wallet)@.default == old(wallet)@.default,
        match (tx, from) {
            (Ok(tx), Ok(from)) => {
                &&& request matches Ok(value)
                &&& crate::json::content(tx) matches Json::Object(fields) ==> asks_to_sign(
                    crate::json::content(value),
                    fields,
                    crate::json::content(from),
                    old(wallet)@.id,
                )
                &&& !(crate::json::content(tx) is Object) ==> crate::json::content(value).member(
                    "params"@,
                ) == Json::Array(seq![crate::json::content(tx)])
            },
            (Err(error), _) => request matches Err(SignError::Serialize(text))
                && vstd::string::to_string_from_display_ensures(&error, text),
            (Ok(_), Err(error)) => request matches Err(SignError::Serialize(text))
                && vstd::string::to_string_from_display_ensures(&error, text),
        },
{
    if tx is Ok && from is Ok {
        crate::provider::jsonrpc::law_request_has_its_members(
            "2.0"@,
            "eth_signTransaction"@,
            Json::Array(
                seq![
                    with_sender(crate::json::content(tx->Ok_0), crate::json::content(from->Ok_0)),
                ],
            ),
            old(wallet)@.id,
        );
    }
}

/// Signing comes to the signed transaction if every stage succeeds, and otherwise to the
/// error of the first stage that did not.
pub proof fn law_first_failed_stage_is_told<E>(
    reply: Result<Result<Result<E, String>, String>, String>,
    result: Result<E, SignError>,
)
    requires
        call_ensures(signed::<E>, (reply,), result),
    ensures
        reply is Ok && reply->Ok_0 is Ok && reply->Ok_0->Ok_0 is Ok ==> result == Ok::<
            E,
            SignError,
        >(reply->Ok_0->Ok_0->Ok_0),
        reply is Err ==> result == Err::<E, SignError>(SignError::Send(reply->Err_0)),
        reply is Ok && reply->Ok_0 is Err ==> result == Err::<E, SignError>(
            SignError::Deserialize(reply->Ok_0->Err_0),
        ),
        reply is Ok && reply->Ok_0 is Ok && reply->Ok_0->Ok_0 is Err ==> result == Err::<
            E,
            SignError,
        >(SignError::Decode(reply->Ok_0->Ok_0->Err_0)),
{
}

/// Each error of signing says what failed, and then in whose words or for which account.
pub proof fn law_sign_errors_in_words(address: Address, detail: String, error: SignError, message: String)
    requires
        call_ensures(SignError::message, (&error,), message),
    ensures
        error == SignError::NoSigner(address) ==> message@ == "no signer for address "@
            + address_text(address.bytes@),
        error == SignError::Serialize(detail) ==> message@
            == "failed to serialize request to OpenLV: "@ + detail@,
        error == SignError::Send(detail) ==> message@ == "failed to send request to OpenLV: "@
            + detail@,
        error == SignError::Deserialize(detail) ==> message@
            == "failed to deserialize response from OpenLV: "@ + detail@,
        error == SignError::Decode(detail) ==> message@ == "failed to decode raw tx: "@ + detail@,
{
}

/// The number that a hexadecimal digit in lower case stands for.
pub open spec fn hex_value(digit: char) -> int {
    if '0' <= digit <= '9' {
        digit as int - '0' as int
    } else {
        digit as int - 'a' as int + 10
    }
}

/// Bytes in hexadecimal can be read back: after `0x` every byte has two digits in lower
/// case, the higher one first.
pub proof fn law_hex_text_is_read_back(bytes: Seq<u8>, i: int)
    requires
        0 <= i < bytes.len(),
    ensures
        hex_text(bytes).len() == 2 + 2 * bytes.len(),
        hex_text(bytes)[0] == '0' && hex_text(bytes)[1] == 'x',
        crate::message::is_lower_hex(hex_text(bytes)[2 + 2 * i]),
        crate::message::is_lower_hex(hex_text(bytes)[3 + 2 * i]),
        bytes[i] == 16 * hex_value(hex_text(bytes)[2 + 2 * i]) + hex_value(
            hex_text(bytes)[3 + 2 * i],
        ),
{
    reveal_strlit("0x");
    assert("0x"@.len() == 2);
    let high = bytes[i] as int / 16;
    let low = bytes[i] as int % 16;
    assert(0 <= high < 16 && 0 <= low < 16);
    assert(hex_text(bytes)[2 + 2 * i] == hex_digit(high)) by {
        assert((2 * i) % 2 == 0 && (2 * i) / 2 == i);
    }
    assert(hex_text(bytes)[3 + 2 * i] == hex_digit(low)) by {
        assert((2 * i + 1) % 2 == 1 && (2 * i + 1) / 2 == i);
    }
}

/// The requests of a wallet are numbered one after the other, from two on, as the
/// request for the accounts was number one. It takes exactly one number for each
/// account of its own that it is asked to sign with, and none for others; so no two
/// requests have the same number, until there are no more numbers.
pub proof fn law_requests_are_numbered(accounts: Seq<Seq<u8>>, senders: Seq<Seq<u8>>)
    requires
        senders.filter(|sender: Seq<u8>| accounts.contains(sender)).len() + 2 <= u64::MAX,
    ensures
        ({
            let wallet = WalletView::of_accounts(accounts);
            let numbers = wallet.numbers(senders);
            &&& numbers.len() == senders.filter(|sender: Seq<u8>| accounts.contains(sender)).len()
            &&& forall|i: int| 0 <= i < numbers.len() ==> #[trigger] numbers[i] == 2 + i
            &&& forall|i: int, j: int| 0 <= i < j < numbers.len() ==> numbers[i] != numbers[j]
            &&& wallet.asked_all(senders).id == 2 + numbers.len()
            &&& wallet.asked_all(senders).addresses == accounts
        }),
    decreases senders.len(),
{
    reveal(Seq::filter);
    if senders.len() > 0 {
        law_requests_are_numbered(accounts, senders.drop_last());
    }
}

} // verus!

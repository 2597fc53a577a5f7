//! The wallet's on-chain addresses.

use crate::json::{bool_field, lemma_lookup_finds, str_field, Json, JsonValue, ObjectBuilder};
use crate::lnd::models::{
    duplicate_list, encode_all, lemma_decode_all_encode_all, list_field, list_to_json, nested_field,
    read_list, read_nested, views, JsonRecord,
};
use crate::text::str_eq;
use vstd::pervasive::unreached;
use vstd::prelude::*;

verus! {

/// The kinds of on-chain address that the wallet derives.
#[derive(Debug, Clone, Copy, PartialEq, Eq, Hash, Structural)]
pub enum OnchainAddressType {
    Unknown,
    WitnessPubkeyHash,
    NestedWitnessPubkeyHash,
    HybridNestedWitnessPubkeyHash,
    TaprootPubkey,
}

impl View for OnchainAddressType {
    type V = OnchainAddressType;

    open spec fn view(&self) -> OnchainAddressType {
        *self
    }
}

impl OnchainAddressType {
    /// The name that stands for a variant on the wire.
    pub open spec fn name(self) -> Seq<char> {
        match self {
            OnchainAddressType::Unknown => "UNKNOWN"@,
            OnchainAddressType::WitnessPubkeyHash => "WITNESS_PUBKEY_HASH"@,
            OnchainAddressType::NestedWitnessPubkeyHash => "NESTED_WITNESS_PUBKEY_HASH"@,
            OnchainAddressType::HybridNestedWitnessPubkeyHash => {
                "HYBRID_NESTED_WITNESS_PUBKEY_HASH"@
            },
            OnchainAddressType::TaprootPubkey => "TAPROOT_PUBKEY"@,
        }
    }

    /// The variant that a name stands for.
    pub open spec fn named(text: Seq<char>) -> Option<OnchainAddressType> {
        if text == "UNKNOWN"@ {
            Some(OnchainAddressType::Unknown)
        } else if text == "WITNESS_PUBKEY_HASH"@ {
            Some(OnchainAddressType::WitnessPubkeyHash)
        } else if text == "NESTED_WITNESS_PUBKEY_HASH"@ {
            Some(OnchainAddressType::NestedWitnessPubkeyHash)
        } else if text == "HYBRID_NESTED_WITNESS_PUBKEY_HASH"@ {
            Some(OnchainAddressType::HybridNestedWitnessPubkeyHash)
        } else if text == "TAPROOT_PUBKEY"@ {
            Some(OnchainAddressType::TaprootPubkey)
        } else {
            None
        }
    }

    /// The name that stands for the variant on the wire.
    pub fn as_str(&self) -> (text: &'static str)
        ensures
            text@ == self.name(),
    {
        match self {
            OnchainAddressType::Unknown => "UNKNOWN",
            OnchainAddressType::WitnessPubkeyHash => "WITNESS_PUBKEY_HASH",
            OnchainAddressType::NestedWitnessPubkeyHash => "NESTED_WITNESS_PUBKEY_HASH",
            OnchainAddressType::HybridNestedWitnessPubkeyHash => {
                "HYBRID_NESTED_WITNESS_PUBKEY_HASH"
            },
            OnchainAddressType::TaprootPubkey => "TAPROOT_PUBKEY",
        }
    }

    /// The variant that `text` names.
    pub fn from_name(text: &str) -> (variant: Option<Self>)
        ensures
            variant == Self::named(text@),
    {
        if str_eq(text, "UNKNOWN") {
            Some(OnchainAddressType::Unknown)
        } else if str_eq(text, "WITNESS_PUBKEY_HASH") {
            Some(OnchainAddressType::WitnessPubkeyHash)
        } else if str_eq(text, "NESTED_WITNESS_PUBKEY_HASH") {
            Some(OnchainAddressType::NestedWitnessPubkeyHash)
        } else if str_eq(text, "HYBRID_NESTED_WITNESS_PUBKEY_HASH") {
            Some(OnchainAddressType::HybridNestedWitnessPubkeyHash)
        } else if str_eq(text, "TAPROOT_PUBKEY") {
            Some(OnchainAddressType::TaprootPubkey)
        } else {
            None
        }
    }

    /// A name is read back as the variant it was written for.
    pub proof fn lemma_named_name(variant: OnchainAddressType)
        ensures
            Self::named(variant.name()) == Some(variant),
    {
        reveal_strlit("UNKNOWN");
        reveal_strlit("WITNESS_PUBKEY_HASH");
        reveal_strlit("NESTED_WITNESS_PUBKEY_HASH");
        reveal_strlit("HYBRID_NESTED_WITNESS_PUBKEY_HASH");
        reveal_strlit("TAPROOT_PUBKEY");
        assert("UNKNOWN"@.len() == 7);
        assert("WITNESS_PUBKEY_HASH"@.len() == 19);
        assert("NESTED_WITNESS_PUBKEY_HASH"@.len() == 26);
        assert("HYBRID_NESTED_WITNESS_PUBKEY_HASH"@.len() == 33);
        assert("TAPROOT_PUBKEY"@.len() == 14);
    }
}

impl JsonRecord for OnchainAddressType {
    open spec fn encode(value: OnchainAddressType) -> JsonValue {
        JsonValue::Str(value.name())
    }

    open spec fn decode(doc: JsonValue) -> Option<OnchainAddressType> {
        match doc {
            JsonValue::Str(text) => Self::named(text),
            _ => None,
        }
    }

    fn to_json(&self) -> (doc: Json) {
        Json::string(self.as_str())
    }

    fn from_json(doc: &Json) -> (value: Option<Self>) {
        match doc {
            Json::Str(text) => Self::from_name(text.as_str()),
            _ => None,
        }
    }

    fn duplicate(&self) -> (copy: Self) {
        *self
    }

    proof fn lemma_decode_encode(value: OnchainAddressType) {
        Self::lemma_named_name(value);
    }
}

/// One address of an account.
#[derive(Debug, Clone, PartialEq, Eq, Hash)]
pub struct LndAddressProperty {
    pub address: String,
    pub is_internal: bool,
    pub balance: String,
    pub derivation_path: String,
    pub public_key: String,
}

/// Model of `LndAddressProperty`.
pub struct LndAddressPropertyView {
    pub address: Seq<char>,
    pub is_internal: bool,
    pub balance: Seq<char>,
    pub derivation_path: Seq<char>,
    pub public_key: Seq<char>,
}

impl View for LndAddressProperty {
    type V = LndAddressPropertyView;

    open spec fn view(&self) -> LndAddressPropertyView {
        LndAddressPropertyView {
            address: self.address@,
            is_internal: self.is_internal,
            balance: self.balance@,
            derivation_path: self.derivation_path@,
            public_key: self.public_key@,
        }
    }
}

impl JsonRecord for LndAddressProperty {
    open spec fn encode(value: LndAddressPropertyView) -> JsonValue {
        JsonValue::Object(
            seq![
                ("address"@, JsonValue::Str(value.address)),
                ("is_internal"@, JsonValue::Bool(value.is_internal)),
                ("balance"@, JsonValue::Str(value.balance)),
                ("derivation_path"@, JsonValue::Str(value.derivation_path)),
                ("public_key"@, JsonValue::Str(value.public_key)),
            ],
        )
    }

    open spec fn decode(doc: JsonValue) -> Option<LndAddressPropertyView> {
        if str_field(doc, "address"@) is Some
            && bool_field(doc, "is_internal"@) is Some
            && str_field(doc, "balance"@) is Some
            && str_field(doc, "derivation_path"@) is Some
            && str_field(doc, "public_key"@) is Some {
            Some(
                LndAddressPropertyView {
                    address: str_field(doc, "address"@)->0,
                    is_internal: bool_field(doc, "is_internal"@)->0,
                    balance: str_field(doc, "balance"@)->0,
                    derivation_path: str_field(doc, "derivation_path"@)->0,
                    public_key: str_field(doc, "public_key"@)->0,
                },
            )
        } else {
            None
        }
    }

    fn to_json(&self) -> (doc: Json) {
        let mut members = ObjectBuilder::new();
        members.member("address", Json::string(self.address.as_str()));
        members.member("is_internal", Json::Bool(self.is_internal));
        members.member("balance", Json::string(self.balance.as_str()));
        members.member("derivation_path", Json::string(self.derivation_path.as_str()));
        members.member("public_key", Json::string(self.public_key.as_str()));
        let doc = members.finish();
        assert(doc@->Object_0 =~= Self::encode(self@)->Object_0);
        doc
    }

    fn from_json(doc: &Json) -> (value: Option<Self>) {
        let address = match doc.read_string("address") {
            Some(v) => v,
            None => return None,
        };
        let is_internal = match doc.read_bool("is_internal") {
            Some(v) => v,
            None => return None,
        };
        let balance = match doc.read_string("balance") {
            Some(v) => v,
            None => return None,
        };
        let derivation_path = match doc.read_string("derivation_path") {
            Some(v) => v,
            None => return None,
        };
        let public_key = match doc.read_string("public_key") {
            Some(v) => v,
            None => return None,
        };
        Some(LndAddressProperty { address, is_internal, balance, derivation_path, public_key })
    }

    fn duplicate(&self) -> (copy: Self) {
        LndAddressProperty {
            address: self.address.clone(),
            is_internal: self.is_internal,
            balance: self.balance.clone(),
            derivation_path: self.derivation_path.clone(),
            public_key: self.public_key.clone(),
        }
    }

    proof fn lemma_decode_encode(value: LndAddressPropertyView) {
        reveal_strlit("address");
        reveal_strlit("is_internal");
        reveal_strlit("balance");
        reveal_strlit("derivation_path");
        reveal_strlit("public_key");
        assert("address"@.len() == 7);
        assert("is_internal"@.len() == 11);
        assert("balance"@.len() == 7);
        assert("derivation_path"@.len() == 15);
        assert("public_key"@.len() == 10);
        assert("address"@[0] != "balance"@[0]);
        let doc = Self::encode(value);
        let members = doc->Object_0;
        lemma_lookup_finds(members, "address"@, 0, 0);
        lemma_lookup_finds(members, "is_internal"@, 0, 1);
        lemma_lookup_finds(members, "balance"@, 0, 2);
        lemma_lookup_finds(members, "derivation_path"@, 0, 3);
        lemma_lookup_finds(members, "public_key"@, 0, 4);
    }
}

/// An account of the wallet with its addresses of one type.
#[derive(Debug, Clone, PartialEq, Eq, Hash)]
pub struct AccountWithAddresses {
    pub name: String,
    pub address_type: OnchainAddressType,
    pub derivation_path: String,
    pub addresses: Vec<LndAddressProperty>,
}

/// Model of `AccountWithAddresses`.
pub struct AccountWithAddressesView {
    pub name: Seq<char>,
    pub address_type: <OnchainAddressType as View>::V,
    pub derivation_path: Seq<char>,
    pub addresses: Seq<<LndAddressProperty as View>::V>,
}

impl View for AccountWithAddresses {
    type V = AccountWithAddressesView;

    open spec fn view(&self) -> AccountWithAddressesView {
        AccountWithAddressesView {
            name: self.name@,
            address_type: self.address_type@,
            derivation_path: self.derivation_path@,
            addresses: views(self.addresses@),
        }
    }
}

impl JsonRecord for AccountWithAddresses {
    open spec fn encode(value: AccountWithAddressesView) -> JsonValue {
        JsonValue::Object(
            seq![
                ("name"@, JsonValue::Str(value.name)),
                ("address_type"@, OnchainAddressType::encode(value.address_type)),
                ("derivation_path"@, JsonValue::Str(value.derivation_path)),
                ("addresses"@, JsonValue::Array(encode_all::<LndAddressProperty>(value.addresses))),
            ],
        )
    }

    open spec fn decode(doc: JsonValue) -> Option<AccountWithAddressesView> {
        if str_field(doc, "name"@) is Some
            && nested_field::<OnchainAddressType>(doc, "address_type"@) is Some
            && str_field(doc, "derivation_path"@) is Some
            && list_field::<LndAddressProperty>(doc, "addresses"@) is Some {
            Some(
                AccountWithAddressesView {
                    name: str_field(doc, "name"@)->0,
                    address_type: nested_field::<OnchainAddressType>(doc, "address_type"@)->0,
                    derivation_path: str_field(doc, "derivation_path"@)->0,
                    addresses: list_field::<LndAddressProperty>(doc, "addresses"@)->0,
                },
            )
        } else {
            None
        }
    }

    fn to_json(&self) -> (doc: Json) {
        let mut members = ObjectBuilder::new();
        members.member("name", Json::string(self.name.as_str()));
        members.member("address_type", self.address_type.to_json());
        members.member("derivation_path", Json::string(self.derivation_path.as_str()));
        members.member("addresses", list_to_json(&self.addresses));
        let doc = members.finish();
        assert(doc@->Object_0 =~= Self::encode(self@)->Object_0);
        doc
    }

    fn from_json(doc: &Json) -> (value: Option<Self>) {
        let name = match doc.read_string("name") {
            Some(v) => v,
            None => return None,
        };
        let address_type = match read_nested::<OnchainAddressType>(doc, "address_type") {
            Some(v) => v,
            None => return None,
        };
        let derivation_path = match doc.read_string("derivation_path") {
            Some(v) => v,
            None => return None,
        };
        let addresses = match read_list::<LndAddressProperty>(doc, "addresses") {
            Some(v) => v,
            None => return None,
        };
        Some(AccountWithAddresses { name, address_type, derivation_path, addresses })
    }

    fn duplicate(&self) -> (copy: Self) {
        AccountWithAddresses {
            name: self.name.clone(),
            address_type: self.address_type.duplicate(),
            derivation_path: self.derivation_path.clone(),
            addresses: duplicate_list(&self.addresses),
        }
    }

    proof fn lemma_decode_encode(value: AccountWithAddressesView) {
        reveal_strlit("name");
        reveal_strlit("address_type");
        reveal_strlit("derivation_path");
        reveal_strlit("addresses");
        assert("name"@.len() == 4);
        assert("address_type"@.len() == 12);
        assert("derivation_path"@.len() == 15);
        assert("addresses"@.len() == 9);
        let doc = Self::encode(value);
        let members = doc->Object_0;
        lemma_lookup_finds(members, "name"@, 0, 0);
        lemma_lookup_finds(members, "address_type"@, 0, 1);
        lemma_lookup_finds(members, "derivation_path"@, 0, 2);
        lemma_lookup_finds(members, "addresses"@, 0, 3);
        OnchainAddressType::lemma_decode_encode(value.address_type);
        lemma_decode_all_encode_all::<LndAddressProperty>(value.addresses);
    }
}

/// The wallet's accounts with their addresses.
#[derive(Debug, Clone, PartialEq, Eq, Hash)]
pub struct LndListAddressesResponse {
    pub account_with_addresses: Vec<AccountWithAddresses>,
}

/// Model of `LndListAddressesResponse`.
pub struct LndListAddressesResponseView {
    pub account_with_addresses: Seq<<AccountWithAddresses as View>::V>,
}

impl View for LndListAddressesResponse {
    type V = LndListAddressesResponseView;

    open spec fn view(&self) -> LndListAddressesResponseView {
        LndListAddressesResponseView {
            account_with_addresses: views(self.account_with_addresses@),
        }
    }
}

impl JsonRecord for LndListAddressesResponse {
    open spec fn encode(value: LndListAddressesResponseView) -> JsonValue {
        JsonValue::Object(
            seq![
                (
                    "account_with_addresses"@,
                    JsonValue::Array(
                        encode_all::<AccountWithAddresses>(value.account_with_addresses),
                    ),
                ),
            ],
        )
    }

    open spec fn decode(doc: JsonValue) -> Option<LndListAddressesResponseView> {
        if list_field::<AccountWithAddresses>(doc, "account_with_addresses"@) is Some {
            Some(
                LndListAddressesResponseView {
                    account_with_addresses: list_field::<AccountWithAddresses>(
                        doc,
                        "account_with_addresses"@,
                    )->0,
                },
            )
        } else {
            None
        }
    }

    fn to_json(&self) -> (doc: Json) {
        let mut members = ObjectBuilder::new();
        members.member("account_with_addresses", list_to_json(&self.account_with_addresses));
        let doc = members.finish();
        assert(doc@->Object_0 =~= Self::encode(self@)->Object_0);
        doc
    }

    fn from_json(doc: &Json) -> (value: Option<Self>) {
        let account_with_addresses = match read_list::<AccountWithAddresses>(
            doc,
            "account_with_addresses",
        ) {
            Some(v) => v,
            None => return None,
        };
        Some(LndListAddressesResponse { account_with_addresses })
    }

    fn duplicate(&self) -> (copy: Self) {
        LndListAddressesResponse {
            account_with_addresses: duplicate_list(&self.account_with_addresses),
        }
    }

    proof fn lemma_decode_encode(value: LndListAddressesResponseView) {
        reveal_strlit("account_with_addresses");
        let doc = Self::encode(value);
        let members = doc->Object_0;
        lemma_lookup_finds(members, "account_with_addresses"@, 0, 0);
        lemma_decode_all_encode_all::<AccountWithAddresses>(value.account_with_addresses);
    }
}

impl LndListAddressesResponse {
    /// Whether an account goes by `name` and holds addresses of type `kind`.
    pub open spec fn matches(
        account: AccountWithAddressesView,
        name: Seq<char>,
        kind: OnchainAddressType,
    ) -> bool {
        account.name == name && account.address_type == kind
    }

    /// Whether `at` is the position of the first account that goes by `name`
    /// and holds addresses of type `kind`.
    pub open spec fn first_match(
        accounts: Seq<AccountWithAddressesView>,
        name: Seq<char>,
        kind: OnchainAddressType,
        at: int,
    ) -> bool {
        &&& 0 <= at < accounts.len()
        &&& Self::matches(accounts[at], name, kind)
        &&& forall|k: int| 0 <= k < at ==> !Self::matches(#[trigger] accounts[k], name, kind)
    }

    /// Whether some account goes by `name` and holds addresses of type
    /// `kind`.
    pub open spec fn has_account(
        accounts: Seq<AccountWithAddressesView>,
        name: Seq<char>,
        kind: OnchainAddressType,
    ) -> bool {
        exists|k: int| 0 <= k < accounts.len() && Self::matches(#[trigger] accounts[k], name, kind)
    }

    /// The position of the first account that goes by `account_name` and
    /// holds addresses of type `address_type`.
    pub fn find_account(&self, account_name: &str, address_type: OnchainAddressType) -> (at: Option<
        usize,
    >)
        ensures
            match at {
                Some(i) => Self::first_match(
                    self@.account_with_addresses,
                    account_name@,
                    address_type,
                    i as int,
                ),
                None => !Self::has_account(
                    self@.account_with_addresses,
                    account_name@,
                    address_type,
                ),
            },
    {
        let mut i: usize = 0;
        while i < self.account_with_addresses.len()
            invariant
                i <= self.account_with_addresses.len(),
                self@.account_with_addresses.len() == self.account_with_addresses.len(),
                forall|k: int|
                    0 <= k < self.account_with_addresses.len() ==> (
                    #[trigger] self@.account_with_addresses[k]) == self.account_with_addresses[k]@,
                forall|k: int|
                    0 <= k < i ==> !Self::matches(
                        #[trigger] self@.account_with_addresses[k],
                        account_name@,
                        address_type,
                    ),
            decreases self.account_with_addresses.len() - i,
        {
            let account = &self.account_with_addresses[i];
            if str_eq(account.name.as_str(), account_name) && account.address_type
                == address_type {
                return Some(i);
            }
            i += 1;
        }
        None
    }

    /// The addresses of the first account that goes by `account_name` and
    /// holds addresses of type `address_type`.
    pub fn find_addresses(
        &self,
        account_name: &str,
        address_type: OnchainAddressType,
    ) -> (addresses: Vec<LndAddressProperty>)
        requires
            Self::has_account(self@.account_with_addresses, account_name@, address_type),
        ensures
            exists|at: int|
                Self::first_match(self@.account_with_addresses, account_name@, address_type, at)
                    && views(addresses@) == self@.account_with_addresses[at].addresses,
    {
        match self.find_account(account_name, address_type) {
            Some(i) => {
                let addresses = duplicate_list(&self.account_with_addresses[i].addresses);
                assert(Self::first_match(
                    self@.account_with_addresses,
                    account_name@,
                    address_type,
                    i as int,
                ));
                addresses
            },
            None => unreached(),
        }
    }
}

} // verus!

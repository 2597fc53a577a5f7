//! The node's description of itself.

use crate::error::ChannelError;
use crate::json::{
    int_field, json_text, json_text_pretty, lemma_lookup_finds, str_field, Json, JsonValue,
    ObjectBuilder,
};
use crate::lnd::models::{decode_text, from_text, to_text, to_text_pretty, JsonRecord};
use vstd::prelude::*;

verus! {

/// What the node says of itself.
#[derive(Debug, Clone)]
pub struct LndInfo {
    identity_pubkey: String,
    block_height: u32,
}

/// Model of `LndInfo`.
pub struct LndInfoView {
    pub identity_pubkey: Seq<char>,
    pub block_height: u32,
}

impl View for LndInfo {
    type V = LndInfoView;

    closed spec fn view(&self) -> LndInfoView {
        LndInfoView {
            identity_pubkey: self.identity_pubkey@,
            block_height: self.block_height,
        }
    }
}

impl JsonRecord for LndInfo {
    open spec fn encode(value: LndInfoView) -> JsonValue {
        JsonValue::Object(
            seq![
                ("identity_pubkey"@, JsonValue::Str(value.identity_pubkey)),
                ("block_height"@, JsonValue::Integer(value.block_height as int)),
            ],
        )
    }

    open spec fn decode(doc: JsonValue) -> Option<LndInfoView> {
        if str_field(doc, "identity_pubkey"@) is Some
            && int_field(doc, "block_height"@, 0, u32::MAX as int) is Some {
            Some(
                LndInfoView {
                    identity_pubkey: str_field(doc, "identity_pubkey"@)->0,
                    block_height: int_field(doc, "block_height"@, 0, u32::MAX as int)->0 as u32,
                },
            )
        } else {
            None
        }
    }

    fn to_json(&self) -> (doc: Json) {
        let mut members = ObjectBuilder::new();
        members.member("identity_pubkey", Json::string(self.identity_pubkey.as_str()));
        members.member("block_height", Json::integer(self.block_height as i64));
        let doc = members.finish();
        assert(doc@->Object_0 =~= Self::encode(self@)->Object_0);
        doc
    }

    fn from_json(doc: &Json) -> (value: Option<Self>) {
        let identity_pubkey = match doc.read_string("identity_pubkey") {
            Some(v) => v,
            None => return None,
        };
        let block_height = match doc.read_u32("block_height") {
            Some(v) => v,
            None => return None,
        };
        Some(LndInfo { identity_pubkey, block_height })
    }

    fn duplicate(&self) -> (copy: Self) {
        LndInfo {
            identity_pubkey: self.identity_pubkey.clone(),
            block_height: self.block_height,
        }
    }

    proof fn lemma_decode_encode(value: LndInfoView) {
        reveal_strlit("identity_pubkey");
        reveal_strlit("block_height");
        assert("identity_pubkey"@.len() == 15);
        assert("block_height"@.len() == 12);
        let doc = Self::encode(value);
        let members = doc->Object_0;
        lemma_lookup_finds(members, "identity_pubkey"@, 0, 0);
        lemma_lookup_finds(members, "block_height"@, 0, 1);
    }
}

impl LndInfo {
    /// Reads the record from a JSON text.
    pub fn try_from(value: String) -> (record: Result<Self, ChannelError>)
        ensures
            match decode_text::<LndInfo>(value@) {
                Some(v) => record matches Ok(x) && x@ == v,
                None => record matches Err(e) && e == ChannelError::SerializationError,
            },
    {
        from_text(value.as_str())
    }

    /// Writes the record as one line of JSON.
    pub fn try_into(self) -> (text: Result<String, ChannelError>)
        ensures
            match json_text(LndInfo::encode(self@)) {
                Some(t) => text matches Ok(s) && s@ == t,
                None => text matches Err(e) && e == ChannelError::SerializationError,
            },
    {
        to_text(&self)
    }

    /// The record as indented JSON.
    pub fn to_string(&self) -> (text: Result<String, ChannelError>)
        ensures
            match json_text_pretty(LndInfo::encode(self@)) {
                Some(t) => text matches Ok(s) && s@ == t,
                None => text matches Err(e) && e == ChannelError::SerializationError,
            },
    {
        to_text_pretty(self)
    }

    pub fn identity_pubkey(&self) -> (key: String)
        ensures
            key@ == self@.identity_pubkey,
    {
        self.identity_pubkey.clone()
    }

    pub fn block_height(&self) -> (height: u32)
        ensures
            height == self@.block_height,
    {
        self.block_height
    }
}

} // verus!

use lnd_client::lnd::models::{from_text, to_text, to_text_pretty};
use lnd_client::{
    AccountWithAddresses, ChannelError, HodlState, InvoicePaymentState, Json, LndAddressProperty,
    LndError, LndHodlInvoice, LndHodlInvoiceState, LndInfo, LndInvoice, LndInvoiceList,
    LndInvoiceRequest, LndInvoiceRequestBody, LndInvoiceState, LndListAddressesResponse,
    LndNewAddress, LndNextAddressRequest, LndPaymentInvoice, LndPaymentRequest,
    LndPaymentResponse, LndResponse, OnchainAddressType,
};

const INVOICE_WITH_AMOUNT: &str = "lnbc2500u1pvjluezsp5zyg3zyg3zyg3zyg3zyg3zyg3zyg3zyg3zyg3zyg3zyg3zyg3zygspp5qqqsyqcyq5rqwzqfqqqsyqcyq5rqwzqfqqqsyqcyq5rqwzqfqypqdq5xysxxatsyp3k7enxv4jsxqzpu9qrsgquk0rl77nj30yxdy8j9vdx85fkpmdla2087ne0xh8nhedh8w27kyke0lp53ut353s06fv3qfegext0eh0ymjpf39tuven09sam30g4vgpfna3rh";
const INVOICE_WITHOUT_AMOUNT: &str = "lnbc1pvjluezsp5zyg3zyg3zyg3zyg3zyg3zyg3zyg3zyg3zyg3zyg3zyg3zyg3zygspp5qqqsyqcyq5rqwzqfqqqsyqcyq5rqwzqfqqqsyqcyq5rqwzqfqypqdpl2pkx2ctnv5sxxmmwwd5kgetjypeh2ursdae8g6twvus8g6rfwvs8qun0dfjkxaq9qrsgq357wnc5r2ueh7ck6q93dj32dlqnls087fxdwk8qakdyafkq3yap9us6v52vjjsrvywa6rt52cm9r9zqt8r2t7mlcwspyetp5h2tztugp9lfyql";

fn invoice(memo: Option<&str>) -> LndInvoice {
    LndInvoice {
        r_preimage: "cHJl".to_string(),
        r_hash: "+//+ABA=".to_string(),
        payment_request: "lnbc1".to_string(),
        add_index: "7".to_string(),
        payment_addr: "YWJj".to_string(),
        memo: memo.map(|m| m.to_string()),
        value: "1000".to_string(),
        value_msat: "1000000".to_string(),
        settled: false,
        creation_date: "1700000000".to_string(),
        settle_date: "0".to_string(),
        state: LndInvoiceState::Open,
    }
}

#[test]
fn json_text_round_trip_keeps_order_and_numbers() {
    let text = "{\"b\":[1.5,-2,18446744073709551615,true,null],\"a\":{\"x\":\"\\u00e9\"}}";
    let doc = Json::parse(text).unwrap();
    assert_eq!(doc.to_text().unwrap(), "{\"b\":[1.5,-2,18446744073709551615,true,null],\"a\":{\"x\":\"é\"}}");
    assert_eq!(doc.get("a").unwrap().get("x").unwrap().as_string().unwrap(), "é");
    let items = doc.get("b").unwrap().as_array().unwrap();
    assert_eq!(items.len(), 5);
    assert_eq!(items[0].as_u64(), None);
    assert_eq!(items[0].as_i32(), None);
    assert_eq!(items[1].as_i32(), Some(-2));
    assert_eq!(items[1].as_u64(), None);
    assert_eq!(items[1].as_u32(), None);
    assert_eq!(items[2].as_u64(), Some(u64::MAX));
    assert_eq!(items[2].as_u32(), None);
    assert_eq!(items[2].as_i32(), None);
    assert_eq!(items[3].as_bool(), Some(true));
    assert!(items[4].is_null());
    assert!(doc.get("c").is_none());
    assert!(items[0].get("a").is_none());
}

#[test]
fn json_parse_refuses_what_is_no_document() {
    assert!(Json::parse("").is_none());
    assert!(Json::parse("{\"a\":}").is_none());
    assert!(Json::parse("{} x").is_none());
    assert!(Json::parse("nul").is_none());
}

#[test]
fn json_pretty_text_is_indented() {
    let doc = Json::parse("{\"a\":[1,2],\"b\":{}}").unwrap();
    assert_eq!(doc.to_text_pretty().unwrap(), "{\n  \"a\": [\n    1,\n    2\n  ],\n  \"b\": {}\n}");
}

#[test]
fn json_get_takes_the_first_member_of_a_name() {
    let doc = Json::Object(vec![
        ("a".to_string(), Json::Unsigned(1)),
        ("a".to_string(), Json::Unsigned(2)),
    ]);
    assert_eq!(doc.get("a").unwrap().as_u64(), Some(1));
}

#[test]
fn json_parse_stops_at_deep_nesting() {
    let shallow = format!("{}1{}", "[".repeat(100), "]".repeat(100));
    assert!(Json::parse(&shallow).is_some());
    let deep = format!("{}1{}", "[".repeat(200), "]".repeat(200));
    assert!(Json::parse(&deep).is_none());
}

#[test]
fn json_real_is_written_from_its_text() {
    assert_eq!(Json::Real("1.5".to_string()).to_text().unwrap(), "1.5");
    assert_eq!(Json::Real("1e3".to_string()).to_text().unwrap(), "1000.0");
    assert_eq!(Json::Real("not a number".to_string()).to_text().unwrap(), "null");
    assert!(Json::parse("1e400").is_none());
    match Json::parse("[0.25, -0]").unwrap() {
        Json::Array(items) => {
            assert!(matches!(&items[0], Json::Real(text) if text == "0.25"));
            assert!(matches!(&items[1], Json::Real(text) if text == "-0.0"));
        }
        other => panic!("expected an array, got {:?}", other),
    }
}

#[test]
fn json_members_of_one_name_are_written_once() {
    let doc = Json::Object(vec![
        ("a".to_string(), Json::Unsigned(1)),
        ("b".to_string(), Json::Unsigned(2)),
        ("a".to_string(), Json::Unsigned(3)),
    ]);
    assert_eq!(doc.to_text().unwrap(), "{\"a\":3,\"b\":2}");
    let read = Json::parse("{\"a\":1,\"b\":2,\"a\":3}").unwrap();
    assert_eq!(read.to_text().unwrap(), "{\"a\":3,\"b\":2}");
}

#[test]
fn json_integer_bounds() {
    assert_eq!(Json::Unsigned(4294967295).as_u32(), Some(u32::MAX));
    assert_eq!(Json::Unsigned(4294967296).as_u32(), None);
    assert_eq!(Json::Unsigned(2147483647).as_i32(), Some(i32::MAX));
    assert_eq!(Json::Unsigned(2147483648).as_i32(), None);
    assert_eq!(Json::Signed(-2147483648).as_i32(), Some(i32::MIN));
    assert_eq!(Json::Signed(-2147483649).as_i32(), None);
    assert_eq!(Json::Signed(5).as_u64(), Some(5));
    assert_eq!(Json::Signed(-1).as_u64(), None);
    assert_eq!(Json::integer(-3).to_text().unwrap(), "-3");
    assert_eq!(Json::integer(3).to_text().unwrap(), "3");
    assert_eq!(Json::Str("5".to_string()).as_u64(), None);
}

#[test]
fn error_envelope_reads_and_writes() {
    let error = LndError::try_from("{\"error\":{\"code\":5,\"message\":\"not found\"}}".to_string()).unwrap();
    assert_eq!(error.code(), 5);
    assert_eq!(error.message(), "not found");
    assert_eq!(error, LndError::new(5, "not found".to_string()));
    assert_eq!(to_text(&error).unwrap(), "{\"error\":{\"code\":5,\"message\":\"not found\"}}");
    assert_eq!(
        error.to_string().unwrap(),
        "{\n  \"error\": {\n    \"code\": 5,\n    \"message\": \"not found\"\n  }\n}"
    );
    assert_eq!(
        LndError::try_from("{\"error\":\"not found\"}".to_string()).unwrap_err(),
        ChannelError::SerializationError
    );
}

#[test]
fn response_envelope_wraps_its_payload() {
    let text = "{\"result\":{\"identity_pubkey\":\"02ab\",\"block_height\":840000}}";
    let response: LndResponse<LndInfo> = from_text(text).unwrap();
    assert_eq!(response.inner().identity_pubkey(), "02ab");
    assert_eq!(response.inner().block_height(), 840000);
    assert_eq!(to_text(&response).unwrap(), text);
    assert_eq!(
        from_text::<LndResponse<LndInfo>>("{\"identity_pubkey\":\"02ab\",\"block_height\":840000}")
            .unwrap_err(),
        ChannelError::SerializationError
    );
}

#[test]
fn info_reads_and_writes() {
    let info = LndInfo::try_from("{\"block_height\":4294967295,\"identity_pubkey\":\"k\"}".to_string()).unwrap();
    assert_eq!(info.block_height(), u32::MAX);
    assert_eq!(info.clone().try_into().unwrap(), "{\"identity_pubkey\":\"k\",\"block_height\":4294967295}");
    assert_eq!(info.to_string().unwrap(), "{\n  \"identity_pubkey\": \"k\",\n  \"block_height\": 4294967295\n}");
    for bad in [
        "{\"block_height\":4294967296,\"identity_pubkey\":\"k\"}",
        "{\"block_height\":-1,\"identity_pubkey\":\"k\"}",
        "{\"block_height\":1}",
        "[\"k\",1]",
    ] {
        assert_eq!(LndInfo::try_from(bad.to_string()).unwrap_err(), ChannelError::SerializationError);
    }
}

#[test]
fn hodl_state_names() {
    for (state, name) in [
        (HodlState::OPEN, "OPEN"),
        (HodlState::ACCEPTED, "ACCEPTED"),
        (HodlState::CANCELED, "CANCELED"),
        (HodlState::SETTLED, "SETTLED"),
    ] {
        assert_eq!(HodlState::try_from(name.to_string()), Ok(state));
        assert_eq!(state.try_into(), Ok(name.to_string()));
        assert_eq!(state.to_string().unwrap(), format!("\"{}\"", name));
        assert_eq!(HodlState::from_name(name), Some(state));
        assert_eq!(state.as_str(), name);
    }
    assert_eq!(HodlState::try_from("open".to_string()), Err(ChannelError::SerializationError));
    assert_eq!(HodlState::try_from("\"OPEN\"".to_string()), Err(ChannelError::SerializationError));
    assert_eq!(HodlState::try_from("".to_string()), Err(ChannelError::SerializationError));
}

#[test]
fn hodl_invoice_state_reads_and_writes() {
    let text = "{\"settled\":true,\"state\":\"SETTLED\",\"r_hash\":\"+/8=\",\"payment_request\":\"lnbc1\"}";
    let state = LndHodlInvoiceState::try_from(text.to_string()).unwrap();
    assert!(state.settled());
    assert_eq!(state.state(), HodlState::SETTLED);
    assert_eq!(state.r_hash(), "+/8=");
    assert_eq!(state.r_hash_url_safe(), "Ky84PQ==");
    assert_eq!(state.payment_request(), "lnbc1");
    assert_eq!(state.clone().try_into().unwrap(), text);
    assert_eq!(
        state.to_string().unwrap(),
        "{\n  \"settled\": true,\n  \"state\": \"SETTLED\",\n  \"r_hash\": \"+/8=\",\n  \"payment_request\": \"lnbc1\"\n}"
    );
    assert!(LndHodlInvoiceState::try_from(text.replace("true", "1")).is_err());
}

#[test]
fn hodl_invoice_accessors() {
    let text = format!(
        "{{\"payment_addr\":\"+/+/\",\"payment_request\":\"{}\",\"add_index\":\"3\"}}",
        INVOICE_WITH_AMOUNT
    );
    let invoice = LndHodlInvoice::try_from(text.clone()).unwrap();
    assert_eq!(invoice.payment_hash(), b"+/+/".to_vec());
    assert_eq!(invoice.payment_request(), INVOICE_WITH_AMOUNT);
    assert_eq!(invoice.add_index(), "3");
    assert_eq!(invoice.r_hash_url_safe().unwrap(), "Ky8rLw==");
    assert_eq!(invoice.sat_amount(), 250000);
    assert_eq!(invoice.checked_sat_amount(), Some(250000));
    assert_eq!(invoice.clone().try_into().unwrap(), text);

    let open = LndHodlInvoice::try_from(format!(
        "{{\"payment_addr\":\"a\",\"payment_request\":\"{}\",\"add_index\":\"3\"}}",
        INVOICE_WITHOUT_AMOUNT
    ))
    .unwrap();
    assert_eq!(open.checked_sat_amount(), None);
    let broken = LndHodlInvoice::try_from(
        "{\"payment_addr\":\"a\",\"payment_request\":\"lnbc1\",\"add_index\":\"3\"}".to_string(),
    )
    .unwrap();
    assert_eq!(broken.checked_sat_amount(), None);
}

#[test]
fn payment_invoice_hashes() {
    let text = "{\"r_hash\":\"+//+ABA=\",\"payment_request\":\"lnbc1\",\"add_index\":\"1\",\"payment_addr\":\"YWJj\"}";
    let invoice = LndPaymentInvoice::try_from(text.to_string()).unwrap();
    assert_eq!(invoice.r_hash_url_safe(), "-__-ABA=");
    assert_eq!(invoice.checked_r_hash_url_safe(), Some("-__-ABA=".to_string()));
    assert_eq!(invoice.r_hash_hex(), "fbfffe0010");
    assert_eq!(invoice.checked_r_hash_hex(), Some("fbfffe0010".to_string()));
    assert_eq!(invoice.payment_hash(), b"abc".to_vec());
    assert_eq!(invoice.checked_payment_hash(), Some(b"abc".to_vec()));
    assert_eq!(invoice.clone().try_into().unwrap(), text);

    let broken = LndPaymentInvoice {
        r_hash: "not base64!".to_string(),
        payment_request: String::new(),
        add_index: String::new(),
        payment_addr: "-__-".to_string(),
    };
    assert_eq!(broken.checked_r_hash_url_safe(), None);
    assert_eq!(broken.checked_r_hash_hex(), None);
    assert_eq!(broken.checked_payment_hash(), None);
}

#[test]
fn invoice_leaves_out_an_absent_memo() {
    let without = invoice(None);
    let text = "{\"r_preimage\":\"cHJl\",\"r_hash\":\"+//+ABA=\",\"payment_request\":\"lnbc1\",\"add_index\":\"7\",\"payment_addr\":\"YWJj\",\"value\":\"1000\",\"value_msat\":\"1000000\",\"settled\":false,\"creation_date\":\"1700000000\",\"settle_date\":\"0\",\"state\":\"OPEN\"}";
    assert_eq!(without.clone().try_into().unwrap(), text);
    assert_eq!(LndInvoice::try_from(text.to_string()).unwrap(), without);

    let with = invoice(Some("Hello"));
    let text = "{\"r_preimage\":\"cHJl\",\"r_hash\":\"+//+ABA=\",\"payment_request\":\"lnbc1\",\"add_index\":\"7\",\"payment_addr\":\"YWJj\",\"memo\":\"Hello\",\"value\":\"1000\",\"value_msat\":\"1000000\",\"settled\":false,\"creation_date\":\"1700000000\",\"settle_date\":\"0\",\"state\":\"OPEN\"}";
    assert_eq!(with.clone().try_into().unwrap(), text);
    assert_eq!(LndInvoice::try_from(text.to_string()).unwrap(), with);
    assert_eq!(
        LndInvoice::try_from(text.replace("\"Hello\"", "null")).unwrap(),
        without
    );
    assert!(LndInvoice::try_from(text.replace("\"Hello\"", "5")).is_err());
    assert!(LndInvoice::try_from(text.replace("OPEN", "Open")).is_err());
    assert_eq!(with.r_hash_url_safe(), "-__-ABA=");
    assert_eq!(with.r_hash_hex(), "fbfffe0010");
    assert_eq!(with.payment_hash(), b"abc".to_vec());
    assert_eq!(with.checked_payment_hash(), Some(b"abc".to_vec()));
    assert_eq!(with.checked_r_hash_hex(), Some("fbfffe0010".to_string()));
    assert_eq!(with.checked_r_hash_url_safe(), Some("-__-ABA=".to_string()));
}

#[test]
fn invoice_state_names() {
    for (state, name) in [
        (LndInvoiceState::Open, "OPEN"),
        (LndInvoiceState::Settled, "SETTLED"),
        (LndInvoiceState::Canceled, "CANCELED"),
        (LndInvoiceState::Accepted, "ACCEPTED"),
    ] {
        assert_eq!(state.as_str(), name);
        assert_eq!(LndInvoiceState::from_name(name), Some(state));
    }
    assert_eq!(LndInvoiceState::from_name("Open"), None);
}

#[test]
fn invoice_list_reads_and_writes() {
    let list = LndInvoiceList {
        invoices: vec![invoice(None), invoice(Some("m"))],
        last_index_offset: "2".to_string(),
        first_index_offset: "1".to_string(),
    };
    let text = list.clone().try_into().unwrap();
    assert!(text.starts_with("{\"invoices\":[{\"r_preimage\""));
    assert!(text.ends_with("}],\"last_index_offset\":\"2\",\"first_index_offset\":\"1\"}"));
    assert_eq!(LndInvoiceList::try_from(text).unwrap(), list);
    let empty = LndInvoiceList::try_from(
        "{\"invoices\":[],\"last_index_offset\":\"0\",\"first_index_offset\":\"0\"}".to_string(),
    )
    .unwrap();
    assert!(empty.invoices.is_empty());
    assert!(LndInvoiceList::try_from(
        "{\"invoices\":[{}],\"last_index_offset\":\"0\",\"first_index_offset\":\"0\"}".to_string()
    )
    .is_err());
    assert!(LndInvoiceList::try_from(
        "{\"invoices\":{},\"last_index_offset\":\"0\",\"first_index_offset\":\"0\"}".to_string()
    )
    .is_err());
}

#[test]
fn new_address_and_next_address_request() {
    let address = LndNewAddress::try_from("{\"addr\":\"bc1p\"}".to_string()).unwrap();
    assert_eq!(address.addr, "bc1p");
    assert_eq!(address.try_into().unwrap(), "{\"addr\":\"bc1p\"}");

    let request = LndNextAddressRequest::default();
    assert_eq!(request.account(), "");
    assert_eq!(request.address_type(), OnchainAddressType::TaprootPubkey);
    assert!(!request.change());
    assert_eq!(
        request.clone().try_into().unwrap(),
        "{\"account\":\"\",\"type\":\"TAPROOT_PUBKEY\",\"change\":false}"
    );
    let read = LndNextAddressRequest::try_from(
        "{\"account\":\"d\",\"type\":\"WITNESS_PUBKEY_HASH\",\"change\":true}".to_string(),
    )
    .unwrap();
    assert_eq!(read.address_type(), OnchainAddressType::WitnessPubkeyHash);
    assert!(read.change());
    assert!(LndNextAddressRequest::try_from(
        "{\"account\":\"d\",\"address_type\":\"WITNESS_PUBKEY_HASH\",\"change\":true}".to_string()
    )
    .is_err());
}

#[test]
fn invoice_request_carries_its_body_as_text() {
    let request = LndInvoiceRequest::new(1000);
    assert_eq!(request.form(), "{\"value\":\"1000\",\"memo\":null}");
    assert_eq!(
        request.to_string().unwrap(),
        "{\"form\":\"{\\\"value\\\":\\\"1000\\\",\\\"memo\\\":null}\"}"
    );
    assert_eq!(LndInvoiceRequest::checked_new(0).unwrap().form(), "{\"value\":\"0\",\"memo\":null}");
    assert_eq!(
        LndInvoiceRequest::new(u64::MAX).form(),
        "{\"value\":\"18446744073709551615\",\"memo\":null}"
    );
    let body = LndInvoiceRequestBody::new("5".to_string(), Some("Hello".to_string()));
    assert_eq!(body.to_string().unwrap(), "{\"value\":\"5\",\"memo\":\"Hello\"}");
    assert_eq!(
        LndInvoiceRequest::from_body(body.clone()).form(),
        "{\"value\":\"5\",\"memo\":\"Hello\"}"
    );
    assert_eq!(
        LndInvoiceRequest::checked_from_body(body).unwrap().form(),
        "{\"value\":\"5\",\"memo\":\"Hello\"}"
    );
    let empty = LndInvoiceRequestBody::default();
    assert_eq!(empty.value, "");
    assert_eq!(empty.memo, None);
    assert_eq!(empty.to_string().unwrap(), "{\"value\":\"\",\"memo\":null}");
}

#[test]
fn invoice_request_body_reads_with_or_without_memo() {
    let body: LndInvoiceRequestBody = from_text("{\"value\":\"5\"}").unwrap();
    assert_eq!(body.memo, None);
    let body: LndInvoiceRequestBody = from_text("{\"memo\":\"m\",\"value\":\"5\"}").unwrap();
    assert_eq!(body.memo, Some("m".to_string()));
    assert!(from_text::<LndInvoiceRequestBody>("{\"memo\":\"m\"}").is_err());
    assert!(from_text::<LndInvoiceRequestBody>("\"5\"").is_err());
}

#[test]
fn payment_request_and_response() {
    let request = LndPaymentRequest::new("lnbc1".to_string(), -10, "10".to_string(), false);
    assert_eq!(request.payment_request(), "lnbc1");
    assert_eq!(request.timeout_seconds(), -10);
    assert_eq!(request.fee_limit_sat(), "10");
    assert!(!request.allow_self_payment());
    let text = "{\"payment_request\":\"lnbc1\",\"timeout_seconds\":-10,\"fee_limit_sat\":\"10\",\"allow_self_payment\":false}";
    assert_eq!(request.to_string().unwrap(), text);
    assert_eq!(request.try_into().unwrap(), text);
    let read = LndPaymentRequest::try_from(text.to_string()).unwrap();
    assert_eq!(read.timeout_seconds(), -10);

    let response = LndPaymentResponse::try_from(
        "{\"payment_preimage\":\"00\",\"status\":\"INITIATED\"}".to_string(),
    )
    .unwrap();
    assert_eq!(response.preimage(), "00");
    assert_eq!(response.status(), InvoicePaymentState::Initiaited);
    assert_eq!(
        response.to_string().unwrap(),
        "{\n  \"payment_preimage\": \"00\",\n  \"status\": \"INITIATED\"\n}"
    );
    assert_eq!(InvoicePaymentState::InFlight.to_string().unwrap(), "\"IN_FLIGHT\"");
    assert_eq!(InvoicePaymentState::from_name("FAILED"), Some(InvoicePaymentState::Failed));
    assert_eq!(InvoicePaymentState::Succeeded.as_str(), "SUCCEEDED");
    assert!(LndPaymentResponse::try_from(
        "{\"payment_preimage\":\"00\",\"status\":\"Initiaited\"}".to_string()
    )
    .is_err());
}

fn property(address: &str) -> LndAddressProperty {
    LndAddressProperty {
        address: address.to_string(),
        is_internal: false,
        balance: "0".to_string(),
        derivation_path: "m/86'".to_string(),
        public_key: "02".to_string(),
    }
}

fn account(name: &str, kind: OnchainAddressType, addresses: Vec<LndAddressProperty>) -> AccountWithAddresses {
    AccountWithAddresses {
        name: name.to_string(),
        address_type: kind,
        derivation_path: "m".to_string(),
        addresses,
    }
}

#[test]
fn find_addresses_takes_the_first_matching_account() {
    let response = LndListAddressesResponse {
        account_with_addresses: vec![
            account("default", OnchainAddressType::WitnessPubkeyHash, vec![property("a")]),
            account("other", OnchainAddressType::TaprootPubkey, vec![property("b")]),
            account("default", OnchainAddressType::TaprootPubkey, vec![property("c"), property("d")]),
            account("default", OnchainAddressType::TaprootPubkey, vec![property("e")]),
        ],
    };
    assert_eq!(response.find_account("default", OnchainAddressType::TaprootPubkey), Some(2));
    assert_eq!(
        response.find_addresses("default", OnchainAddressType::TaprootPubkey),
        vec![property("c"), property("d")]
    );
    assert_eq!(
        response.find_addresses("default", OnchainAddressType::WitnessPubkeyHash),
        vec![property("a")]
    );
    assert_eq!(response.find_account("default", OnchainAddressType::Unknown), None);
    assert_eq!(response.find_account("none", OnchainAddressType::TaprootPubkey), None);
}

#[test]
fn list_addresses_reads_and_writes() {
    let text = "{\"account_with_addresses\":[{\"name\":\"default\",\"address_type\":\"HYBRID_NESTED_WITNESS_PUBKEY_HASH\",\"derivation_path\":\"m\",\"addresses\":[{\"address\":\"a\",\"is_internal\":true,\"balance\":\"1\",\"derivation_path\":\"m/0\",\"public_key\":\"03\"}]}]}";
    let response: LndListAddressesResponse = from_text(text).unwrap();
    assert_eq!(
        response.account_with_addresses[0].address_type,
        OnchainAddressType::HybridNestedWitnessPubkeyHash
    );
    assert!(response.account_with_addresses[0].addresses[0].is_internal);
    assert_eq!(to_text(&response).unwrap(), text);
    assert!(to_text_pretty(&response).unwrap().starts_with("{\n  \"account_with_addresses\": [\n    {\n"));
    for (kind, name) in [
        (OnchainAddressType::Unknown, "UNKNOWN"),
        (OnchainAddressType::WitnessPubkeyHash, "WITNESS_PUBKEY_HASH"),
        (OnchainAddressType::NestedWitnessPubkeyHash, "NESTED_WITNESS_PUBKEY_HASH"),
        (OnchainAddressType::HybridNestedWitnessPubkeyHash, "HYBRID_NESTED_WITNESS_PUBKEY_HASH"),
        (OnchainAddressType::TaprootPubkey, "TAPROOT_PUBKEY"),
    ] {
        assert_eq!(kind.as_str(), name);
        assert_eq!(OnchainAddressType::from_name(name), Some(kind));
    }
}

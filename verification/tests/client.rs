use lnd_client::bolt11::Bolt11Fields;
use lnd_client::text::{decimal, hex_decode, hex_encode, is_header_text, str_eq};
use lnd_client::{
    ChannelError, HttpMethod, LightningAddress, LightningClient, LnAddressConfirmation,
    LnAddressError, LnAddressPaymentRequest, LndInvoiceRequestBody, LndNextAddressRequest,
    LookupAction, LookupStage,
};

const INVOICE_WITH_AMOUNT: &str = "lnbc2500u1pvjluezsp5zyg3zyg3zyg3zyg3zyg3zyg3zyg3zyg3zyg3zyg3zyg3zyg3zygspp5qqqsyqcyq5rqwzqfqqqsyqcyq5rqwzqfqqqsyqcyq5rqwzqfqypqdq5xysxxatsyp3k7enxv4jsxqzpu9qrsgquk0rl77nj30yxdy8j9vdx85fkpmdla2087ne0xh8nhedh8w27kyke0lp53ut353s06fv3qfegext0eh0ymjpf39tuven09sam30g4vgpfna3rh";
const INVOICE_WITHOUT_AMOUNT: &str = "lnbc1pvjluezsp5zyg3zyg3zyg3zyg3zyg3zyg3zyg3zyg3zyg3zyg3zyg3zyg3zygspp5qqqsyqcyq5rqwzqfqqqsyqcyq5rqwzqfqqqsyqcyq5rqwzqfqypqdpl2pkx2ctnv5sxxmmwwd5kgetjypeh2ursdae8g6twvus8g6rfwvs8qun0dfjkxaq9qrsgq357wnc5r2ueh7ck6q93dj32dlqnls087fxdwk8qakdyafkq3yap9us6v52vjjsrvywa6rt52cm9r9zqt8r2t7mlcwspyetp5h2tztugp9lfyql";

fn hash() -> Vec<u8> {
    vec![
        0, 1, 2, 3, 4, 5, 6, 7, 8, 9, 0, 1, 2, 3, 4, 5, 6, 7, 8, 9, 0, 1, 2, 3, 4, 5, 6, 7, 8, 9, 1,
        2,
    ]
}

#[test]
fn hex_text_of_bytes() {
    assert_eq!(hex_encode(&vec![]), "");
    assert_eq!(hex_encode(&vec![0x00, 0x0f, 0x10, 0xab, 0xff]), "000f10abff");
    assert_eq!(LightningClient::macaroon(&vec![0x02, 0x01, 0xfe]), "0201fe");
}

#[test]
fn bytes_of_hex_text() {
    assert_eq!(hex_decode(""), Some(vec![]));
    assert_eq!(hex_decode("000f10ABff"), Some(vec![0x00, 0x0f, 0x10, 0xab, 0xff]));
    assert_eq!(hex_decode("abc"), Some(vec![0xab, 0x0c]));
    assert_eq!(hex_decode("+f0a"), Some(vec![0x0f, 0x0a]));
    assert_eq!(hex_decode("f"), Some(vec![0x0f]));
    assert_eq!(hex_decode("0g"), None);
    assert_eq!(hex_decode("-1"), None);
    assert_eq!(hex_decode("1+"), None);
    assert_eq!(hex_decode("+"), None);
    assert_eq!(hex_decode("++"), None);
    assert_eq!(hex_decode("0 "), None);
    assert_eq!(hex_decode("\u{e9}\u{e9}"), None);
}

#[test]
fn decimal_text_of_numbers() {
    assert_eq!(decimal(0), "0");
    assert_eq!(decimal(9), "9");
    assert_eq!(decimal(10), "10");
    assert_eq!(decimal(1000), "1000");
    assert_eq!(decimal(u64::MAX), "18446744073709551615");
}

#[test]
fn header_text_and_equality() {
    assert!(is_header_text(""));
    assert!(is_header_text("abc XYZ~\t09"));
    assert!(!is_header_text("a\nb"));
    assert!(!is_header_text("a\u{0}"));
    assert!(!is_header_text("\u{7f}"));
    assert!(!is_header_text("\u{80}"));
    assert!(str_eq("", ""));
    assert!(str_eq("abc", "abc"));
    assert!(!str_eq("abc", "abd"));
    assert!(!str_eq("abc", "ab"));
}

#[test]
fn bolt11_fields_of_an_invoice() {
    let fields = Bolt11Fields::parse(INVOICE_WITH_AMOUNT).unwrap();
    assert_eq!(fields.payment_hash, hash());
    assert_eq!(fields.amount_msat, Some(250_000_000));
    let open = Bolt11Fields::parse(INVOICE_WITHOUT_AMOUNT).unwrap();
    assert_eq!(open.payment_hash, hash());
    assert_eq!(open.amount_msat, None);
    assert_eq!(Bolt11Fields::parse("lnbc1"), None);
    assert_eq!(Bolt11Fields::parse(""), None);
}

#[test]
fn client_holds_credential_and_headers() {
    let client = LightningClient::new("lnd.example.com", &vec![0x02, 0x01, 0xfe]);
    assert_eq!(client.url(), "lnd.example.com");
    assert!(client.accept_invalid_certs());
    let headers: Vec<(&str, &str, bool)> = client
        .headers()
        .iter()
        .map(|h| (h.name.as_str(), h.value.as_str(), h.sensitive))
        .collect();
    assert_eq!(
        headers,
        vec![
            ("Grpc-Metadata-macaroon", "0201fe", true),
            ("Accept", "application/json", false),
            ("Content-Type", "application/json", false),
        ]
    );
    let mut strict = client.clone();
    strict.set_accept_invalid_certs(false);
    assert!(!strict.accept_invalid_certs());
    assert!(!strict.invoice_channel().unwrap().accept_invalid_certs);

    let dud = LightningClient::dud_server();
    assert_eq!(dud.url(), "localhost:10009");
    assert!(dud.headers().is_empty());
}

#[test]
fn client_requests_without_body() {
    let client = LightningClient::new("h:8080", &vec![1]);
    let request = client.get_info();
    assert_eq!(request.method, HttpMethod::Get);
    assert_eq!(request.url, "https://h:8080/v1/getinfo");
    assert_eq!(request.body, None);
    assert_eq!(client.channel_balance().url, "https://h:8080/v1/balance/channels");
    assert_eq!(client.list_invoices().url, "https://h:8080/v1/invoices");
    assert_eq!(client.list_onchain_addresses().url, "https://h:8080/v2/wallet/addresses");
    let lookup = client.lookup_invoice("-__-ABA=".to_string());
    assert_eq!(lookup.url, "https://h:8080/v2/invoices/lookup?payment_hash=-__-ABA=");
    assert_eq!(lookup.method, HttpMethod::Get);
}

#[test]
fn client_requests_with_body() {
    let client = LightningClient::new("h", &vec![1]);
    let request = client
        .get_invoice(LndInvoiceRequestBody::new("1000".to_string(), Some("Hello".to_string())))
        .unwrap();
    assert_eq!(request.method, HttpMethod::Post);
    assert_eq!(request.url, "https://h/v1/invoices");
    assert_eq!(request.body.unwrap(), "{\"value\":\"1000\",\"memo\":\"Hello\"}");

    let request = client.new_onchain_address(LndNextAddressRequest::default()).unwrap();
    assert_eq!(request.url, "https://h/v2/wallet/address/next");
    assert_eq!(request.body.unwrap(), "{\"account\":\"\",\"type\":\"TAPROOT_PUBKEY\",\"change\":false}");

    let request = client.get_hodl_invoice("aGFzaA==".to_string(), 100).unwrap();
    assert_eq!(request.url, "https://h/v2/invoices/hodl");
    assert_eq!(request.body.unwrap(), "{\"hash\":\"aGFzaA==\",\"value\":100}");

    let request = client.settle_htlc("fbfffe0010".to_string()).unwrap();
    assert_eq!(request.url, "https://h/v2/invoices/settle");
    assert_eq!(request.body.unwrap(), "{\"preimage\":\"-__-ABA=\"}");

    let request = client.cancel_htlc("a\"b".to_string()).unwrap();
    assert_eq!(request.method, HttpMethod::Post);
    assert_eq!(request.url, "https://h/v2/invoices/cancel");
    assert_eq!(request.body.unwrap(), "{\"payment_hash\":\"a\\\"b\"}");
}

#[test]
fn client_stream_requests() {
    let client = LightningClient::new("h", &vec![0xab]);
    let upgrade = client.invoice_channel().unwrap();
    assert_eq!(upgrade.path, "wss://h/v2/router/send?method=POST");
    assert_eq!(upgrade.headers[0].value, "ab");
    assert_eq!(upgrade.headers[2].value, "h");
    let upgrade = client.subscribe_to_invoice("-__-ABA=".to_string()).unwrap();
    assert_eq!(upgrade.path, "wss://h/v2/invoices/subscribe/-__-ABA=");
    assert_eq!(upgrade.method, "GET");
    let broken = LightningClient::new("h\n", &vec![0xab]);
    assert_eq!(broken.invoice_channel().unwrap_err(), ChannelError::HandshakeError);
    assert_eq!(
        broken.subscribe_to_invoice("x".to_string()).unwrap_err(),
        ChannelError::HandshakeError
    );
}

#[test]
fn client_reads_the_invoices_of_a_reply() {
    let reply = "{\"invoices\":[{\"r_preimage\":\"cHJl\",\"r_hash\":\"+//+ABA=\",\"payment_request\":\"lnbc1\",\"add_index\":\"7\",\"payment_addr\":\"YWJj\",\"value\":\"1000\",\"value_msat\":\"1000000\",\"settled\":false,\"creation_date\":\"1700000000\",\"settle_date\":\"0\",\"state\":\"ACCEPTED\"}],\"last_index_offset\":\"7\",\"first_index_offset\":\"7\"}";
    let invoices = LightningClient::list_invoices_reply(reply).unwrap();
    assert_eq!(invoices.len(), 1);
    assert_eq!(invoices[0].add_index, "7");
    assert_eq!(invoices[0].memo, None);
    assert_eq!(
        LightningClient::list_invoices_reply("{\"invoices\":[]}").unwrap_err(),
        ChannelError::SerializationError
    );
}

#[test]
fn address_urls() {
    assert_eq!(
        LnAddressConfirmation::url_for(&LightningAddress("42pupusas@blink.sv")).unwrap(),
        "https://blink.sv/.well-known/lnurlp/42pupusas"
    );
    assert_eq!(
        LnAddressConfirmation::url_for(&LightningAddress("a@b@c")).unwrap(),
        "https://b@c/.well-known/lnurlp/a"
    );
    assert_eq!(
        LnAddressConfirmation::url_for(&LightningAddress("@")).unwrap(),
        "https:///.well-known/lnurlp/"
    );
    assert_eq!(
        LnAddressConfirmation::url_for(&LightningAddress("\u{e9}@\u{fc}.de")).unwrap(),
        "https://\u{fc}.de/.well-known/lnurlp/\u{e9}"
    );
    assert_eq!(
        LnAddressConfirmation::url_for(&LightningAddress("nobody")).unwrap_err(),
        LnAddressError::InvalidAddress
    );
}

#[test]
fn confirmation_checks_the_amount() {
    let text = "{\"callback\":\"https://blink.sv/cb\",\"minSendable\":1000,\"maxSendable\":5000,\"tag\":\"payRequest\"}";
    let confirmation = LnAddressConfirmation::try_from(text.to_string()).unwrap();
    assert_eq!(confirmation.min_sendable, 1000);
    assert_eq!(confirmation.max_sendable, 5000);
    assert_eq!(
        confirmation.to_string().unwrap(),
        "{\"callback\":\"https://blink.sv/cb\",\"minSendable\":1000,\"maxSendable\":5000}"
    );
    assert_eq!(confirmation.payment_url(999).unwrap_err(), LnAddressError::AmountTooLow);
    assert_eq!(confirmation.payment_url(1000).unwrap(), "https://blink.sv/cb?amount=1000");
    assert_eq!(confirmation.payment_url(100000).unwrap(), "https://blink.sv/cb?amount=100000");
    assert!(LnAddressConfirmation::try_from(
        "{\"callback\":\"c\",\"min_sendable\":1,\"max_sendable\":2}".to_string()
    )
    .is_err());
}

#[test]
fn payment_request_hashes() {
    let request = LnAddressPaymentRequest::try_from(format!("{{\"pr\":\"{}\"}}", INVOICE_WITH_AMOUNT)).unwrap();
    assert_eq!(request.pr, INVOICE_WITH_AMOUNT);
    assert_eq!(request.r_hash().unwrap(), "AAECAwQFBgcICQABAgMEBQYHCAkAAQIDBAUGBwgJAQI=");
    assert_eq!(request.r_hash_url_safe().unwrap(), "AAECAwQFBgcICQABAgMEBQYHCAkAAQIDBAUGBwgJAQI=");
    assert_eq!(request.to_string().unwrap(), format!("{{\"pr\":\"{}\"}}", INVOICE_WITH_AMOUNT));
    let broken = LnAddressPaymentRequest { pr: "lnbc1".to_string() };
    assert_eq!(broken.r_hash().unwrap_err(), LnAddressError::InvalidInvoice);
    assert_eq!(broken.r_hash_url_safe().unwrap_err(), LnAddressError::InvalidInvoice);
}

#[test]
fn lookup_runs_in_two_fetches() {
    let (mut lookup, action) = LightningAddress("42pupusas@blink.sv").get_invoice(1000);
    assert!(matches!(action, LookupAction::Fetch(url) if url == "https://blink.sv/.well-known/lnurlp/42pupusas"));
    assert_eq!(lookup.stage(), LookupStage::Confirmation);
    let action = lookup.reply("{\"callback\":\"https://blink.sv/cb\",\"minSendable\":1000,\"maxSendable\":5000}".to_string());
    assert!(matches!(action, LookupAction::Fetch(url) if url == "https://blink.sv/cb?amount=1000"));
    assert_eq!(lookup.stage(), LookupStage::Invoice);
    let action = lookup.reply("{\"pr\":\"lnbc1\",\"routes\":[]}".to_string());
    assert!(matches!(action, LookupAction::Done(request) if request.pr == "lnbc1"));
    assert_eq!(lookup.stage(), LookupStage::Finished);
    let action = lookup.reply("{\"pr\":\"lnbc1\"}".to_string());
    assert!(matches!(action, LookupAction::Fail(LnAddressError::NothingPending)));
}

#[test]
fn lookup_fails_early() {
    let (mut lookup, action) = LightningAddress("nobody").get_invoice(1000);
    assert!(matches!(action, LookupAction::Fail(LnAddressError::InvalidAddress)));
    assert_eq!(lookup.stage(), LookupStage::Finished);
    assert!(matches!(
        lookup.reply("{}".to_string()),
        LookupAction::Fail(LnAddressError::NothingPending)
    ));

    let (mut lookup, _) = LightningAddress("a@b").get_invoice(999);
    let action = lookup.reply("{\"callback\":\"c\",\"minSendable\":1000,\"maxSendable\":5000}".to_string());
    assert!(matches!(action, LookupAction::Fail(LnAddressError::AmountTooLow)));
    assert_eq!(lookup.stage(), LookupStage::Finished);

    let (mut lookup, _) = LightningAddress("a@b").get_invoice(1000);
    let action = lookup.reply("<html>".to_string());
    assert!(matches!(action, LookupAction::Fail(LnAddressError::Malformed)));
    assert_eq!(lookup.stage(), LookupStage::Finished);

    let (mut lookup, _) = LightningAddress("a@b").get_invoice(1000);
    lookup.reply("{\"callback\":\"c\",\"minSendable\":1000,\"maxSendable\":5000}".to_string());
    let action = lookup.reply("{\"status\":\"ERROR\"}".to_string());
    assert!(matches!(action, LookupAction::Fail(LnAddressError::Malformed)));
    assert_eq!(lookup.stage(), LookupStage::Finished);
}

use base64::Engine;

use smtp_relay::azure::{
    serialize_message, AzureMailAddress, AzureMailClient, AzureMailContent, AzureMailMessage,
    AzureMailRecipients, DeliveryError,
};
use smtp_relay::date::{format_rfc1123, DateTimeParts};

fn sample_message() -> AzureMailMessage {
    AzureMailMessage {
        sender_address: "sender@example.com".to_string(),
        headers: Some(vec![("Subject".to_string(), "Hi".to_string())]),
        recipients: AzureMailRecipients {
            to: vec![AzureMailAddress::new("rcpt@example.com".to_string())],
            cc: None,
            bcc: None,
        },
        reply_to: None,
        content: AzureMailContent {
            subject: "Hi".to_string(),
            plain_text: Some("hello".to_string()),
            html: None,
        },
    }
}

// base64 of "secretkey"
const KEY: &str = "c2VjcmV0a2V5";

#[test]
fn serializer_produces_the_exact_wire_shape() {
    let json = serialize_message(&sample_message());
    let expected = "{\"senderAddress\":\"sender@example.com\",\"headers\":{\"Subject\":\"Hi\"},\"recipients\":{\"to\":[{\"address\":\"rcpt@example.com\"}]},\"content\":{\"subject\":\"Hi\",\"plainText\":\"hello\"}}";
    assert_eq!(json, expected);
}

#[test]
fn serializer_includes_optional_fields_when_present() {
    let msg = AzureMailMessage {
        sender_address: "s@e".to_string(),
        headers: None,
        recipients: AzureMailRecipients {
            to: vec![
                AzureMailAddress::with_display_name("a@b".to_string(), "Ann".to_string()),
                AzureMailAddress::new("c@d".to_string()),
            ],
            cc: Some(vec![AzureMailAddress::new("e@f".to_string())]),
            bcc: None,
        },
        reply_to: Some(AzureMailAddress::new("reply@e".to_string())),
        content: AzureMailContent {
            subject: "S".to_string(),
            plain_text: None,
            html: Some("<b>x</b>".to_string()),
        },
    };
    let json = serialize_message(&msg);
    let expected = "{\"senderAddress\":\"s@e\",\"recipients\":{\"to\":[{\"address\":\"a@b\",\"displayName\":\"Ann\"},{\"address\":\"c@d\"}],\"cc\":[{\"address\":\"e@f\"}]},\"replyTo\":{\"address\":\"reply@e\"},\"content\":{\"subject\":\"S\",\"html\":\"<b>x</b>\"}}";
    assert_eq!(json, expected);
}

#[test]
fn serializer_escapes_string_values_like_a_json_encoder() {
    let mut msg = sample_message();
    msg.content.subject = "a\"b\\c\nd\te\r\u{8}\u{c}\u{1}x".to_string();
    msg.content.plain_text = Some("unicode \u{e9}\u{4e16} stays".to_string());
    let json = serialize_message(&msg);
    assert!(json.contains("\\\"b\\\\c\\nd\\te\\r\\b\\f\\u0001x"));
    // the output is valid JSON and round-trips the values
    let parsed: serde_json::Value = serde_json::from_str(&json).expect("valid JSON owed");
    assert_eq!(
        parsed["content"]["subject"].as_str(),
        Some("a\"b\\c\nd\te\r\u{8}\u{c}\u{1}x")
    );
    assert_eq!(
        parsed["content"]["plainText"].as_str(),
        Some("unicode \u{e9}\u{4e16} stays")
    );
    assert_eq!(parsed["senderAddress"].as_str(), Some("sender@example.com"));
    assert_eq!(parsed["recipients"]["to"][0]["address"].as_str(), Some("rcpt@example.com"));
}

#[test]
fn canonical_string_has_the_exact_format() {
    let s = AzureMailClient::build_string_to_sign(
        "/?api-version=2023-03-31",
        "Sun, 06 Nov 1994 08:49:37 GMT",
        "example.com",
        "HASH",
    );
    assert_eq!(
        s,
        "POST\n/?api-version=2023-03-31\nSun, 06 Nov 1994 08:49:37 GMT;example.com;HASH"
    );
}

#[test]
fn signature_is_deterministic_and_matches_a_direct_computation() {
    let client = AzureMailClient::new("https://acs.example.com", KEY);
    let data = "POST\n/x\ndate;host;hash".to_string();
    let sig1 = client.compute_signature(&data).expect("a valid key signs");
    let sig2 = client.compute_signature(&data).expect("a valid key signs");
    assert_eq!(sig1, sig2);
    let raw_key = base64::engine::general_purpose::STANDARD.decode(KEY).unwrap();
    let expected = base64::engine::general_purpose::STANDARD
        .encode(hmac_sha256::HMAC::mac(data.as_bytes(), &raw_key));
    assert_eq!(sig1, expected);
    // a different canonical string signs differently
    let other = client.compute_signature(&"POST\n/y\ndate;host;hash".to_string()).unwrap();
    assert_ne!(sig1, other);
}

#[test]
fn invalid_base64_key_is_rejected() {
    let client = AzureMailClient::new("https://acs.example.com", "!!!not-base64!!!");
    let err = client.compute_signature(&"anything".to_string()).unwrap_err();
    assert_eq!(err, DeliveryError::InvalidKey);
    assert_eq!(err.describe(), "access key is not valid base64");
    let err2 = client.prepare_request(
        &sample_message(),
        &"Sun, 06 Nov 1994 08:49:37 GMT".to_string(),
        &"11111111-2222-3333-4444-555555555555".to_string(),
    );
    assert_eq!(err2.unwrap_err(), DeliveryError::InvalidKey);
}

#[test]
fn invalid_endpoint_is_rejected() {
    let client = AzureMailClient::new("not a url", KEY);
    let err = client
        .prepare_request(
            &sample_message(),
            &"Sun, 06 Nov 1994 08:49:37 GMT".to_string(),
            &"11111111-2222-3333-4444-555555555555".to_string(),
        )
        .unwrap_err();
    assert_eq!(err, DeliveryError::InvalidUrl);
    assert_eq!(err.describe(), "invalid endpoint URL");
}

#[test]
fn endpoint_without_a_host_is_rejected() {
    let client = AzureMailClient::new("data:text/plain,x", KEY);
    let err = client
        .prepare_request(
            &sample_message(),
            &"Sun, 06 Nov 1994 08:49:37 GMT".to_string(),
            &"11111111-2222-3333-4444-555555555555".to_string(),
        )
        .unwrap_err();
    assert_eq!(err, DeliveryError::MissingHost);
    assert_eq!(err.describe(), "unable to parse host");
}

#[test]
fn prepared_request_lays_out_url_headers_and_body() {
    let client = AzureMailClient::new("https://acs.example.com", KEY);
    let date = "Sun, 06 Nov 1994 08:49:37 GMT".to_string();
    let rid = "11111111-2222-3333-4444-555555555555".to_string();
    let req = client.prepare_request(&sample_message(), &date, &rid).expect("prepares");
    assert_eq!(req.url, "https://acs.example.com/?api-version=2023-03-31");
    assert_eq!(req.body, serialize_message(&sample_message()));
    let names: Vec<&str> = req.headers.iter().map(|h| h.0.as_str()).collect();
    assert_eq!(
        names,
        vec![
            "Authorization",
            "x-ms-date",
            "x-ms-content-sha256",
            "Repeatability-Request-Id",
            "Repeatability-First-Sent",
            "Content-Type",
        ]
    );
    assert_eq!(req.headers[1].1, date);
    assert_eq!(req.headers[3].1, rid);
    assert_eq!(req.headers[4].1, date);
    assert_eq!(req.headers[5].1, "application/json");
    // the content digest is base64(SHA-256(body))
    let expected_hash = base64::engine::general_purpose::STANDARD
        .encode(hmac_sha256::Hash::hash(req.body.as_bytes()));
    assert_eq!(req.headers[2].1, expected_hash);
    // the signature covers exactly the canonical string of this request
    let canonical = AzureMailClient::build_string_to_sign(
        "/?api-version=2023-03-31",
        &date,
        "acs.example.com",
        &expected_hash,
    );
    let sig = client.compute_signature(&canonical).unwrap();
    assert_eq!(
        req.headers[0].1,
        format!(
            "HMAC-SHA256 SignedHeaders=x-ms-date;host;x-ms-content-sha256&Signature={}",
            sig
        )
    );
}

#[test]
fn changing_one_body_byte_changes_the_content_hash_and_signature() {
    let client = AzureMailClient::new("https://acs.example.com", KEY);
    let date = "Sun, 06 Nov 1994 08:49:37 GMT".to_string();
    let rid = "11111111-2222-3333-4444-555555555555".to_string();
    let mut msg2 = sample_message();
    msg2.content.subject = "Hj".to_string();
    let r1 = client.prepare_request(&sample_message(), &date, &rid).unwrap();
    let r2 = client.prepare_request(&msg2, &date, &rid).unwrap();
    assert_ne!(r1.headers[2].1, r2.headers[2].1, "content hash must move with the body");
    assert_ne!(r1.headers[0].1, r2.headers[0].1, "signature must move with the hash");
}

#[test]
fn build_request_stamps_a_fresh_token_and_a_formatted_date() {
    let client = AzureMailClient::new("https://acs.example.com", KEY);
    let r1 = client.build_request(&sample_message()).expect("builds");
    let r2 = client.build_request(&sample_message()).expect("builds");
    let rid1 = &r1.headers[3].1;
    let rid2 = &r2.headers[3].1;
    assert_eq!(rid1.len(), 36);
    assert_ne!(rid1, rid2, "each call draws a fresh token");
    let date = &r1.headers[1].1;
    assert!(date.ends_with(" GMT"));
    assert_eq!(date.len(), 29);
    assert_eq!(&date[3..5], ", ");
    assert_eq!(r1.headers[4].1, *date);
}

#[test]
fn rfc1123_formatting_is_exact() {
    let p = DateTimeParts { year: 1994, month: 11, day: 6, hour: 8, minute: 49, second: 37, weekday: 0 };
    assert_eq!(format_rfc1123(&p), "Sun, 06 Nov 1994 08:49:37 GMT");
    let p2 = DateTimeParts { year: 26, month: 1, day: 31, hour: 23, minute: 5, second: 0, weekday: 6 };
    assert_eq!(format_rfc1123(&p2), "Sat, 31 Jan 0026 23:05:00 GMT");
}

use smtp_relay::mail::{build_header_map, from_mime, get_content, unsupported_marker_str, MailPart};

fn leaf(mimetype: &str, body: &str) -> MailPart {
    MailPart { mimetype: mimetype.to_string(), body: body.to_string(), subparts: Vec::new() }
}

#[test]
fn extractor_finds_the_html_child_of_a_multipart_root() {
    let root = MailPart {
        mimetype: "multipart/mixed".to_string(),
        body: "".to_string(),
        subparts: vec![leaf("text/plain", "hi"), leaf("text/html", "<p>hi</p>")],
    };
    assert_eq!(get_content(&root, &"text/html".to_string()), "<p>hi</p>");
    assert_eq!(get_content(&root, &"text/plain".to_string()), "hi");
    assert_eq!(get_content(&root, &"text/calendar".to_string()), "");
}

#[test]
fn extractor_prefers_the_first_match_in_preorder() {
    let root = MailPart {
        mimetype: "multipart/alternative".to_string(),
        body: "".to_string(),
        subparts: vec![
            MailPart {
                mimetype: "multipart/related".to_string(),
                body: "".to_string(),
                subparts: vec![leaf("text/plain", "nested first")],
            },
            leaf("text/plain", "outer second"),
        ],
    };
    assert_eq!(get_content(&root, &"text/plain".to_string()), "nested first");
}

#[test]
fn extractor_skips_a_matching_node_with_an_empty_body() {
    let root = MailPart {
        mimetype: "text/plain".to_string(),
        body: "".to_string(),
        subparts: vec![leaf("text/plain", "from the child")],
    };
    assert_eq!(get_content(&root, &"text/plain".to_string()), "from the child");
}

#[test]
fn header_map_overwrites_later_duplicates_in_place() {
    let lines = vec![
        ("Subject".to_string(), "first".to_string()),
        ("From".to_string(), "a@b".to_string()),
        ("Subject".to_string(), "second".to_string()),
    ];
    let map = build_header_map(&lines);
    assert_eq!(
        map,
        vec![
            ("Subject".to_string(), "second".to_string()),
            ("From".to_string(), "a@b".to_string()),
        ]
    );
}

#[test]
fn converter_builds_the_document_from_a_plain_text_message() {
    let raw = "Subject: Greetings\r\nFrom: someone@example.com\r\n\r\nHello there\r\n".to_string();
    let msg = from_mime(
        "sender@example.com".to_string(),
        &vec!["rcpt@example.com".to_string()],
        &raw,
    )
    .expect("a plain message parses");
    assert_eq!(msg.sender_address, "sender@example.com");
    assert_eq!(msg.recipients.to.len(), 1);
    assert_eq!(msg.recipients.to[0].address, "rcpt@example.com");
    assert!(msg.recipients.to[0].display_name.is_none());
    assert!(msg.recipients.cc.is_none());
    assert!(msg.recipients.bcc.is_none());
    assert!(msg.reply_to.is_none());
    assert_eq!(msg.content.subject, "Greetings");
    assert_eq!(msg.content.plain_text.as_deref(), Some("Hello there\r\n"));
    assert!(msg.content.html.is_none());
    let headers = msg.headers.expect("headers are always attached");
    assert!(headers.contains(&("Subject".to_string(), "Greetings".to_string())));
}

#[test]
fn converter_takes_both_bodies_from_a_multipart_message() {
    let raw = "Subject: Both\r\nContent-Type: multipart/alternative; boundary=\"sep\"\r\n\r\n--sep\r\nContent-Type: text/plain\r\n\r\nplain body\r\n--sep\r\nContent-Type: text/html\r\n\r\n<p>html body</p>\r\n--sep--\r\n".to_string();
    let msg = from_mime("s@e".to_string(), &vec!["r@e".to_string()], &raw)
        .expect("a multipart message parses");
    assert_eq!(msg.content.plain_text.as_deref(), Some("plain body"));
    assert_eq!(msg.content.html.as_deref(), Some("<p>html body</p>"));
}

#[test]
fn converter_marks_unsupported_content_types() {
    let raw = "Subject: doc\r\nContent-Type: application/pdf\r\n\r\nPDFBYTES\r\n".to_string();
    let msg = from_mime("s@e".to_string(), &vec!["r@e".to_string()], &raw)
        .expect("the message parses");
    assert!(msg.content.html.is_none());
    let plain = msg.content.plain_text.expect("the marker goes in the plain-text slot");
    assert!(plain.starts_with(unsupported_marker_str()));
    assert!(plain.contains("PDFBYTES"));
}

#[test]
fn converter_defaults_the_subject_to_empty() {
    let raw = "From: someone@example.com\r\n\r\nbody\r\n".to_string();
    let msg = from_mime("s@e".to_string(), &vec!["r@e".to_string()], &raw)
        .expect("the message parses");
    assert_eq!(msg.content.subject, "");
}

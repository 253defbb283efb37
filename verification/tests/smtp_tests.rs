use smtp_relay::smtp::{LineOutcome, SmtpServer, SmtpState};

fn server() -> SmtpServer {
    SmtpServer::new(&"smtp.domain.com".to_string())
}

fn feed(s: &mut SmtpServer, line: &str) -> LineOutcome {
    s.handle_line(&line.to_string())
}

#[test]
fn helo_greets_from_fresh() {
    let mut s = server();
    let out = feed(&mut s, "HELO client.example\r\n");
    assert_eq!(out.reply, "250 OK\r\n");
    assert_eq!(s.state, SmtpState::Greeted);
    assert!(!out.close);
    assert!(out.completed.is_none());
}

#[test]
fn ehlo_names_the_domain() {
    let mut s = server();
    let out = feed(&mut s, "EHLO client.example\r\n");
    assert_eq!(
        out.reply,
        "250-smtp.domain.com Hello smtp.domain.com\r\n250 AUTH PLAIN LOGIN\r\n"
    );
    assert_eq!(s.state, SmtpState::Greeted);
}

#[test]
fn helo_out_of_state_gets_no_reply() {
    let mut s = server();
    feed(&mut s, "HELO x\r\n");
    let out = feed(&mut s, "HELO x\r\n");
    assert_eq!(out.reply, "");
    assert_eq!(s.state, SmtpState::Greeted);
}

#[test]
fn noop_family_replies_ok_in_any_state() {
    let mut s = server();
    for cmd in ["NOOP", "HELP", "INFO", "VRFY", "EXPN"] {
        let out = feed(&mut s, &format!("{}\r\n", cmd));
        assert_eq!(out.reply, "250 OK\r\n");
        assert_eq!(s.state, SmtpState::Fresh);
    }
    feed(&mut s, "HELO x\r\n");
    let out = feed(&mut s, "NOOP\r\n");
    assert_eq!(out.reply, "250 OK\r\n");
    assert_eq!(s.state, SmtpState::Greeted);
}

#[test]
fn auth_is_acknowledged_unchecked() {
    let mut s = server();
    let out = feed(&mut s, "AUTH PLAIN dGVzdA==\r\n");
    assert_eq!(out.reply, "235 OK\r\n");
    assert_eq!(s.state, SmtpState::Fresh);
}

#[test]
fn mail_sets_sender_and_moves_to_rcpt() {
    let mut s = server();
    feed(&mut s, "HELO x\r\n");
    let out = feed(&mut s, "MAIL FROM:<A@B.example>\r\n");
    assert_eq!(out.reply, "250 OK\r\n");
    assert_eq!(s.state, SmtpState::Rcpt);
    assert_eq!(s.mail.from.as_deref(), Some("<a@b.example>"));
}

#[test]
fn mail_without_address_yields_no_reply_and_stays_greeted() {
    let mut s = server();
    feed(&mut s, "HELO x\r\n");
    let out = feed(&mut s, "MAIL FROM:\r\n");
    assert_eq!(out.reply, "");
    assert_eq!(s.state, SmtpState::Greeted);
    assert!(s.mail.from.is_none());
}

#[test]
fn rcpt_without_address_yields_no_reply() {
    let mut s = server();
    feed(&mut s, "HELO x\r\n");
    feed(&mut s, "MAIL FROM:<a@b>\r\n");
    let out = feed(&mut s, "RCPT TO:\r\n");
    assert_eq!(out.reply, "");
    assert_eq!(s.state, SmtpState::Rcpt);
    assert!(s.mail.to.is_empty());
}

#[test]
fn rcpt_appends_recipients_in_order() {
    let mut s = server();
    feed(&mut s, "HELO x\r\n");
    feed(&mut s, "MAIL FROM:<a@b>\r\n");
    feed(&mut s, "RCPT TO:<C@D>\r\n");
    feed(&mut s, "RCPT TO:<e@f>\r\n");
    assert_eq!(s.mail.to, vec!["<c@d>".to_string(), "<e@f>".to_string()]);
    assert_eq!(s.state, SmtpState::Rcpt);
}

#[test]
fn mail_in_wrong_state_is_ignored() {
    let mut s = server();
    let out = feed(&mut s, "MAIL FROM:<a@b>\r\n");
    assert_eq!(out.reply, "");
    assert_eq!(s.state, SmtpState::Fresh);
    assert!(s.mail.from.is_none());
}

#[test]
fn data_asks_for_the_body() {
    let mut s = server();
    feed(&mut s, "HELO x\r\n");
    feed(&mut s, "MAIL FROM:<a@b>\r\n");
    feed(&mut s, "RCPT TO:<c@d>\r\n");
    let out = feed(&mut s, "DATA\r\n");
    assert_eq!(out.reply, "354 End data with <CR><LF>.<CR><LF>\r\n");
    assert_eq!(s.state, SmtpState::Data);
}

#[test]
fn full_session_completes_once_with_the_assembled_message() {
    let mut s = server();
    assert!(feed(&mut s, "HELO x\r\n").completed.is_none());
    assert!(feed(&mut s, "MAIL FROM:<a@b>\r\n").completed.is_none());
    assert!(feed(&mut s, "RCPT TO:<c@d>\r\n").completed.is_none());
    assert!(feed(&mut s, "DATA\r\n").completed.is_none());
    assert!(feed(&mut s, "line one\r\n").completed.is_none());
    assert!(feed(&mut s, "line two\r\n").completed.is_none());
    let out = feed(&mut s, ".\r\n");
    assert_eq!(out.reply, "250 OK\r\n");
    let mail = out.completed.expect("completion owed at the dot line");
    assert_eq!(mail.from.as_deref(), Some("<a@b>"));
    assert_eq!(mail.to, vec!["<c@d>".to_string()]);
    assert_eq!(mail.data.as_deref(), Some("line one\r\nline two\r\n"));
    assert_eq!(s.state, SmtpState::Fresh);
    assert!(s.mail.from.is_none());
    assert!(s.mail.to.is_empty());
    assert!(s.mail.data.is_none());
}

#[test]
fn body_lines_keep_their_terminators_verbatim() {
    let mut s = server();
    feed(&mut s, "HELO x\r\n");
    feed(&mut s, "MAIL FROM:<a@b>\r\n");
    feed(&mut s, "RCPT TO:<c@d>\r\n");
    feed(&mut s, "DATA\r\n");
    let out = feed(&mut s, "Hello: World  test\r\n");
    assert_eq!(out.reply, "");
    assert_eq!(s.mail.data.as_deref(), Some("Hello: World  test\r\n"));
}

#[test]
fn rset_returns_to_fresh_and_clears_from_every_state() {
    // from Fresh
    let mut s = server();
    let out = feed(&mut s, "RSET\r\n");
    assert_eq!(out.reply, "250 OK\r\n");
    assert_eq!(s.state, SmtpState::Fresh);
    // from Greeted
    feed(&mut s, "HELO x\r\n");
    feed(&mut s, "RSET\r\n");
    assert_eq!(s.state, SmtpState::Fresh);
    // from Rcpt, with an envelope to discard
    feed(&mut s, "HELO x\r\n");
    feed(&mut s, "MAIL FROM:<a@b>\r\n");
    feed(&mut s, "RCPT TO:<c@d>\r\n");
    feed(&mut s, "RSET\r\n");
    assert_eq!(s.state, SmtpState::Fresh);
    assert!(s.mail.from.is_none());
    assert!(s.mail.to.is_empty());
    // from Data, with a partial body
    feed(&mut s, "HELO x\r\n");
    feed(&mut s, "MAIL FROM:<a@b>\r\n");
    feed(&mut s, "RCPT TO:<c@d>\r\n");
    feed(&mut s, "DATA\r\n");
    feed(&mut s, "some body\r\n");
    let out = feed(&mut s, "RSET\r\n");
    assert_eq!(out.reply, "250 OK\r\n");
    assert_eq!(s.state, SmtpState::Fresh);
    assert!(s.mail.data.is_none());
}

#[test]
fn quit_outside_data_closes_without_completion() {
    let mut s = server();
    feed(&mut s, "HELO x\r\n");
    let out = feed(&mut s, "QUIT\r\n");
    assert_eq!(out.reply, "221 Bye\r\n");
    assert!(out.close);
    assert!(out.completed.is_none());
}

#[test]
fn quit_during_data_completes_then_closes() {
    let mut s = server();
    feed(&mut s, "HELO x\r\n");
    feed(&mut s, "MAIL FROM:<a@b>\r\n");
    feed(&mut s, "RCPT TO:<c@d>\r\n");
    feed(&mut s, "DATA\r\n");
    feed(&mut s, "body\r\n");
    let out = feed(&mut s, "QUIT\r\n");
    assert_eq!(out.reply, "221 Bye\r\n");
    assert!(out.close);
    let mail = out.completed.expect("completion owed at QUIT in Data");
    assert_eq!(mail.data.as_deref(), Some("body\r\n"));
    assert_eq!(s.state, SmtpState::Fresh);
}

#[test]
fn unknown_command_gets_no_reply() {
    let mut s = server();
    let out = feed(&mut s, "BOGUS something\r\n");
    assert_eq!(out.reply, "");
    assert_eq!(s.state, SmtpState::Fresh);
}

#[test]
fn commands_match_case_insensitively() {
    let mut s = server();
    let out = feed(&mut s, "helo x\r\n");
    assert_eq!(out.reply, "250 OK\r\n");
    assert_eq!(s.state, SmtpState::Greeted);
}

#[test]
fn a_second_message_can_follow_a_completed_one() {
    let mut s = server();
    feed(&mut s, "HELO x\r\n");
    feed(&mut s, "MAIL FROM:<a@b>\r\n");
    feed(&mut s, "RCPT TO:<c@d>\r\n");
    feed(&mut s, "DATA\r\n");
    feed(&mut s, "first\r\n");
    assert!(feed(&mut s, ".\r\n").completed.is_some());
    // the session is back at Fresh: a new cycle works
    feed(&mut s, "HELO x\r\n");
    feed(&mut s, "MAIL FROM:<e@f>\r\n");
    feed(&mut s, "RCPT TO:<g@h>\r\n");
    feed(&mut s, "DATA\r\n");
    feed(&mut s, "second\r\n");
    let out = feed(&mut s, ".\r\n");
    let mail = out.completed.expect("second completion owed");
    assert_eq!(mail.from.as_deref(), Some("<e@f>"));
    assert_eq!(mail.data.as_deref(), Some("second\r\n"));
}

#[test]
fn tokenize_splits_on_whitespace_and_colons() {
    let tokens = smtp_relay::smtp::tokenize("MAIL FROM:<a@b>  extra\r\n");
    assert_eq!(
        tokens,
        vec!["MAIL".to_string(), "FROM".to_string(), "<a@b>".to_string(), "extra".to_string()]
    );
    let empty = smtp_relay::smtp::tokenize("  : :: \r\n");
    assert!(empty.is_empty());
}

//! The inbound submission-session state machine.
//!
//! A session reads one line at a time. Each line is tokenized by splitting
//! on white space and on colons, the first token (lower-cased) is the
//! command, and dispatch goes by command and current state. Malformed or
//! out-of-state commands deliberately get no reply at all; this mirrors a
//! known protocol-compliance gap of the relay and is preserved on purpose.

use vstd::prelude::*;

use crate::text::{char_is_whitespace, is_unicode_whitespace, lower_of, lowercase, push_char,
    str_eq};

verus! {

broadcast use vstd::string::group_string_axioms;

/// The session states. `Fresh` is initial; there is no terminal state,
/// closing the connection is the terminal event.
#[derive(Clone, Copy, Debug, PartialEq, Eq, Structural)]
pub enum SmtpState {
    Fresh,
    Greeted,
    Rcpt,
    Data,
}

/// The assembled message of one submission cycle: recipient list, optional
/// sender, and the accumulated data lines (with their line terminators).
#[derive(Clone, Debug, PartialEq, Eq)]
pub struct SmtpMail {
    pub to: Vec<String>,
    pub from: Option<String>,
    pub data: Option<String>,
}

/// The mathematical shape of an `SmtpMail`.
pub ghost struct SmtpMailView {
    pub to: Seq<Seq<char>>,
    pub from: Option<Seq<char>>,
    pub data: Option<Seq<char>>,
}

impl View for SmtpMail {
    type V = SmtpMailView;

    open spec fn view(&self) -> SmtpMailView {
        SmtpMailView {
            to: self.to.deep_view(),
            from: self.from.deep_view(),
            data: self.data.deep_view(),
        }
    }
}

/// The empty envelope and body, as held by a fresh session.
pub open spec fn empty_mail_view() -> SmtpMailView {
    SmtpMailView { to: Seq::empty(), from: None, data: None }
}

/// A token separator: Unicode white space or a colon.
pub open spec fn is_sep(c: char) -> bool {
    is_unicode_whitespace(c) || c == ':'
}

/// One step of left-to-right tokenization: `acc.0` holds the finished
/// tokens, `acc.1` the token being read.
pub open spec fn tok_step(acc: (Seq<Seq<char>>, Seq<char>), c: char) -> (Seq<Seq<char>>, Seq<
    char,
>) {
    if is_sep(c) {
        if acc.1.len() == 0 {
            (acc.0, Seq::empty())
        } else {
            (acc.0.push(acc.1), Seq::empty())
        }
    } else {
        (acc.0, acc.1.push(c))
    }
}

/// Tokenization state after reading all of `s`.
pub open spec fn tok_run(s: Seq<char>) -> (Seq<Seq<char>>, Seq<char>)
    decreases s.len(),
{
    if s.len() == 0 {
        (Seq::empty(), Seq::empty())
    } else {
        tok_step(tok_run(s.drop_last()), s.last())
    }
}

/// The tokens of a line: maximal runs of non-separator characters, in
/// order; empty tokens are discarded.
pub open spec fn spec_tokens(s: Seq<char>) -> Seq<Seq<char>> {
    let (tokens, cur) = tok_run(s);
    if cur.len() == 0 {
        tokens
    } else {
        tokens.push(cur)
    }
}

/// The command of a line: its first token, lower-cased; empty if the line
/// has no tokens.
pub open spec fn spec_command(line: Seq<char>) -> Seq<char> {
    if spec_tokens(line).len() == 0 {
        Seq::empty()
    } else {
        lower_of(spec_tokens(line)[0])
    }
}

/// The address argument of a MAIL or RCPT line: the token at index 2,
/// lower-cased; empty if that token is absent.
pub open spec fn spec_address(line: Seq<char>) -> Seq<char> {
    if spec_tokens(line).len() <= 2 {
        Seq::empty()
    } else {
        lower_of(spec_tokens(line)[2])
    }
}

/// Tokenizes a line by splitting on white space and colons, discarding
/// empty tokens.
pub fn tokenize(line: &str) -> (tokens: Vec<String>)
    ensures
        tokens.deep_view() == spec_tokens(line@),
{
    let n = line.unicode_len();
    let mut tokens: Vec<String> = Vec::new();
    let mut cur = String::new();
    let mut i: usize = 0;
    proof {
        assert(line@.take(0) =~= Seq::<char>::empty());
    }
    while i < n
        invariant
            n == line@.len(),
            0 <= i <= n,
            tokens.deep_view() == tok_run(line@.take(i as int)).0,
            cur@ == tok_run(line@.take(i as int)).1,
        decreases n - i,
    {
        let ghost prefix = line@.take(i as int);
        let c = line.get_char(i);
        proof {
            assert(line@.take(i + 1).drop_last() =~= prefix);
            assert(line@.take(i + 1).last() == line@[i as int]);
        }
        if char_is_whitespace(c) || c == ':' {
            if !cur.as_str().is_empty() {
                let ghost old_dv = tokens.deep_view();
                let done = cur;
                cur = String::new();
                tokens.push(done);
                proof {
                    assert(tokens.deep_view() =~= old_dv.push(done@));
                }
            }
        } else {
            push_char(&mut cur, c);
        }
        i = i + 1;
    }
    proof {
        assert(line@.take(n as int) =~= line@);
    }
    if !cur.as_str().is_empty() {
        let ghost old_dv = tokens.deep_view();
        let ghost cur_v = cur@;
        tokens.push(cur);
        proof {
            assert(tokens.deep_view() =~= old_dv.push(cur_v));
        }
    }
    tokens
}

/// The greeting written when a connection is accepted.
pub open spec fn hello_reply() -> Seq<char> {
    "220 Simple SMTP Relay Server\r\n"@
}

/// The generic positive reply.
pub open spec fn ok_reply() -> Seq<char> {
    "250 OK\r\n"@
}

/// The reply acknowledging AUTH; credentials are accepted unchecked.
pub open spec fn auth_ok_reply() -> Seq<char> {
    "235 OK\r\n"@
}

/// The reply that starts body collection.
pub open spec fn send_data_reply() -> Seq<char> {
    "354 End data with <CR><LF>.<CR><LF>\r\n"@
}

/// The closing reply, after which the transport is shut down.
pub open spec fn bye_reply() -> Seq<char> {
    "221 Bye\r\n"@
}

/// The multi-line EHLO greeting naming the relay's domain.
pub open spec fn ehlo_reply(domain: Seq<char>) -> Seq<char> {
    "250-"@ + domain + " Hello "@ + domain + "\r\n250 AUTH PLAIN LOGIN\r\n"@
}

/// The exec form of the greeting written when a connection is accepted.
pub fn connect_greeting() -> (r: &'static str)
    ensures
        r@ == hello_reply(),
{
    "220 Simple SMTP Relay Server\r\n"
}

/// What one line does to a session: the next state and envelope, the reply
/// (empty means that no bytes are sent), the message completed by this
/// line, if any, and whether the transport is to be closed.
pub ghost struct StepResult {
    pub state: SmtpState,
    pub mail: SmtpMailView,
    pub reply: Seq<char>,
    pub completed: Option<SmtpMailView>,
    pub close: bool,
}

/// A step that only replies, leaving state and envelope alone.
pub open spec fn reply_step(state: SmtpState, mail: SmtpMailView, reply: Seq<char>) -> StepResult {
    StepResult { state, mail, reply, completed: None, close: false }
}

/// The dispatch table of the session: the exact effect of one input line
/// on a session in the given state, holding the given envelope, for a
/// relay advertising the given domain.
pub open spec fn spec_step(
    state: SmtpState,
    mail: SmtpMailView,
    domain: Seq<char>,
    line: Seq<char>,
) -> StepResult {
    let cmd = spec_command(line);
    if cmd == "helo"@ && state == SmtpState::Fresh {
        reply_step(SmtpState::Greeted, mail, ok_reply())
    } else if cmd == "ehlo"@ && state == SmtpState::Fresh {
        reply_step(SmtpState::Greeted, mail, ehlo_reply(domain))
    } else if cmd == "noop"@ || cmd == "help"@ || cmd == "info"@ || cmd == "vrfy"@ || cmd
        == "expn"@ {
        reply_step(state, mail, ok_reply())
    } else if cmd == "rset"@ {
        reply_step(SmtpState::Fresh, empty_mail_view(), ok_reply())
    } else if cmd == "auth"@ {
        reply_step(state, mail, auth_ok_reply())
    } else if cmd == "mail"@ && state == SmtpState::Greeted {
        let addr = spec_address(line);
        if addr.len() == 0 {
            reply_step(state, mail, Seq::empty())
        } else {
            reply_step(
                SmtpState::Rcpt,
                SmtpMailView { from: Some(addr), ..mail },
                ok_reply(),
            )
        }
    } else if cmd == "rcpt"@ && state == SmtpState::Rcpt {
        let addr = spec_address(line);
        if addr.len() == 0 {
            reply_step(state, mail, Seq::empty())
        } else {
            reply_step(state, SmtpMailView { to: mail.to.push(addr), ..mail }, ok_reply())
        }
    } else if cmd == "data"@ && state == SmtpState::Rcpt {
        reply_step(SmtpState::Data, mail, send_data_reply())
    } else if cmd == "."@ && state == SmtpState::Data {
        StepResult {
            state: SmtpState::Fresh,
            mail: empty_mail_view(),
            reply: ok_reply(),
            completed: Some(mail),
            close: false,
        }
    } else if cmd == "quit"@ && state == SmtpState::Data {
        StepResult {
            state: SmtpState::Fresh,
            mail: empty_mail_view(),
            reply: bye_reply(),
            completed: Some(mail),
            close: true,
        }
    } else if state == SmtpState::Data {
        let appended = match mail.data {
            Some(d) => d + line,
            None => line,
        };
        reply_step(state, SmtpMailView { data: Some(appended), ..mail }, Seq::empty())
    } else if cmd == "quit"@ {
        StepResult { state, mail, reply: bye_reply(), completed: None, close: true }
    } else {
        reply_step(state, mail, Seq::empty())
    }
}

/// Issuing RSET returns any session to `Fresh` with a cleared envelope
/// and body, answered by the generic OK reply.
pub proof fn lemma_rset_resets(
    state: SmtpState,
    mail: SmtpMailView,
    domain: Seq<char>,
    line: Seq<char>,
)
    ensures
        spec_command(line) == "rset"@ ==> spec_step(state, mail, domain, line) == reply_step(
            SmtpState::Fresh,
            empty_mail_view(),
            ok_reply(),
        ),
{
    if spec_command(line) == "rset"@ {
        proof_strlit_commands();
    }
}

/// A session that has accepted MAIL keeps its sender until the envelope is
/// cleared, so every message a step completes carries a sender address.
pub open spec fn envelope_ready(state: SmtpState, mail: SmtpMailView) -> bool {
    state == SmtpState::Rcpt || state == SmtpState::Data ==> mail.from is Some
}

/// Every step preserves `envelope_ready`, and a completed message always
/// has its sender set.
pub proof fn lemma_completed_has_from(
    state: SmtpState,
    mail: SmtpMailView,
    domain: Seq<char>,
    line: Seq<char>,
)
    requires
        envelope_ready(state, mail),
    ensures
        envelope_ready(spec_step(state, mail, domain, line).state, spec_step(state, mail, domain, line).mail),
        spec_step(state, mail, domain, line).completed matches Some(m) ==> m.from is Some,
{
}

/// Reveals the command literals, so that distinct commands can be told
/// apart at the specification level.
proof fn proof_strlit_commands()
    ensures
        "helo"@ != "rset"@,
        "ehlo"@ != "rset"@,
        "noop"@ != "rset"@,
        "help"@ != "rset"@,
        "info"@ != "rset"@,
        "vrfy"@ != "rset"@,
        "expn"@ != "rset"@,
{
    reveal_strlit("helo");
    reveal_strlit("ehlo");
    reveal_strlit("noop");
    reveal_strlit("help");
    reveal_strlit("info");
    reveal_strlit("vrfy");
    reveal_strlit("expn");
    reveal_strlit("rset");
    assert("helo"@[1] == 'e' && "rset"@[1] == 's');
    assert("ehlo"@[1] == 'h');
    assert("noop"@[1] == 'o');
    assert("help"@[1] == 'e' && "help"@[0] == 'h' && "rset"@[0] == 'r');
    assert("info"@[1] == 'n');
    assert("vrfy"@[1] == 'r');
    assert("expn"@[1] == 'x');
}

/// What a session hands back for one input line.
pub struct LineOutcome {
    pub reply: String,
    pub close: bool,
    pub completed: Option<SmtpMail>,
}

/// The view of a completed-message slot.
pub open spec fn completed_view(c: Option<SmtpMail>) -> Option<SmtpMailView> {
    match c {
        Some(m) => Some(m@),
        None => None,
    }
}

/// One submission session. It holds no transport: the owner reads lines,
/// feeds them to `handle_line`, writes the replies, and delivers each
/// completed message.
pub struct SmtpServer {
    pub state: SmtpState,
    pub mail: SmtpMail,
    pub ehlo_greeting: String,
    pub domain: Ghost<Seq<char>>,
}

impl SmtpServer {
    /// The advertised domain this session was created with.
    pub open spec fn spec_domain(&self) -> Seq<char> {
        self.domain@
    }

    /// The precomputed EHLO greeting matches the domain.
    pub open spec fn wf(&self) -> bool {
        self.ehlo_greeting@ == ehlo_reply(self.domain@)
    }

    /// A fresh session for a relay advertising `domain`.
    pub fn new(domain: &String) -> (s: Self)
        ensures
            s.wf(),
            s.spec_domain() == domain@,
            s.state == SmtpState::Fresh,
            s.mail@ == empty_mail_view(),
    {
        let mut greeting = String::new();
        greeting.append("250-");
        greeting.append(domain.as_str());
        greeting.append(" Hello ");
        greeting.append(domain.as_str());
        greeting.append("\r\n250 AUTH PLAIN LOGIN\r\n");
        let s = SmtpServer {
            state: SmtpState::Fresh,
            mail: SmtpMail { to: Vec::new(), from: None, data: None },
            ehlo_greeting: greeting,
            domain: Ghost(domain@),
        };
        proof {
            assert(s.ehlo_greeting@ =~= ehlo_reply(domain@));
            assert(s.mail@.to =~= empty_mail_view().to);
        }
        s
    }

    /// Returns the session to `Fresh` with an empty envelope and body.
    fn clear(&mut self)
        ensures
            final(self).state == SmtpState::Fresh,
            final(self).mail@ == empty_mail_view(),
            final(self).ehlo_greeting == old(self).ehlo_greeting,
            final(self).domain == old(self).domain,
    {
        self.state = SmtpState::Fresh;
        self.mail = SmtpMail { to: Vec::new(), from: None, data: None };
        proof {
            assert(self.mail@.to =~= empty_mail_view().to);
        }
    }

    /// Handles one input line exactly as `spec_step` says: dispatches on
    /// the lower-cased first token and the current state, and returns the
    /// reply, the completed message if this line finished one, and whether
    /// the transport is to be closed.
    pub fn handle_line(&mut self, line: &String) -> (out: LineOutcome)
        requires
            old(self).wf(),
        ensures
            final(self).wf(),
            final(self).spec_domain() == old(self).spec_domain(),
            ({
                let r = spec_step(old(self).state, old(self).mail@, old(self).spec_domain(), line@);
                &&& final(self).state == r.state
                &&& final(self).mail@ == r.mail
                &&& out.reply@ == r.reply
                &&& completed_view(out.completed) == r.completed
                &&& out.close == r.close
            }),
    {
        let tokens = tokenize(line.as_str());
        let command = if tokens.len() > 0 {
            lowercase(tokens[0].as_str())
        } else {
            String::new()
        };
        proof {
            assert(tokens.deep_view().len() == tokens@.len());
            if tokens@.len() > 0 {
                assert(tokens.deep_view()[0] == tokens@[0]@);
            }
            assert(command@ == spec_command(line@));
        }
        if str_eq(command.as_str(), "helo") && self.state == SmtpState::Fresh {
            self.state = SmtpState::Greeted;
            ok_outcome()
        } else if str_eq(command.as_str(), "ehlo") && self.state == SmtpState::Fresh {
            self.state = SmtpState::Greeted;
            LineOutcome { reply: self.ehlo_greeting.clone(), close: false, completed: None }
        } else if str_eq(command.as_str(), "noop") || str_eq(command.as_str(), "help") || str_eq(
            command.as_str(),
            "info",
        ) || str_eq(command.as_str(), "vrfy") || str_eq(command.as_str(), "expn") {
            ok_outcome()
        } else if str_eq(command.as_str(), "rset") {
            self.clear();
            ok_outcome()
        } else if str_eq(command.as_str(), "auth") {
            LineOutcome { reply: "235 OK\r\n".to_owned(), close: false, completed: None }
        } else if str_eq(command.as_str(), "mail") && self.state == SmtpState::Greeted {
            let addr = if tokens.len() > 2 {
                lowercase(tokens[2].as_str())
            } else {
                String::new()
            };
            proof {
                if tokens@.len() > 2 {
                    assert(tokens.deep_view()[2] == tokens@[2]@);
                }
                assert(addr@ == spec_address(line@));
            }
            if addr.as_str().is_empty() {
                empty_outcome()
            } else {
                self.mail.from = Some(addr);
                self.state = SmtpState::Rcpt;
                ok_outcome()
            }
        } else if str_eq(command.as_str(), "rcpt") && self.state == SmtpState::Rcpt {
            let addr = if tokens.len() > 2 {
                lowercase(tokens[2].as_str())
            } else {
                String::new()
            };
            proof {
                if tokens@.len() > 2 {
                    assert(tokens.deep_view()[2] == tokens@[2]@);
                }
                assert(addr@ == spec_address(line@));
            }
            if addr.as_str().is_empty() {
                empty_outcome()
            } else {
                let ghost old_to = self.mail.to.deep_view();
                let ghost addr_v = addr@;
                self.mail.to.push(addr);
                proof {
                    assert(self.mail.to.deep_view() =~= old_to.push(addr_v));
                }
                ok_outcome()
            }
        } else if str_eq(command.as_str(), "data") && self.state == SmtpState::Rcpt {
            self.state = SmtpState::Data;
            LineOutcome {
                reply: "354 End data with <CR><LF>.<CR><LF>\r\n".to_owned(),
                close: false,
                completed: None,
            }
        } else if str_eq(command.as_str(), ".") && self.state == SmtpState::Data {
            let mut done = SmtpMail { to: Vec::new(), from: None, data: None };
            core::mem::swap(&mut done, &mut self.mail);
            self.clear();
            LineOutcome { reply: "250 OK\r\n".to_owned(), close: false, completed: Some(done) }
        } else if str_eq(command.as_str(), "quit") && self.state == SmtpState::Data {
            let mut done = SmtpMail { to: Vec::new(), from: None, data: None };
            core::mem::swap(&mut done, &mut self.mail);
            self.clear();
            LineOutcome { reply: "221 Bye\r\n".to_owned(), close: true, completed: Some(done) }
        } else if self.state == SmtpState::Data {
            match &mut self.mail.data {
                Some(d) => d.append(line.as_str()),
                None => self.mail.data = Some(line.clone()),
            }
            empty_outcome()
        } else if str_eq(command.as_str(), "quit") {
            LineOutcome { reply: "221 Bye\r\n".to_owned(), close: true, completed: None }
        } else {
            empty_outcome()
        }
    }

}

/// A generic-OK outcome that leaves the session alone.
fn ok_outcome() -> (out: LineOutcome)
    ensures
        out.reply@ == ok_reply(),
        out.close == false,
        out.completed is None,
{
    LineOutcome { reply: "250 OK\r\n".to_owned(), close: false, completed: None }
}

/// The deliberate zero-byte reply for malformed or out-of-state input.
fn empty_outcome() -> (out: LineOutcome)
    ensures
        out.reply@ == Seq::<char>::empty(),
        out.close == false,
        out.completed is None,
{
    LineOutcome { reply: String::new(), close: false, completed: None }
}

} // verus!

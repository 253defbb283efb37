//! The parsed-message tree, the body extractor (a depth-first search for
//! the first non-empty body part of a requested content type), and the
//! converter that turns a parsed message plus envelope into a delivery
//! document.

use vstd::prelude::*;

use crate::azure::{AzureMailAddress, AzureMailAddressView, AzureMailContent, AzureMailContentView,
    AzureMailMessage, AzureMailMessageView, AzureMailRecipients, AzureMailRecipientsView};
use crate::text::{str_eq, string_eq};

verus! {

broadcast use vstd::std_specs::vec::axiom_vec_index_decreases;

/// One node of a parsed message: a content type, the decoded body of the
/// node itself, and the subparts in order.
pub struct MailPart {
    pub mimetype: String,
    pub body: String,
    pub subparts: Vec<MailPart>,
}

/// The mathematical shape of a `MailPart`.
pub ghost struct MailPartView {
    pub mimetype: Seq<char>,
    pub body: Seq<char>,
    pub subparts: Seq<MailPartView>,
}

/// A placeholder node, used only to keep the view's index function total.
pub open spec fn empty_part_view() -> MailPartView {
    MailPartView { mimetype: Seq::empty(), body: Seq::empty(), subparts: Seq::empty() }
}

impl View for MailPart {
    type V = MailPartView;

    open spec fn view(&self) -> MailPartView
        decreases self,
    {
        MailPartView {
            mimetype: self.mimetype@,
            body: self.body@,
            subparts: Seq::new(
                self.subparts@.len(),
                |i: int|
                    if 0 <= i < self.subparts@.len() {
                        self.subparts[i]@
                    } else {
                        empty_part_view()
                    },
            ),
        }
    }
}

/// The body that the extractor owes for `part` and `target`: the current
/// node's body if its content type matches the target and its body is
/// non-empty, else the first non-empty result among the subparts in order,
/// else the empty sequence.
pub open spec fn spec_content(part: MailPartView, target: Seq<char>) -> Seq<char>
    decreases part, 0nat,
{
    if part.mimetype == target && part.body.len() != 0 {
        part.body
    } else {
        spec_content_list(part.subparts, target, 0)
    }
}

/// The first non-empty extraction result among `parts[i..]`, in order.
pub open spec fn spec_content_list(parts: Seq<MailPartView>, target: Seq<char>, i: int) -> Seq<
    char,
>
    decreases parts, parts.len() - i, 1nat,
{
    if i < 0 || i >= parts.len() {
        Seq::empty()
    } else {
        let found = spec_content(parts[i], target);
        if found.len() != 0 {
            found
        } else {
            spec_content_list(parts, target, i + 1)
        }
    }
}

/// Returns the first non-empty body whose node matches `mimetype`, found by
/// a depth-first pre-order traversal of `mail`; empty if no node matches.
pub fn get_content(mail: &MailPart, mimetype: &String) -> (r: String)
    ensures
        r@ == spec_content(mail@, mimetype@),
    decreases mail,
{
    if string_eq(&mail.mimetype, mimetype) && !mail.body.as_str().is_empty() {
        return mail.body.clone();
    }
    let ghost parts = mail@.subparts;
    let n = mail.subparts.len();
    let mut i: usize = 0;
    while i < n
        invariant
            n == mail.subparts.len(),
            0 <= i <= n,
            parts == mail@.subparts,
            parts.len() == n,
            forall|j: int| 0 <= j < n ==> parts[j] == #[trigger] mail.subparts@[j]@,
            spec_content_list(parts, mimetype@, 0) == spec_content_list(parts, mimetype@, i as int),
            spec_content(mail@, mimetype@) == spec_content_list(parts, mimetype@, 0),
        decreases n - i,
    {
        let found = get_content(&mail.subparts[i], mimetype);
        if !found.as_str().is_empty() {
            return found;
        }
        i = i + 1;
    }
    String::new()
}

/// `m` with `(k, v)` put in: the first entry for `k` gets the value `v`,
/// or a new entry is appended when `k` is absent.
pub open spec fn spec_upsert(
    m: Seq<(Seq<char>, Seq<char>)>,
    k: Seq<char>,
    v: Seq<char>,
) -> Seq<(Seq<char>, Seq<char>)>
    decreases m.len(),
{
    if m.len() == 0 {
        seq![(k, v)]
    } else if m.first().0 == k {
        seq![(k, v)] + m.drop_first()
    } else {
        seq![m.first()] + spec_upsert(m.drop_first(), k, v)
    }
}

/// The header map built from the header lines in order: keys keep the
/// position of their first occurrence, later duplicates overwrite the
/// value (map semantics).
pub open spec fn spec_header_map(h: Seq<(Seq<char>, Seq<char>)>) -> Seq<(Seq<char>, Seq<char>)>
    decreases h.len(),
{
    if h.len() == 0 {
        Seq::empty()
    } else {
        spec_upsert(spec_header_map(h.drop_last()), h.last().0, h.last().1)
    }
}

/// The value of the first entry for `k`, if any.
pub open spec fn spec_lookup(m: Seq<(Seq<char>, Seq<char>)>, k: Seq<char>) -> Option<Seq<char>>
    decreases m.len(),
{
    if m.len() == 0 {
        None
    } else if m.first().0 == k {
        Some(m.first().1)
    } else {
        spec_lookup(m.drop_first(), k)
    }
}

/// No two entries share a key.
pub open spec fn unique_keys(m: Seq<(Seq<char>, Seq<char>)>) -> bool {
    forall|i: int, j: int| 0 <= i < j < m.len() ==> m[i].0 != m[j].0
}

/// When some entry holds `k`, upsert edits exactly that entry.
proof fn lemma_upsert_update(m: Seq<(Seq<char>, Seq<char>)>, k: Seq<char>, v: Seq<char>, j: int)
    requires
        unique_keys(m),
        0 <= j < m.len(),
        m[j].0 == k,
    ensures
        spec_upsert(m, k, v) == m.update(j, (k, v)),
    decreases m.len(),
{
    if j == 0 {
        assert(spec_upsert(m, k, v) =~= m.update(0, (k, v)));
    } else {
        assert(m[0].0 != m[j].0);
        assert forall|i2: int, j2: int| 0 <= i2 < j2 < m.drop_first().len() implies
            m.drop_first()[i2].0 != m.drop_first()[j2].0 by {
            assert(m[i2 + 1].0 != m[j2 + 1].0);
        }
        assert(m.drop_first()[j - 1].0 == k);
        lemma_upsert_update(m.drop_first(), k, v, j - 1);
        assert(spec_upsert(m, k, v) =~= m.update(j, (k, v)));
    }
}

/// When no entry holds `k`, upsert appends a new entry.
proof fn lemma_upsert_push(m: Seq<(Seq<char>, Seq<char>)>, k: Seq<char>, v: Seq<char>)
    requires
        forall|t: int| 0 <= t < m.len() ==> (#[trigger] m[t].0) != k,
    ensures
        spec_upsert(m, k, v) == m.push((k, v)),
    decreases m.len(),
{
    if m.len() == 0 {
        assert(spec_upsert(m, k, v) =~= m.push((k, v)));
    } else {
        assert(m[0].0 != k);
        assert forall|t: int| 0 <= t < m.drop_first().len() implies (
        #[trigger] m.drop_first()[t].0) != k by {
            assert(m[t + 1].0 != k);
        }
        lemma_upsert_push(m.drop_first(), k, v);
        assert(spec_upsert(m, k, v) =~= m.push((k, v)));
    }
}

/// Builds the header map from the header lines in order: later duplicate
/// keys overwrite earlier values, keys keep first-occurrence positions.
pub fn build_header_map(h: &Vec<(String, String)>) -> (out: Vec<(String, String)>)
    ensures
        out.deep_view() == spec_header_map(h.deep_view()),
        unique_keys(out.deep_view()),
{
    let ghost hv = h.deep_view();
    let mut out: Vec<(String, String)> = Vec::new();
    let n = h.len();
    let mut i: usize = 0;
    proof {
        assert(hv.take(0) =~= Seq::<(Seq<char>, Seq<char>)>::empty());
        assert(out.deep_view() =~= spec_header_map(hv.take(0)));
    }
    while i < n
        invariant
            n == h.len(),
            0 <= i <= n,
            hv == h.deep_view(),
            hv.len() == n,
            out.deep_view() == spec_header_map(hv.take(i as int)),
            unique_keys(out.deep_view()),
        decreases n - i,
    {
        let ghost before = out.deep_view();
        let key = &h[i].0;
        let value = &h[i].1;
        let m = out.len();
        let mut j: usize = 0;
        let mut found = false;
        while j < m && !found
            invariant
                m == out.len(),
                0 <= j <= m,
                found ==> j < m && out.deep_view()[j as int].0 == key@,
                !found ==> forall|t: int| 0 <= t < j ==> out.deep_view()[t].0 != key@,
                out.deep_view() == before,
                hv == h.deep_view(),
                0 <= i < hv.len(),
                key@ == hv[i as int].0,
                value@ == hv[i as int].1,
                unique_keys(before),
            decreases m - j + (if found { 0int } else { 1int }),
        {
            if string_eq(&out[j].0, key) {
                found = true;
            } else {
                j = j + 1;
            }
        }
        if found {
            out.set(j, (key.clone(), value.clone()));
            proof {
                assert(before[j as int].0 == key@);
                lemma_upsert_update(before, key@, value@, j as int);
                assert(out.deep_view() =~= before.update(j as int, (key@, value@)));
                let dv = out.deep_view();
                assert forall|i2: int, j2: int| 0 <= i2 < j2 < dv.len() implies dv[i2].0 != dv[
                    j2].0 by {
                    assert(before[i2].0 != before[j2].0);
                    if i2 == j as int {
                        assert(before[i2].0 == key@);
                    }
                    if j2 == j as int {
                        assert(before[j2].0 == key@);
                    }
                }
            }
        } else {
            out.push((key.clone(), value.clone()));
            proof {
                lemma_upsert_push(before, key@, value@);
                assert(out.deep_view() =~= before.push((key@, value@)));
                let dv = out.deep_view();
                assert forall|i2: int, j2: int| 0 <= i2 < j2 < dv.len() implies dv[i2].0 != dv[
                    j2].0 by {
                    if j2 < before.len() {
                        assert(before[i2].0 != before[j2].0);
                    } else {
                        assert(before[i2].0 != key@);
                    }
                }
            }
        }
        proof {
            assert(hv.take(i + 1).drop_last() =~= hv.take(i as int));
            assert(hv.take(i + 1).last() == hv[i as int]);
        }
        i = i + 1;
    }
    proof {
        assert(hv.take(n as int) =~= hv);
    }
    out
}

/// The value of the first entry for `key`, if any.
pub fn lookup_header(m: &Vec<(String, String)>, key: &str) -> (r: Option<String>)
    ensures
        match spec_lookup(m.deep_view(), key@) {
            Some(v) => r matches Some(s) && s@ == v,
            None => r is None,
        },
{
    let ghost mv = m.deep_view();
    let n = m.len();
    let mut i: usize = 0;
    proof {
        assert(mv.skip(0) =~= mv);
    }
    while i < n
        invariant
            n == m.len(),
            0 <= i <= n,
            mv == m.deep_view(),
            mv.len() == n,
            spec_lookup(mv, key@) == spec_lookup(mv.skip(i as int), key@),
        decreases n - i,
    {
        proof {
            assert(mv.skip(i as int).first() == mv[i as int]);
            assert(mv.skip(i as int).drop_first() =~= mv.skip(i + 1));
        }
        if str_eq(m[i].0.as_str(), key) {
            return Some(m[i].1.clone());
        }
        i = i + 1;
    }
    proof {
        assert(mv.skip(n as int) =~= Seq::<(Seq<char>, Seq<char>)>::empty());
    }
    None
}

/// The fixed prefix put in front of the verbatim body when the message's
/// dominant content type is neither plain text nor HTML.
pub open spec fn unsupported_marker() -> Seq<char> {
    "Unsupported content type. Original message body follows:\n"@
}

/// The exec form of the unsupported-content marker.
pub fn unsupported_marker_str() -> (r: &'static str)
    ensures
        r@ == unsupported_marker(),
{
    "Unsupported content type. Original message body follows:\n"
}

/// The delivery document owed for a sender, a recipient list, the header
/// lines and the parsed body tree: headers become a map (later duplicates
/// overwrite), the subject is the `Subject` header or empty, the bodies
/// are extracted by content type, and when both are absent the root body
/// is wrapped with the unsupported-content marker in the plain-text slot.
pub open spec fn spec_convert(
    sender: Seq<char>,
    to: Seq<Seq<char>>,
    headers: Seq<(Seq<char>, Seq<char>)>,
    root: MailPartView,
) -> AzureMailMessageView {
    let header_map = spec_header_map(headers);
    let subject = match spec_lookup(header_map, "Subject"@) {
        Some(s) => s,
        None => Seq::empty(),
    };
    let html = spec_content(root, "text/html"@);
    let plain = spec_content(root, "text/plain"@);
    let html_opt = if html.len() == 0 {
        None
    } else {
        Some(html)
    };
    let plain_opt = if plain.len() == 0 {
        None
    } else {
        Some(plain)
    };
    let plain_final = if html_opt is None && plain_opt is None {
        Some(unsupported_marker() + root.body)
    } else {
        plain_opt
    };
    AzureMailMessageView {
        sender_address: sender,
        headers: Some(header_map),
        recipients: AzureMailRecipientsView {
            to: Seq::new(to.len(), |i: int| AzureMailAddressView { address: to[i], display_name: None }),
            cc: None,
            bcc: None,
        },
        reply_to: None,
        content: AzureMailContentView { subject, plain_text: plain_final, html: html_opt },
    }
}

/// Builds the delivery document for an already-parsed message, exactly as
/// `spec_convert` says.
pub fn convert_message(
    sender_address: String,
    to: &Vec<String>,
    headers: &Vec<(String, String)>,
    root: &MailPart,
) -> (r: AzureMailMessage)
    ensures
        r@ == spec_convert(sender_address@, to.deep_view(), headers.deep_view(), root@),
{
    let ghost tv = to.deep_view();
    let header_map = build_header_map(headers);
    let subject = match lookup_header(&header_map, "Subject") {
        Some(s) => s,
        None => String::new(),
    };
    let html = get_content(root, &"text/html".to_owned());
    let plain = get_content(root, &"text/plain".to_owned());
    let mut recipients: Vec<AzureMailAddress> = Vec::new();
    let n = to.len();
    let mut i: usize = 0;
    while i < n
        invariant
            n == to.len(),
            0 <= i <= n,
            tv == to.deep_view(),
            tv.len() == n,
            recipients.deep_view() =~= Seq::new(
                i as nat,
                |j: int| AzureMailAddressView { address: tv[j], display_name: None },
            ),
        decreases n - i,
    {
        let ghost before = recipients.deep_view();
        recipients.push(AzureMailAddress::new(to[i].clone()));
        proof {
            let dv = recipients.deep_view();
            let target = Seq::new(
                (i + 1) as nat,
                |j: int| AzureMailAddressView { address: tv[j], display_name: None },
            );
            assert(before.len() == i as int);
            assert(dv.len() == before.len() + 1);
            assert(dv.len() == target.len());
            assert forall|j: int| 0 <= j < dv.len() implies dv[j] == target[j] by {
                if j < i as int {
                    assert(dv[j] == before[j]);
                } else {
                    assert(dv[j].address == tv[j]);
                    assert(dv[j].display_name is None);
                }
            }
            assert(dv =~= target);
        }
        i = i + 1;
    }
    let html_empty = html.as_str().is_empty();
    let plain_empty = plain.as_str().is_empty();
    let html_opt = if html_empty {
        Option::None
    } else {
        Option::Some(html)
    };
    let plain_final = if html_empty && plain_empty {
        let mut marked = String::new();
        marked.append(unsupported_marker_str());
        marked.append(root.body.as_str());
        Option::Some(marked)
    } else if plain_empty {
        Option::None
    } else {
        Option::Some(plain)
    };
    let msg = AzureMailMessage {
        sender_address,
        headers: Option::Some(header_map),
        recipients: AzureMailRecipients { to: recipients, cc: Option::None, bcc: Option::None },
        reply_to: Option::None,
        content: AzureMailContent { subject, plain_text: plain_final, html: html_opt },
    };
    msg
}

/// An outside parsed message carried through trusted code.
#[verifier::external_type_specification]
#[verifier::external_body]
pub struct ExParsedMail<'a>(mailparse::ParsedMail<'a>);

/// A parsed message copied into plain values: the header lines in order,
/// and the body-part tree.
pub struct ParsedMessage {
    pub headers: Vec<(String, String)>,
    pub root: MailPart,
}

/// The mathematical shape of a parsed message.
pub ghost struct ParsedMessageView {
    pub headers: Seq<(Seq<char>, Seq<char>)>,
    pub root: MailPartView,
}

impl View for ParsedMessage {
    type V = ParsedMessageView;

    open spec fn view(&self) -> ParsedMessageView {
        ParsedMessageView { headers: self.headers.deep_view(), root: self.root@ }
    }
}

/// What mailparse makes of a raw message: its header lines and its decoded
/// body-part tree, or nothing where it rejects the input.
pub uninterp spec fn mime_parse_of(data: Seq<char>) -> Option<ParsedMessageView>;

/// Relies on mailparse's ParsedMail: copies one node's content type
/// (`ctype.mimetype`), decoded body (`get_body`, empty where decoding
/// fails) and subparts into plain values.
#[verifier::external_body]
fn mail_part_of(mail: &mailparse::ParsedMail<'_>) -> MailPart {
    let mut subparts = Vec::new();
    for p in &mail.subparts {
        subparts.push(mail_part_of(p));
    }
    MailPart {
        mimetype: mail.ctype.mimetype.clone(),
        body: mail.get_body().unwrap_or(String::new()),
        subparts,
    }
}

/// Relies on mailparse::parse_mail and the header accessors `get_key` and
/// `get_value`: parsing is a function of the input bytes alone.
#[verifier::external_body]
fn parse_message(data: &str) -> (r: Option<ParsedMessage>)
    ensures
        match mime_parse_of(data@) {
            Some(pm) => r matches Some(p) && p@ == pm,
            None => r is None,
        },
{
    let parsed = match mailparse::parse_mail(data.as_bytes()) {
        Ok(p) => p,
        Err(_) => return None,
    };
    let mut headers = Vec::new();
    for h in &parsed.headers {
        headers.push((h.get_key(), h.get_value()));
    }
    Some(ParsedMessage { headers, root: mail_part_of(&parsed) })
}

/// Parses raw message text and builds the delivery document for it, for
/// the given sender and recipients; `None` where the message does not
/// parse (that message is abandoned, the session goes on).
pub fn from_mime(sender_address: String, to: &Vec<String>, data: &String) -> (r: Option<
    AzureMailMessage,
>)
    ensures
        match mime_parse_of(data@) {
            Some(pm) => r matches Some(m) && m@ == spec_convert(
                sender_address@,
                to.deep_view(),
                pm.headers,
                pm.root,
            ),
            None => r is None,
        },
{
    let parsed = match parse_message(data.as_str()) {
        Some(p) => p,
        None => {
            return None;
        },
    };
    Some(convert_message(sender_address, to, &parsed.headers, &parsed.root))
}

} // verus!

//! The negotiation request and the token derived from its answer.

use vstd::prelude::*;
use vstd::string::StringSliceAdditionalSpecFns;
use vstd::utf8::encode_utf8;
use crate::digest::{md5_hex, md5_of, to_hex};
use crate::error::ProbeError;
use crate::form::{form_value, push_form_value};
use crate::text::{
    chars_of, find_from, first_at, i32_to_string, int_decimal, lemma_first_at_unique,
};

verus! {

/// The key that the token is derived with unless another is given.
pub const DEFAULT_KEY: &'static str = "token_20230313000136kwyktxb0tgspm00yo5";

/// What a negotiation request is made of, as plain values.
pub struct ReqView {
    pub header: Seq<(Seq<char>, Seq<char>)>,
    pub line: Seq<char>,
    pub host: Seq<char>,
    pub hosts: Seq<char>,
    pub mode: Seq<char>,
    pub ipv4: Seq<char>,
    pub method: Seq<char>,
    pub referer: Seq<char>,
    pub useragent: Seq<char>,
    pub cookies: Seq<char>,
    pub redirect: int,
    pub dns_type: Seq<char>,
    pub dns_server: Seq<char>,
    pub key: Seq<char>,
    pub beg: nat,
    pub end: nat,
    pub debug: bool,
}

/// The request for `host` with every other field at its default.
pub open spec fn initial_request(key: Seq<char>, host: Seq<char>) -> ReqView {
    ReqView {
        header: seq![("Content-Type"@, "application/x-www-form-urlencoded"@)],
        line: Seq::empty(),
        host: host,
        hosts: host,
        mode: "fast"@,
        ipv4: Seq::empty(),
        method: "get"@,
        referer: Seq::empty(),
        useragent: Seq::empty(),
        cookies: Seq::empty(),
        redirect: 5,
        dns_type: "isp"@,
        dns_server: Seq::empty(),
        key: key,
        beg: 8,
        end: 24,
        debug: false,
    }
}

/// The form-encoded body of the negotiation request: the twelve fields in
/// their fixed order, each as `name=value`, joined by `&`. Each value goes
/// in as its form serialisation, so that no value can end its field or begin
/// another.
pub open spec fn form_body(c: ReqView) -> Seq<char> {
    "line="@ + form_value(c.line)
        + "&host="@ + form_value(c.host)
        + "&host_s="@ + form_value(c.hosts)
        + "&check_mode="@ + form_value(c.mode)
        + "&ipv4="@ + form_value(c.ipv4)
        + "&method="@ + form_value(c.method)
        + "&referer="@ + form_value(c.referer)
        + "&ua="@ + form_value(c.useragent)
        + "&cookies="@ + form_value(c.cookies)
        + "&redirect_num="@ + form_value(int_decimal(c.redirect))
        + "&dns_server_type="@ + form_value(c.dns_type)
        + "&dns_server="@ + form_value(c.dns_server)
}

/// At position `at` of `text` stands a single quote, then `inner`, which holds
/// no single quote, then a single quote.
pub open spec fn quoted_at(text: Seq<char>, at: int, inner: Seq<char>) -> bool {
    &&& 0 <= at
    &&& at + 1 + inner.len() < text.len()
    &&& text[at] == '\''
    &&& text.subrange(at + 1, at + 1 + inner.len()) == inner
    &&& !inner.contains('\'')
    &&& text[at + 1 + inner.len()] == '\''
}

/// `id` is the quoted text that directly follows the leftmost `pattern` in `html`.
pub open spec fn is_task_id(html: Seq<char>, pattern: Seq<char>, id: Seq<char>) -> bool {
    exists|p: int| first_at(html, pattern, 0, p) && quoted_at(html, p + pattern.len(), id)
}

/// The task id that `html` holds after `pattern`, if it holds one.
pub open spec fn task_id_of(html: Seq<char>, pattern: Seq<char>) -> Option<Seq<char>> {
    if exists|id: Seq<char>| is_task_id(html, pattern, id) {
        Some(choose|id: Seq<char>| is_task_id(html, pattern, id))
    } else {
        None
    }
}

/// The characters of `digest` from `beg` up to `end`, where that window lies
/// within it.
pub open spec fn token_of(digest: Seq<char>, beg: nat, end: nat) -> Option<Seq<char>> {
    if beg <= end <= digest.len() {
        Some(digest.subrange(beg as int, end as int))
    } else {
        None
    }
}

/// The hexadecimal MD5 digest of the task id directly followed by the key.
pub open spec fn digest_of(task_id: Seq<char>, key: Seq<char>) -> Seq<char> {
    md5_hex(encode_utf8(task_id), encode_utf8(key))
}

/// The first message of the stream: a JSON object of the task id and its token.
pub open spec fn payload(task_id: Seq<char>, token: Seq<char>) -> Seq<char> {
    "{\"task_id\":\""@ + task_id + "\",\"task_token\":\""@ + token + "\"}"@
}

/// What a negotiation answers with, given the page that the service returned.
pub open spec fn negotiated(c: ReqView, html: Seq<char>) -> Result<Seq<char>, ProbeError> {
    match task_id_of(html, "task_id="@) {
        None => Err(ProbeError::Negotiation),
        Some(id) => match token_of(digest_of(id, c.key), c.beg, c.end) {
            None => Err(ProbeError::TokenRange),
            Some(token) => Ok(payload(id, token)),
        },
    }
}

/// The digest is a function of the task id and the key alone: the same two
/// give the same digest, and so the same token and the same first message.
pub proof fn lemma_derivation_is_deterministic(
    task_id: Seq<char>,
    key: Seq<char>,
    other_id: Seq<char>,
    other_key: Seq<char>,
    beg: nat,
    end: nat,
)
    requires
        task_id == other_id,
        key == other_key,
    ensures
        digest_of(task_id, key) == digest_of(other_id, other_key),
        token_of(digest_of(task_id, key), beg, end) == token_of(
            digest_of(other_id, other_key),
            beg,
            end,
        ),
{
}

/// A negotiation fails in one of two ways and in no other: without a task id
/// on the page, and with a token window that does not lie within the digest,
/// be it that the window ends past the digest or before it begins.
pub proof fn lemma_negotiation_outcomes(c: ReqView, html: Seq<char>)
    ensures
        negotiated(c, html) == Err::<Seq<char>, ProbeError>(ProbeError::Negotiation)
            <==> task_id_of(html, "task_id="@) is None,
        negotiated(c, html) == Err::<Seq<char>, ProbeError>(ProbeError::TokenRange) <==> {
            &&& task_id_of(html, "task_id="@) matches Some(id)
            &&& (c.beg > c.end || c.end > digest_of(id, c.key).len())
        },
        negotiated(c, html) is Ok <==> {
            &&& task_id_of(html, "task_id="@) matches Some(id)
            &&& c.beg <= c.end <= digest_of(id, c.key).len()
        },
        negotiated(c, html) matches Ok(msg) ==> {
            &&& task_id_of(html, "task_id="@) matches Some(id)
            &&& msg == payload(id, digest_of(id, c.key).subrange(c.beg as int, c.end as int))
        },
{
}

/// Two quoted texts at one position are the same text.
pub proof fn lemma_quoted_at_unique(text: Seq<char>, at: int, a: Seq<char>, b: Seq<char>)
    requires
        quoted_at(text, at, a),
        quoted_at(text, at, b),
    ensures
        a == b,
{
    if a.len() < b.len() {
        let k = a.len() as int;
        assert(b[k] == text.subrange(at + 1, at + 1 + b.len())[k]);
        assert(b.contains('\''));
    } else if b.len() < a.len() {
        let k = b.len() as int;
        assert(a[k] == text.subrange(at + 1, at + 1 + a.len())[k]);
        assert(a.contains('\''));
    }
}

/// A page holds at most one task id.
pub proof fn lemma_task_id_unique(html: Seq<char>, pattern: Seq<char>, a: Seq<char>, b: Seq<char>)
    requires
        is_task_id(html, pattern, a),
        is_task_id(html, pattern, b),
    ensures
        a == b,
{
    let p = choose|p: int| first_at(html, pattern, 0, p) && quoted_at(html, p + pattern.len(), a);
    let q = choose|q: int| first_at(html, pattern, 0, q) && quoted_at(html, q + pattern.len(), b);
    lemma_first_at_unique(html, pattern, 0, p, q);
    lemma_quoted_at_unique(html, p + pattern.len(), a, b);
}

/// The configuration of one negotiation.
#[derive(Debug)]
pub struct ReqClient {
    header: Vec<(String, String)>,
    line: String,
    host: String,
    hosts: String,
    mode: String,
    ipv4: String,
    method: String,
    referer: String,
    useragent: String,
    cookies: String,
    redirect: i32,
    dns_type: String,
    dns_server: String,
    key: String,
    beg: usize,
    end: usize,
    debug: bool,
}

impl View for ReqClient {
    type V = ReqView;

    closed spec fn view(&self) -> ReqView {
        ReqView {
            header: self.header.deep_view(),
            line: self.line@,
            host: self.host@,
            hosts: self.hosts@,
            mode: self.mode@,
            ipv4: self.ipv4@,
            method: self.method@,
            referer: self.referer@,
            useragent: self.useragent@,
            cookies: self.cookies@,
            redirect: self.redirect as int,
            dns_type: self.dns_type@,
            dns_server: self.dns_server@,
            key: self.key@,
            beg: self.beg as nat,
            end: self.end as nat,
            debug: self.debug,
        }
    }
}

impl ReqClient {
    /// The request for `host`, derived with `key`, every other field at its
    /// default.
    pub fn new(key: &str, host: &str) -> (ret: Self)
        ensures
            ret@ == initial_request(key@, host@),
    {
        let mut header: Vec<(String, String)> = Vec::new();
        header.push(("Content-Type".to_owned(), "application/x-www-form-urlencoded".to_owned()));
        let ret = Self {
            header,
            line: String::new(),
            host: host.to_owned(),
            hosts: host.to_owned(),
            mode: "fast".to_owned(),
            ipv4: String::new(),
            method: "get".to_owned(),
            referer: String::new(),
            useragent: String::new(),
            cookies: String::new(),
            redirect: 5,
            dns_type: "isp".to_owned(),
            dns_server: String::new(),
            key: key.to_owned(),
            beg: 8,
            end: 24,
            debug: false,
        };
        assert(ret@.header =~= initial_request(key@, host@).header);
        ret
    }

    /// Sets the headers sent with the request.
    pub fn header(&mut self, header: Vec<(String, String)>) -> (ret: &mut Self)
        ensures
            ret@ == (ReqView { header: header.deep_view(), ..old(self)@ }),
            *final(self) == *final(ret),
    {
        self.header = header;
        self
    }

    /// Sets the key that the token is derived with.
    pub fn key(&mut self, value: String) -> (ret: &mut Self)
        ensures
            ret@ == (ReqView { key: value@, ..old(self)@ }),
            *final(self) == *final(ret),
    {
        self.key = value;
        self
    }

    /// Sets where the token window begins.
    pub fn beg(&mut self, value: usize) -> (ret: &mut Self)
        ensures
            ret@ == (ReqView { beg: value as nat, ..old(self)@ }),
            *final(self) == *final(ret),
    {
        self.beg = value;
        self
    }

    /// Sets where the token window ends.
    pub fn end(&mut self, value: usize) -> (ret: &mut Self)
        ensures
            ret@ == (ReqView { end: value as nat, ..old(self)@ }),
            *final(self) == *final(ret),
    {
        self.end = value;
        self
    }

    /// Sets the line.
    pub fn line(&mut self, value: String) -> (ret: &mut Self)
        ensures
            ret@ == (ReqView { line: value@, ..old(self)@ }),
            *final(self) == *final(ret),
    {
        self.line = value;
        self
    }

    /// Sets the target host, under both of its field names.
    pub fn host(&mut self, value: String) -> (ret: &mut Self)
        ensures
            ret@ == (ReqView { host: value@, hosts: value@, ..old(self)@ }),
            *final(self) == *final(ret),
    {
        self.host = value.clone();
        self.hosts = value;
        self
    }

    /// Sets the check mode.
    pub fn mode(&mut self, value: String) -> (ret: &mut Self)
        ensures
            ret@ == (ReqView { mode: value@, ..old(self)@ }),
            *final(self) == *final(ret),
    {
        self.mode = value;
        self
    }

    /// Sets the IPv4 address used in place of a lookup.
    pub fn ipv4(&mut self, value: String) -> (ret: &mut Self)
        ensures
            ret@ == (ReqView { ipv4: value@, ..old(self)@ }),
            *final(self) == *final(ret),
    {
        self.ipv4 = value;
        self
    }

    /// Sets the HTTP method.
    pub fn method(&mut self, value: String) -> (ret: &mut Self)
        ensures
            ret@ == (ReqView { method: value@, ..old(self)@ }),
            *final(self) == *final(ret),
    {
        self.method = value;
        self
    }

    /// Sets the referer.
    pub fn referer(&mut self, value: String) -> (ret: &mut Self)
        ensures
            ret@ == (ReqView { referer: value@, ..old(self)@ }),
            *final(self) == *final(ret),
    {
        self.referer = value;
        self
    }

    /// Sets the user agent.
    pub fn useragent(&mut self, value: String) -> (ret: &mut Self)
        ensures
            ret@ == (ReqView { useragent: value@, ..old(self)@ }),
            *final(self) == *final(ret),
    {
        self.useragent = value;
        self
    }

    /// Sets the cookies.
    pub fn cookies(&mut self, value: String) -> (ret: &mut Self)
        ensures
            ret@ == (ReqView { cookies: value@, ..old(self)@ }),
            *final(self) == *final(ret),
    {
        self.cookies = value;
        self
    }

    /// Sets the redirect limit.
    pub fn redirect(&mut self, value: i32) -> (ret: &mut Self)
        ensures
            ret@ == (ReqView { redirect: value as int, ..old(self)@ }),
            *final(self) == *final(ret),
    {
        self.redirect = value;
        self
    }

    /// Sets the DNS mode.
    pub fn dns_type(&mut self, value: String) -> (ret: &mut Self)
        ensures
            ret@ == (ReqView { dns_type: value@, ..old(self)@ }),
            *final(self) == *final(ret),
    {
        self.dns_type = value;
        self
    }

    /// Sets the DNS server.
    pub fn dns_server(&mut self, value: String) -> (ret: &mut Self)
        ensures
            ret@ == (ReqView { dns_server: value@, ..old(self)@ }),
            *final(self) == *final(ret),
    {
        self.dns_server = value;
        self
    }

    /// Sets whether the negotiation is traced.
    pub fn debug(&mut self, debug: bool) -> (ret: &mut Self)
        ensures
            ret@ == (ReqView { debug: debug, ..old(self)@ }),
            *final(self) == *final(ret),
    {
        self.debug = debug;
        self
    }

    /// The same request with the headers sent with the request replaced.
    pub fn with_header(self, header: Vec<(String, String)>) -> (ret: Self)
        ensures
            ret@ == (ReqView { header: header.deep_view(), ..self@ }),
    {
        let mut this = self;
        this.header = header;
        this
    }

    /// The same request with the key that the token is derived with replaced.
    pub fn with_key(self, value: String) -> (ret: Self)
        ensures
            ret@ == (ReqView { key: value@, ..self@ }),
    {
        let mut this = self;
        this.key = value;
        this
    }

    /// The same request with where the token window begins replaced.
    pub fn with_beg(self, value: usize) -> (ret: Self)
        ensures
            ret@ == (ReqView { beg: value as nat, ..self@ }),
    {
        let mut this = self;
        this.beg = value;
        this
    }

    /// The same request with where the token window ends replaced.
    pub fn with_end(self, value: usize) -> (ret: Self)
        ensures
            ret@ == (ReqView { end: value as nat, ..self@ }),
    {
        let mut this = self;
        this.end = value;
        this
    }

    /// The same request with the line replaced.
    pub fn with_line(self, value: String) -> (ret: Self)
        ensures
            ret@ == (ReqView { line: value@, ..self@ }),
    {
        let mut this = self;
        this.line = value;
        this
    }

    /// The same request with the target host, under both of its field names replaced.
    pub fn with_host(self, value: String) -> (ret: Self)
        ensures
            ret@ == (ReqView { host: value@, hosts: value@, ..self@ }),
    {
        let mut this = self;
        this.host = value.clone();
        this.hosts = value;
        this
    }

    /// The same request with the check mode replaced.
    pub fn with_mode(self, value: String) -> (ret: Self)
        ensures
            ret@ == (ReqView { mode: value@, ..self@ }),
    {
        let mut this = self;
        this.mode = value;
        this
    }

    /// The same request with the IPv4 address used in place of a lookup replaced.
    pub fn with_ipv4(self, value: String) -> (ret: Self)
        ensures
            ret@ == (ReqView { ipv4: value@, ..self@ }),
    {
        let mut this = self;
        this.ipv4 = value;
        this
    }

    /// The same request with the HTTP method replaced.
    pub fn with_method(self, value: String) -> (ret: Self)
        ensures
            ret@ == (ReqView { method: value@, ..self@ }),
    {
        let mut this = self;
        this.method = value;
        this
    }

    /// The same request with the referer replaced.
    pub fn with_referer(self, value: String) -> (ret: Self)
        ensures
            ret@ == (ReqView { referer: value@, ..self@ }),
    {
        let mut this = self;
        this.referer = value;
        this
    }

    /// The same request with the user agent replaced.
    pub fn with_useragent(self, value: String) -> (ret: Self)
        ensures
            ret@ == (ReqView { useragent: value@, ..self@ }),
    {
        let mut this = self;
        this.useragent = value;
        this
    }

    /// The same request with the cookies replaced.
    pub fn with_cookies(self, value: String) -> (ret: Self)
        ensures
            ret@ == (ReqView { cookies: value@, ..self@ }),
    {
        let mut this = self;
        this.cookies = value;
        this
    }

    /// The same request with the redirect limit replaced.
    pub fn with_redirect(self, value: i32) -> (ret: Self)
        ensures
            ret@ == (ReqView { redirect: value as int, ..self@ }),
    {
        let mut this = self;
        this.redirect = value;
        this
    }

    /// The same request with the DNS mode replaced.
    pub fn with_dns_type(self, value: String) -> (ret: Self)
        ensures
            ret@ == (ReqView { dns_type: value@, ..self@ }),
    {
        let mut this = self;
        this.dns_type = value;
        this
    }

    /// The same request with the DNS server replaced.
    pub fn with_dns_server(self, value: String) -> (ret: Self)
        ensures
            ret@ == (ReqView { dns_server: value@, ..self@ }),
    {
        let mut this = self;
        this.dns_server = value;
        this
    }

    /// The same request with whether the negotiation is traced replaced.
    pub fn with_debug(self, debug: bool) -> (ret: Self)
        ensures
            ret@ == (ReqView { debug: debug, ..self@ }),
    {
        let mut this = self;
        this.debug = debug;
        this
    }

    /// The headers sent with the request, each a name and a value.
    pub fn header_list(&self) -> (ret: &Vec<(String, String)>)
        ensures
            ret.deep_view() == self@.header,
    {
        &self.header
    }

    /// Whether the negotiation is traced.
    pub fn is_debug(&self) -> (ret: bool)
        ensures
            ret == self@.debug,
    {
        self.debug
    }

    /// The form-encoded body of the negotiation request. Each value is
    /// serialised as a form asks: a character that would end a field or begin
    /// another goes in escaped.
    pub fn body(&self) -> (out: String)
        ensures
            out@ == form_body(self@),
    {
        let mut out = String::new();
        out.append("line=");
        push_form_value(&mut out, self.line.as_str());
        out.append("&host=");
        push_form_value(&mut out, self.host.as_str());
        out.append("&host_s=");
        push_form_value(&mut out, self.hosts.as_str());
        out.append("&check_mode=");
        push_form_value(&mut out, self.mode.as_str());
        out.append("&ipv4=");
        push_form_value(&mut out, self.ipv4.as_str());
        out.append("&method=");
        push_form_value(&mut out, self.method.as_str());
        out.append("&referer=");
        push_form_value(&mut out, self.referer.as_str());
        out.append("&ua=");
        push_form_value(&mut out, self.useragent.as_str());
        out.append("&cookies=");
        push_form_value(&mut out, self.cookies.as_str());
        out.append("&redirect_num=");
        let redirect = i32_to_string(self.redirect);
        push_form_value(&mut out, redirect.as_str());
        out.append("&dns_server_type=");
        push_form_value(&mut out, self.dns_type.as_str());
        out.append("&dns_server=");
        push_form_value(&mut out, self.dns_server.as_str());
        assert(out@ =~= form_body(self@));
        out
    }

    /// The quoted text that directly follows the leftmost `pattern` in `html`:
    /// `None` where `pattern` does not occur, where no single quote follows it
    /// at once, or where that quote is never closed.
    pub fn find_task_id<'a>(html: &'a str, pattern: &str) -> (found: Option<&'a str>)
        ensures
            match found {
                Some(id) => is_task_id(html@, pattern@, id@) && task_id_of(html@, pattern@) == Some(
                    id@,
                ),
                None => task_id_of(html@, pattern@) is None,
            },
    {
        let text = chars_of(html);
        let pat = chars_of(pattern);
        let n: usize = text.len();
        let pos: usize = match find_from(text.as_slice(), pat.as_slice(), 0) {
            Some(pos) => pos,
            None => {
                return None;
            },
        };
        let at: usize = pos + pat.len();
        if at >= n || text[at] != '\'' {
            proof {
                assert forall|id: Seq<char>| !is_task_id(html@, pattern@, id) by {
                    if is_task_id(html@, pattern@, id) {
                        let p = choose|p: int|
                            first_at(html@, pattern@, 0, p) && quoted_at(
                                html@,
                                p + pattern@.len(),
                                id,
                            );
                        lemma_first_at_unique(html@, pattern@, 0, p, pos as int);
                    }
                }
            }
            return None;
        }
        let start: usize = at + 1;
        let mut close: usize = start;
        while close < n && text[close] != '\''
            invariant
                start <= close <= n == text@.len(),
                forall|j: int| start <= j < close ==> text@[j] != '\'',
            decreases n - close,
        {
            close = close + 1;
        }
        if close == n {
            proof {
                assert forall|id: Seq<char>| !is_task_id(html@, pattern@, id) by {
                    if is_task_id(html@, pattern@, id) {
                        let p = choose|p: int|
                            first_at(html@, pattern@, 0, p) && quoted_at(
                                html@,
                                p + pattern@.len(),
                                id,
                            );
                        lemma_first_at_unique(html@, pattern@, 0, p, pos as int);
                    }
                }
            }
            return None;
        }
        let id = html.substring_char(start, close);
        proof {
            assert(!id@.contains('\'')) by {
                if id@.contains('\'') {
                    let k = choose|k: int| 0 <= k < id@.len() && id@[k] == '\'';
                    assert(text@[start + k] == '\'');
                }
            }
            assert(quoted_at(html@, at as int, id@));
            assert(first_at(html@, pattern@, 0, pos as int));
            assert(is_task_id(html@, pattern@, id@));
            let chosen = choose|c: Seq<char>| is_task_id(html@, pattern@, c);
            lemma_task_id_unique(html@, pattern@, chosen, id@);
        }
        Some(id)
    }

    /// The hexadecimal MD5 digest of `task_id` directly followed by `key`.
    pub fn generate_md5(task_id: &str, key: &str) -> (out: String)
        ensures
            out@ == digest_of(task_id@, key@),
            out@.len() == 32,
    {
        let mut data: Vec<u8> = task_id.as_bytes_vec();
        let tail: &[u8] = key.as_bytes();
        let n: usize = tail.len();
        let mut k: usize = 0;
        while k < n
            invariant
                k <= n == tail@.len(),
                data@ == task_id.spec_bytes() + tail@.take(k as int),
            decreases n - k,
        {
            data.push(tail[k]);
            assert(data@ =~= task_id.spec_bytes() + tail@.take(k + 1));
            k = k + 1;
        }
        assert(tail@.take(n as int) =~= tail@);
        let digest = md5_of(data.as_slice());
        to_hex(digest.as_slice())
    }

    /// The characters of `digest` from `beg` up to `end`: `None` where `beg`
    /// lies after `end`, or `end` past the end of `digest`.
    pub fn token<'a>(digest: &'a str, beg: usize, end: usize) -> (out: Option<&'a str>)
        ensures
            match out {
                Some(t) => token_of(digest@, beg as nat, end as nat) == Some(t@),
                None => token_of(digest@, beg as nat, end as nat) is None,
            },
    {
        let n: usize = digest.unicode_len();
        if beg <= end && end <= n {
            Some(digest.substring_char(beg, end))
        } else {
            None
        }
    }

    /// The first message of the stream for `task_id` and `token`.
    pub fn ping_message(task_id: &str, token: &str) -> (out: String)
        ensures
            out@ == payload(task_id@, token@),
    {
        let mut out = String::new();
        out.append("{\"task_id\":\"");
        out.append(task_id);
        out.append("\",\"task_token\":\"");
        out.append(token);
        out.append("\"}");
        assert(out@ =~= payload(task_id@, token@));
        out
    }

    /// Derives the stream's first message from the page `html` that the
    /// service answered the negotiation request with. Fails with
    /// `Negotiation` where the page holds no task id after `task_id=`, and
    /// with `TokenRange` where the token window does not lie within the digest.
    pub fn req_wssocket_msg(&self, html: &str) -> (out: Result<String, ProbeError>)
        ensures
            match out {
                Ok(msg) => negotiated(self@, html@) == Ok::<Seq<char>, ProbeError>(msg@),
                Err(e) => negotiated(self@, html@) == Err::<Seq<char>, ProbeError>(e),
            },
    {
        let task_id = match Self::find_task_id(html, "task_id=") {
            Some(id) => id,
            None => {
                return Err(ProbeError::Negotiation);
            },
        };
        let md5 = Self::generate_md5(task_id, self.key.as_str());
        match Self::token(md5.as_str(), self.beg, self.end) {
            Some(token) => Ok(Self::ping_message(task_id, token)),
            None => Err(ProbeError::TokenRange),
        }
    }
}

} // verus!

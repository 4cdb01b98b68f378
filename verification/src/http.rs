//! Requests and answers as plain values. The library decides what is sent
//! and what an answer means; the caller moves the bytes.

use crate::error::opt_text;
use vstd::prelude::*;

verus! {

/// The methods that the library sends.
#[derive(Debug, Clone, Copy, PartialEq, Eq, Structural)]
pub enum Method {
    Get,
    Put,
    Delete,
    Propfind,
}

/// A header of a request.
#[derive(Debug, Clone, PartialEq, Eq)]
pub struct Header {
    pub name: String,
    pub value: String,
}

/// The content of a [`Header`].
pub ghost struct HeaderView {
    pub name: Seq<char>,
    pub value: Seq<char>,
}

impl View for Header {
    type V = HeaderView;

    open spec fn view(&self) -> HeaderView {
        HeaderView { name: self.name@, value: self.value@ }
    }
}

/// A request, sent with HTTP Basic authentication.
#[derive(Debug, Clone, PartialEq, Eq)]
pub struct HttpRequest {
    pub method: Method,
    pub url: String,
    pub username: String,
    pub password: String,
    pub headers: Vec<Header>,
    pub body: Option<String>,
}

/// The content of an [`HttpRequest`].
pub ghost struct HttpRequestView {
    pub method: Method,
    pub url: Seq<char>,
    pub username: Seq<char>,
    pub password: Seq<char>,
    pub headers: Seq<HeaderView>,
    pub body: Option<Seq<char>>,
}

impl View for HttpRequest {
    type V = HttpRequestView;

    open spec fn view(&self) -> HttpRequestView {
        HttpRequestView {
            method: self.method,
            url: self.url@,
            username: self.username@,
            password: self.password@,
            headers: Seq::new(self.headers@.len(), |i: int| self.headers@[i]@),
            body: opt_text(self.body),
        }
    }
}

/// The value of the first header of a request that has the given name.
pub open spec fn request_header(headers: Seq<HeaderView>, name: Seq<char>) -> Option<Seq<char>>
    decreases headers.len(),
{
    if headers.len() == 0 {
        None
    } else if headers.first().name == name {
        Some(headers.first().value)
    } else {
        request_header(headers.drop_first(), name)
    }
}

/// A header of an answer: the name, in whatever case the server wrote it,
/// and the bytes of the value.
#[derive(Debug, Clone, PartialEq, Eq)]
pub struct ReplyHeader {
    pub name: String,
    pub value: Vec<u8>,
}

/// The content of a [`ReplyHeader`].
pub ghost struct ReplyHeaderView {
    pub name: Seq<char>,
    pub value: Seq<u8>,
}

impl View for ReplyHeader {
    type V = ReplyHeaderView;

    open spec fn view(&self) -> ReplyHeaderView {
        ReplyHeaderView { name: self.name@, value: self.value@ }
    }
}

/// A status code of HTTP: a number of three digits.
#[derive(Debug, Clone, Copy, PartialEq, Eq)]
pub struct StatusCode {
    code: u16,
}

impl StatusCode {
    #[verifier::type_invariant]
    spec fn valid(self) -> bool {
        is_status_code(self.code)
    }

    /// The number.
    pub closed spec fn code(self) -> u16 {
        self.code
    }

    /// The status code of a number, where the number has three digits.
    pub fn new(code: u16) -> (status: Option<StatusCode>)
        ensures
            status.is_some() == is_status_code(code),
            status.is_some() ==> status.unwrap().code() == code,
    {
        if 100 <= code && code < 1000 {
            Some(StatusCode { code })
        } else {
            None
        }
    }

    /// The number.
    pub fn as_u16(&self) -> (code: u16)
        ensures
            code == self.code(),
            is_status_code(code),
    {
        proof {
            use_type_invariant(self);
        }
        self.code
    }

    /// Tells whether the status is in the class 2xx.
    pub fn is_success(&self) -> (ok: bool)
        ensures
            ok == is_success_code(self.code()),
    {
        200 <= self.code && self.code < 300
    }

    /// The status line: the number, a space and the canonical reason
    /// phrase.
    pub fn line(&self) -> (line: String)
        ensures
            line@ == status_text(self.code()),
    {
        status_line_of(self.as_u16())
    }
}

/// An answer of the server. `body` is `None` where the body could not be
/// received.
#[derive(Debug, Clone, PartialEq, Eq)]
pub struct HttpResponse {
    pub status: StatusCode,
    pub headers: Vec<ReplyHeader>,
    pub body: Option<String>,
}

/// The content of an [`HttpResponse`].
pub ghost struct HttpResponseView {
    pub status: u16,
    pub headers: Seq<ReplyHeaderView>,
    pub body: Option<Seq<char>>,
}

impl View for HttpResponse {
    type V = HttpResponseView;

    open spec fn view(&self) -> HttpResponseView {
        HttpResponseView {
            status: self.status.code(),
            headers: Seq::new(self.headers@.len(), |i: int| self.headers@[i]@),
            body: opt_text(self.body),
        }
    }
}

/// A status code of HTTP has three digits.
pub open spec fn is_status_code(code: u16) -> bool {
    100 <= code < 1000
}

/// The class of status codes that report success.
pub open spec fn is_success_code(code: u16) -> bool {
    200 <= code < 300
}

/// A byte that may stand in the text of a header value: printable ASCII, or
/// a tab.
pub open spec fn is_visible_ascii(b: u8) -> bool {
    (32 <= b && b < 127) || b == 9
}

/// Whether a header value is text.
pub open spec fn is_text(value: Seq<u8>) -> bool {
    forall|i: int| 0 <= i < value.len() ==> is_visible_ascii(#[trigger] value[i])
}

/// The characters of a header value that is text.
pub open spec fn text_of(value: Seq<u8>) -> Seq<char> {
    Seq::new(value.len(), |i: int| value[i] as char)
}

/// The lower case form of an ASCII letter, and any other character as it
/// is.
pub open spec fn lower(c: char) -> char {
    if 'A' <= c && c <= 'Z' {
        ((c as u8) + 32) as char
    } else {
        c
    }
}

/// Whether two header names are the same: names do not tell upper case
/// from lower case.
pub open spec fn same_name(a: Seq<char>, b: Seq<char>) -> bool {
    a.len() == b.len() && forall|i: int| 0 <= i < a.len() ==> lower(#[trigger] a[i]) == lower(b[i])
}

/// The bytes of the first header of an answer that has the given name.
pub open spec fn reply_header(headers: Seq<ReplyHeaderView>, name: Seq<char>) -> Option<Seq<u8>>
    decreases headers.len(),
{
    if headers.len() == 0 {
        None
    } else if same_name(headers.first().name, name) {
        Some(headers.first().value)
    } else {
        reply_header(headers.drop_first(), name)
    }
}

/// The text of the first header of an answer that has the given name, where
/// there is such a header and its value is text.
pub open spec fn reply_header_text(headers: Seq<ReplyHeaderView>, name: Seq<char>) -> Option<
    Seq<char>,
> {
    match reply_header(headers, name) {
        Some(value) => if is_text(value) {
            Some(text_of(value))
        } else {
            None
        },
        None => None,
    }
}

/// The status line that `http` prints for a status code: the number, a
/// space and the canonical reason phrase.
pub uninterp spec fn status_text(code: u16) -> Seq<char>;

/// Calls `reqwest::StatusCode::from_u16` and, on the status code it returns,
/// `to_string`. Trusted: the text is a function of the code alone, which
/// [`status_text`] names. `from_u16` accepts the codes from 100 to 999.
#[verifier::external_body]
fn status_line_of(code: u16) -> (line: String)
    requires
        is_status_code(code),
    ensures
        line@ == status_text(code),
{
    match reqwest::StatusCode::from_u16(code) {
        Ok(status) => status.to_string(),
        Err(_) => String::new(),
    }
}

/// Calls `reqwest::header::HeaderValue::from_bytes` and, on the value it
/// returns, `to_str`. Trusted: `from_bytes` accepts every byte from 32 on
/// but 127, and the tab; `to_str` then gives the bytes as text where each is
/// printable ASCII or a tab, and fails otherwise.
#[verifier::external_body]
pub(crate) fn header_text(value: &[u8]) -> (text: Option<String>)
    ensures
        text.is_some() == is_text(value@),
        text.is_some() ==> text.unwrap()@ == text_of(value@),
{
    match reqwest::header::HeaderValue::from_bytes(value) {
        Ok(v) => match v.to_str() {
            Ok(s) => Some(s.to_owned()),
            Err(_) => None,
        },
        Err(_) => None,
    }
}

/// The reason of a failure: the body that the server sent, or the status
/// line where there is no body or an empty one.
pub open spec fn reason_from(body: Option<Seq<char>>, status_line: Seq<char>) -> Seq<char> {
    match body {
        Some(text) => if text.len() > 0 {
            text
        } else {
            status_line
        },
        None => status_line,
    }
}

/// The reason that an answer gives for a failure.
pub open spec fn failure_reason(response: HttpResponseView) -> Seq<char> {
    reason_from(response.body, status_text(response.status))
}

/// Gives the lower case form of an ASCII letter, and any other character
/// as it is.
pub fn to_lower(c: char) -> (r: char)
    ensures
        r == lower(c),
{
    if 'A' <= c && c <= 'Z' {
        ((c as u8) + 32) as char
    } else {
        c
    }
}

/// Tells whether two header names are the same.
pub fn names_match(a: &str, b: &str) -> (r: bool)
    ensures
        r == same_name(a@, b@),
{
    let n: usize = a.unicode_len();
    if n != b.unicode_len() {
        return false;
    }
    let mut i: usize = 0;
    while i < n
        invariant
            i <= n,
            n == a@.len(),
            n == b@.len(),
            forall|k: int| 0 <= k < i ==> lower(#[trigger] a@[k]) == lower(b@[k]),
        decreases n - i,
    {
        if to_lower(a.get_char(i)) != to_lower(b.get_char(i)) {
            return false;
        }
        i = i + 1;
    }
    true
}

/// Chooses the reason of a failure between the body and the status line.
pub fn reason_of(body: &Option<String>, status_line: String) -> (reason: String)
    ensures
        reason@ == reason_from(opt_text(*body), status_line@),
{
    match body {
        Some(text) => {
            if text.as_str().unicode_len() > 0 {
                text.clone()
            } else {
                status_line
            }
        },
        None => status_line,
    }
}

impl HttpResponse {
    /// Tells whether the status is in the class 2xx.
    pub fn is_success(&self) -> (ok: bool)
        ensures
            ok == is_success_code(self@.status),
    {
        self.status.is_success()
    }

    /// The reason that the answer gives for a failure.
    pub fn reason(&self) -> (reason: String)
        ensures
            reason@ == failure_reason(self@),
    {
        reason_of(&self.body, self.status.line())
    }

    /// The bytes of the first header with the given name.
    pub fn header(&self, name: &str) -> (value: Option<&Vec<u8>>)
        ensures
            match value {
                Some(v) => reply_header(self@.headers, name@) == Some(v@),
                None => reply_header(self@.headers, name@).is_none(),
            },
    {
        let mut i: usize = 0;
        assert(self@.headers.subrange(0, self@.headers.len() as int) == self@.headers);
        while i < self.headers.len()
            invariant
                i <= self.headers@.len(),
                reply_header(self@.headers, name@) == reply_header(
                    self@.headers.subrange(i as int, self@.headers.len() as int),
                    name@,
                ),
            decreases self.headers@.len() - i,
        {
            let ghost rest = self@.headers.subrange(i as int, self@.headers.len() as int);
            assert(rest.first() == self.headers@[i as int]@);
            if names_match(self.headers[i].name.as_str(), name) {
                return Some(&self.headers[i].value);
            }
            assert(rest.drop_first() == self@.headers.subrange(
                i + 1,
                self@.headers.len() as int,
            ));
            i = i + 1;
        }
        None
    }

    /// The text of the first header with the given name, where its value is
    /// text.
    pub fn header_str(&self, name: &str) -> (text: Option<String>)
        ensures
            opt_text(text) == reply_header_text(self@.headers, name@),
    {
        match self.header(name) {
            Some(value) => header_text(value.as_slice()),
            None => None,
        }
    }
}

} // verus!

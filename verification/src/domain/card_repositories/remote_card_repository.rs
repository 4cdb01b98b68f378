//! The repository that keeps its cards on a CardDAV server. Every operation
//! is one exchange: a function that says what to send, and a function that
//! says what the answer means.

use crate::date::{parse_rfc2822, parsed_view, rfc2822_value, timestamp_of, Timestamp};
use crate::domain::card_entity::{Card, CardView};
use crate::domain::card_repository::{not_implemented, unimplemented};
use crate::error::{opt_text, Error, ErrorKind, ErrorView};
use crate::http::{
    failure_reason, header_text, is_success_code, is_text, reply_header, reply_header_text,
    request_header, text_of, Header, HeaderView, HttpRequest, HttpRequestView, HttpResponse,
    HttpResponseView, Method,
};
use crate::text::{quote, quoting};
use vstd::prelude::*;

verus! {

/// What came of sending a request: the answer, or the reason why none came.
pub type Reply = Result<HttpResponse, String>;

/// The content of a [`Reply`].
pub open spec fn reply_view(reply: Reply) -> Result<HttpResponseView, Seq<char>> {
    match reply {
        Ok(response) => Ok(response@),
        Err(reason) => Err(reason@),
    }
}

/// The address of a card: the collection, the id and the extension `.vcf`.
pub open spec fn card_url(base: Seq<char>, id: Seq<char>) -> Seq<char> {
    base + id + ".vcf"@
}

/// The header that says what a `PUT` carries.
pub open spec fn content_type() -> HeaderView {
    HeaderView { name: "Content-Type"@, value: "text/vcard; charset=utf-8"@ }
}

/// The headers that make a request conditional on the version that the
/// caller has seen: `If-Match` with the etag where there is one, nothing
/// where there is none.
pub open spec fn if_match(etag: Option<Seq<char>>) -> Seq<HeaderView> {
    match etag {
        Some(tag) => seq![HeaderView { name: "If-Match"@, value: tag }],
        None => seq![],
    }
}

/// The etag of a card after an answer: the one in the header `etag` where
/// the answer has one that is text, the one before otherwise.
pub open spec fn etag_after(before: Option<Seq<char>>, response: HttpResponseView) -> Option<
    Seq<char>,
> {
    match reply_header_text(response.headers, "etag"@) {
        Some(tag) => Some(tag),
        None => before,
    }
}

/// What the answer to a request that changes the server means: an error
/// under `context` where nothing came or the status is outside 2xx, success
/// otherwise.
pub open spec fn exchange_failure(
    context: Seq<char>,
    reply: Result<HttpResponseView, Seq<char>>,
) -> Option<ErrorView> {
    match reply {
        Err(reason) => Some(
            ErrorView { kind: ErrorKind::TransportError, context, reason: Some(reason) },
        ),
        Ok(response) => if is_success_code(response.status) {
            None
        } else {
            Some(
                ErrorView {
                    kind: ErrorKind::HttpStatusError,
                    context,
                    reason: Some(failure_reason(response)),
                },
            )
        },
    }
}

/// The card after `create` or `update`, or the error.
pub open spec fn store_outcome(
    context: Seq<char>,
    card: CardView,
    reply: Result<HttpResponseView, Seq<char>>,
) -> Result<CardView, ErrorView> {
    match exchange_failure(context, reply) {
        Some(e) => Err(e),
        None => Ok(CardView { etag: etag_after(card.etag, reply->Ok_0), ..card }),
    }
}

/// The card that `read` returns once the date of the last change has been
/// looked at, or the error.
pub open spec fn assembled(
    id: Seq<char>,
    etag: Option<Seq<char>>,
    date: Result<Timestamp, Seq<char>>,
    body: Option<Seq<char>>,
) -> Result<CardView, ErrorView> {
    match date {
        Err(e) => Err(
            ErrorView {
                kind: ErrorKind::DateParseError,
                context: quoting("cannot parse last modified date of card "@, id),
                reason: Some(e),
            },
        ),
        Ok(instant) => match body {
            None => Err(
                ErrorView {
                    kind: ErrorKind::TransportError,
                    context: quoting("cannot read content of card "@, id),
                    reason: None,
                },
            ),
            Some(raw) => Ok(CardView { id, etag, date: instant, raw }),
        },
    }
}

/// The card that `read` returns, or the error.
pub open spec fn read_outcome(id: Seq<char>, reply: Result<HttpResponseView, Seq<char>>) -> Result<
    CardView,
    ErrorView,
> {
    match exchange_failure(quoting("cannot read card "@, id), reply) {
        Some(e) => Err(e),
        None => match reply_header(reply->Ok_0.headers, "last-modified"@) {
            None => Err(
                ErrorView {
                    kind: ErrorKind::MissingRequiredHeader,
                    context: quoting("cannot get last modified date of card "@, id),
                    reason: None,
                },
            ),
            Some(value) => if is_text(value) {
                assembled(
                    id,
                    reply_header_text(reply->Ok_0.headers, "etag"@),
                    timestamp_of(rfc2822_value(text_of(value))),
                    reply->Ok_0.body,
                )
            } else {
                Err(
                    ErrorView {
                        kind: ErrorKind::DateParseError,
                        context: quoting("cannot parse last modified date of card "@, id),
                        reason: None,
                    },
                )
            },
        },
    }
}

/// Whether a result of `read` is the given outcome.
pub open spec fn is_outcome(result: Result<Card, Error>, outcome: Result<CardView, ErrorView>) -> bool
{
    match result {
        Ok(card) => outcome == Ok::<CardView, ErrorView>(card@),
        Err(e) => outcome == Err::<CardView, ErrorView>(e@),
    }
}

/// Takes from a reply the answer that reports success, or gives the error
/// under `context`: nothing came, or the status is outside 2xx.
pub fn successful(context: String, reply: &Reply) -> (result: Result<&HttpResponse, Error>)
    ensures
        match result {
            Ok(response) => exchange_failure(context@, reply_view(*reply)).is_none() && *reply
                == Ok::<HttpResponse, String>(*response),
            Err(e) => exchange_failure(context@, reply_view(*reply)) == Some(e@),
        },
{
    match reply {
        Err(reason) => Err(Error::caused_by(ErrorKind::TransportError, context, reason.clone())),
        Ok(response) => {
            if response.is_success() {
                Ok(response)
            } else {
                Err(Error::caused_by(ErrorKind::HttpStatusError, context, response.reason()))
            }
        },
    }
}

/// Puts together the card that `read` returns from what the answer held.
pub fn assemble(id: &str, etag: Option<String>, date: Result<Timestamp, String>, body: &Option<
    String,
>) -> (result: Result<Card, Error>)
    ensures
        is_outcome(result, assembled(id@, opt_text(etag), parsed_view(date), opt_text(*body))),
{
    match date {
        Err(e) => Err(
            Error::caused_by(
                ErrorKind::DateParseError,
                quote("cannot parse last modified date of card ", id),
                e,
            ),
        ),
        Ok(instant) => match body {
            None => Err(
                Error::new(
                    ErrorKind::TransportError,
                    quote("cannot read content of card ", id),
                ),
            ),
            Some(raw) => Ok(
                Card { id: String::from_str(id), etag, date: instant, raw: raw.clone() },
            ),
        },
    }
}

/// A repository on a CardDAV server: the address of the addressbook
/// collection, found once, and the password that every request carries.
#[derive(Debug, Clone, PartialEq, Eq)]
pub struct RemoteCardRepository {
    pub addressbook_path: String,
    pub password: String,
}

impl RemoteCardRepository {
    /// The repository of the collection at `path` on `host`.
    pub fn new(host: &str, path: &str, password: &str) -> (repository: Self)
        ensures
            repository.addressbook_path@ == host@ + path@,
            repository.password@ == password@,
    {
        let mut addressbook_path = String::from_str(host);
        addressbook_path.append(path);
        RemoteCardRepository { addressbook_path, password: String::from_str(password) }
    }

    /// The request that an operation on the card `id` sends.
    pub open spec fn request_for(
        &self,
        method: Method,
        id: Seq<char>,
        headers: Seq<HeaderView>,
        body: Option<Seq<char>>,
    ) -> HttpRequestView {
        HttpRequestView {
            method,
            url: card_url(self.addressbook_path@, id),
            username: "user"@,
            password: self.password@,
            headers,
            body,
        }
    }

    /// The request that `create` sends.
    pub open spec fn create_request_spec(&self, card: CardView) -> HttpRequestView {
        self.request_for(Method::Put, card.id, seq![content_type()], Some(card.raw))
    }

    /// The request that `read` sends.
    pub open spec fn read_request_spec(&self, id: Seq<char>) -> HttpRequestView {
        self.request_for(
            Method::Get,
            id,
            seq![HeaderView { name: "Depth"@, value: "1"@ }],
            None,
        )
    }

    /// The request that `update` sends.
    pub open spec fn update_request_spec(&self, card: CardView) -> HttpRequestView {
        self.request_for(
            Method::Put,
            card.id,
            seq![content_type()] + if_match(card.etag),
            Some(card.raw),
        )
    }

    /// The request that `delete` sends.
    pub open spec fn delete_request_spec(&self, card: CardView) -> HttpRequestView {
        self.request_for(Method::Delete, card.id, if_match(card.etag), None)
    }

    fn request(
        &self,
        method: Method,
        id: &str,
        headers: Vec<Header>,
        body: Option<String>,
    ) -> (request: HttpRequest)
        ensures
            request@ == self.request_for(
                method,
                id@,
                Seq::new(headers@.len(), |i: int| headers@[i]@),
                opt_text(body),
            ),
    {
        let mut url = self.addressbook_path.clone();
        url.append(id);
        url.append(".vcf");
        HttpRequest {
            method,
            url,
            username: String::from_str("user"),
            password: self.password.clone(),
            headers,
            body,
        }
    }

    /// What `create` sends: a `PUT` of the vCard to the address of the card.
    pub fn create_request(&self, card: &Card) -> (request: HttpRequest)
        ensures
            request@ == self.create_request_spec(card@),
    {
        let mut headers: Vec<Header> = Vec::new();
        headers.push(content_type_header());
        let request = self.request(Method::Put, card.id.as_str(), headers, Some(card.raw.clone()));
        assert(request@.headers =~= seq![content_type()]);
        request
    }

    /// Takes the answer to the request of `create`. On success the card has
    /// the etag that the server sent, or keeps its own where none came.
    pub fn create(&self, card: &mut Card, reply: &Reply) -> (result: Result<(), Error>)
        ensures
            match store_outcome("cannot create card"@, old(card)@, reply_view(*reply)) {
                Ok(stored) => result.is_ok() && final(card)@ == stored,
                Err(e) => result.is_err() && result.unwrap_err()@ == e && final(card)@ == old(
                    card,
                )@,
            },
    {
        store(String::from_str("cannot create card"), card, reply)
    }

    /// What `read` sends: a `GET` of the address of the card, with the
    /// header `Depth: 1`.
    pub fn read_request(&self, id: &str) -> (request: HttpRequest)
        ensures
            request@ == self.read_request_spec(id@),
    {
        let mut headers: Vec<Header> = Vec::new();
        headers.push(Header { name: String::from_str("Depth"), value: String::from_str("1") });
        let request = self.request(Method::Get, id, headers, None);
        assert(request@.headers =~= seq![HeaderView { name: "Depth"@, value: "1"@ }]);
        request
    }

    /// Takes the answer to the request of `read`. The card has the body as
    /// its vCard, the header `etag` as its etag and the header
    /// `last-modified`, which must be there and be a date, as its date.
    pub fn read(&self, id: &str, reply: &Reply) -> (result: Result<Card, Error>)
        ensures
            is_outcome(result, read_outcome(id@, reply_view(*reply))),
    {
        match successful(quote("cannot read card ", id), reply) {
            Err(e) => Err(e),
            Ok(response) => {
                match response.header("last-modified") {
                    None => Err(
                        Error::new(
                            ErrorKind::MissingRequiredHeader,
                            quote("cannot get last modified date of card ", id),
                        ),
                    ),
                    Some(value) => {
                        match header_text(value.as_slice()) {
                            None => Err(
                                Error::new(
                                    ErrorKind::DateParseError,
                                    quote("cannot parse last modified date of card ", id),
                                ),
                            ),
                            Some(text) => {
                                let date = parse_rfc2822(text.as_str());
                                let etag = response.header_str("etag");
                                assemble(id, etag, date, &response.body)
                            },
                        }
                    },
                }
            },
        }
    }

    /// Listing the whole addressbook has no behaviour yet: the error says so.
    pub fn read_all(&self) -> (result: Result<Vec<Card>, Error>)
        ensures
            result.is_err(),
            result.unwrap_err()@ == unimplemented("cannot read all cards: not implemented"@),
    {
        Err(not_implemented("cannot read all cards: not implemented"))
    }

    /// What `update` sends: a `PUT` of the vCard to the address of the card,
    /// with `If-Match` exactly where the card has an etag.
    pub fn update_request(&self, card: &Card) -> (request: HttpRequest)
        ensures
            request@ == self.update_request_spec(card@),
    {
        let mut headers: Vec<Header> = Vec::new();
        headers.push(content_type_header());
        match &card.etag {
            Some(tag) => {
                headers.push(Header { name: String::from_str("If-Match"), value: tag.clone() });
            },
            None => {},
        }
        let request = self.request(Method::Put, card.id.as_str(), headers, Some(card.raw.clone()));
        assert(request@.headers =~= seq![content_type()] + if_match(card@.etag));
        request
    }

    /// Takes the answer to the request of `update`. On success the card has
    /// the etag that the server sent, or keeps its own where none came.
    pub fn update(&self, card: &mut Card, reply: &Reply) -> (result: Result<(), Error>)
        ensures
            match store_outcome(
                quoting("cannot update card "@, old(card)@.id),
                old(card)@,
                reply_view(*reply),
            ) {
                Ok(stored) => result.is_ok() && final(card)@ == stored,
                Err(e) => result.is_err() && result.unwrap_err()@ == e && final(card)@ == old(
                    card,
                )@,
            },
    {
        let context = quote("cannot update card ", card.id.as_str());
        store(context, card, reply)
    }

    /// What `delete` sends: a `DELETE` of the address of the card, with
    /// `If-Match` exactly where the card has an etag.
    pub fn delete_request(&self, card: &Card) -> (request: HttpRequest)
        ensures
            request@ == self.delete_request_spec(card@),
    {
        let mut headers: Vec<Header> = Vec::new();
        match &card.etag {
            Some(tag) => {
                headers.push(Header { name: String::from_str("If-Match"), value: tag.clone() });
            },
            None => {},
        }
        let request = self.request(Method::Delete, card.id.as_str(), headers, None);
        assert(request@.headers =~= if_match(card@.etag));
        request
    }

    /// Takes the answer to the request of `delete`: the error where nothing
    /// came or the status is outside 2xx, success otherwise.
    pub fn delete(&self, card: &Card, reply: &Reply) -> (result: Result<(), Error>)
        ensures
            match exchange_failure(
                quoting("cannot delete card "@, card@.id),
                reply_view(*reply),
            ) {
                Some(e) => result.is_err() && result.unwrap_err()@ == e,
                None => result.is_ok(),
            },
    {
        match successful(quote("cannot delete card ", card.id.as_str()), reply) {
            Err(e) => Err(e),
            Ok(_) => Ok(()),
        }
    }
}

/// The header that says what a `PUT` carries.
fn content_type_header() -> (header: Header)
    ensures
        header@ == content_type(),
{
    Header {
        name: String::from_str("Content-Type"),
        value: String::from_str("text/vcard; charset=utf-8"),
    }
}

/// Takes the answer to a `PUT`: the error under `context`, or the card with
/// the etag that the server sent.
fn store(context: String, card: &mut Card, reply: &Reply) -> (result: Result<(), Error>)
    ensures
        match store_outcome(context@, old(card)@, reply_view(*reply)) {
            Ok(stored) => result.is_ok() && final(card)@ == stored,
            Err(e) => result.is_err() && result.unwrap_err()@ == e && final(card)@ == old(card)@,
        },
{
    match successful(context, reply) {
        Err(e) => Err(e),
        Ok(response) => {
            match response.header_str("etag") {
                Some(tag) => {
                    card.etag = Some(tag);
                },
                None => {},
            }
            Ok(())
        },
    }
}

/// Whether a reply is what a server answers to `read` while it holds the
/// card as it was stored: success, the vCard as the body, and the etag of
/// the card as the header `etag`.
pub open spec fn serves(reply: Result<HttpResponseView, Seq<char>>, card: CardView) -> bool {
    &&& reply.is_ok()
    &&& is_success_code(reply->Ok_0.status)
    &&& reply->Ok_0.body == Some(card.raw)
    &&& reply_header_text(reply->Ok_0.headers, "etag"@) == card.etag
}

/// Whether a card in hand and a card that was read agree in id, etag and
/// vCard.
pub open spec fn same_card(held: CardView, read: CardView) -> bool {
    held.id == read.id && held.etag == read.etag && held.raw == read.raw
}

/// A card that was stored and is read back from a server that holds it
/// comes back with the same id, etag and vCard. The one way in which such a
/// `read` can fail is the date of the last change.
pub proof fn lemma_read_gives_what_was_stored(
    context: Seq<char>,
    card: CardView,
    stored_reply: Result<HttpResponseView, Seq<char>>,
    read_reply: Result<HttpResponseView, Seq<char>>,
)
    requires
        store_outcome(context, card, stored_reply).is_ok(),
        serves(read_reply, store_outcome(context, card, stored_reply)->Ok_0),
    ensures
        store_outcome(context, card, stored_reply)->Ok_0.id == card.id,
        store_outcome(context, card, stored_reply)->Ok_0.raw == card.raw,
        match read_outcome(card.id, read_reply) {
            Ok(read) => same_card(store_outcome(context, card, stored_reply)->Ok_0, read),
            Err(e) => e.kind == ErrorKind::MissingRequiredHeader || e.kind
                == ErrorKind::DateParseError,
        },
{
}

/// Where `create` or `update` succeeds and the answer carries an etag, the
/// card has that etag afterwards; so its etag has changed wherever the
/// server sent one that differs from the one before.
pub proof fn lemma_store_takes_the_etag_sent(
    context: Seq<char>,
    card: CardView,
    reply: Result<HttpResponseView, Seq<char>>,
    tag: Seq<char>,
)
    requires
        store_outcome(context, card, reply).is_ok(),
        reply_header_text(reply->Ok_0.headers, "etag"@) == Some(tag),
    ensures
        store_outcome(context, card, reply)->Ok_0.etag == Some(tag),
        card.etag != Some(tag) ==> store_outcome(context, card, reply)->Ok_0.etag != card.etag,
{
}

/// Where `create` or `update` succeeds and the answer carries no etag, the
/// card keeps the one it had.
pub proof fn lemma_store_keeps_the_etag_without_one(
    context: Seq<char>,
    card: CardView,
    reply: Result<HttpResponseView, Seq<char>>,
)
    requires
        store_outcome(context, card, reply).is_ok(),
        reply_header_text(reply->Ok_0.headers, "etag"@).is_none(),
    ensures
        store_outcome(context, card, reply)->Ok_0 == card,
{
}

/// Reading a card that the server does not hold, so that it answers with a
/// status outside 2xx or not at all, fails with the message
/// `cannot read card "<id>"`.
pub proof fn lemma_read_of_a_missing_card_fails(
    id: Seq<char>,
    reply: Result<HttpResponseView, Seq<char>>,
)
    requires
        reply.is_ok() ==> !is_success_code(reply->Ok_0.status),
    ensures
        read_outcome(id, reply).is_err(),
        read_outcome(id, reply)->Err_0.context == quoting("cannot read card "@, id),
{
}

/// The requests of `update` and `delete` carry `If-Match` exactly where the
/// card has an etag, and then with that etag.
pub proof fn lemma_if_match_iff_etag(repository: RemoteCardRepository, card: CardView)
    ensures
        request_header(repository.update_request_spec(card).headers, "If-Match"@) == card.etag,
        request_header(repository.delete_request_spec(card).headers, "If-Match"@) == card.etag,
        request_header(repository.create_request_spec(card).headers, "If-Match"@).is_none(),
{
    reveal_strlit("Content-Type");
    reveal_strlit("If-Match");
    let name = "If-Match"@;
    assert("Content-Type"@ != name) by {
        assert("Content-Type"@.len() != name.len());
    }
    let created = repository.create_request_spec(card).headers;
    assert(created.drop_first() =~= Seq::<HeaderView>::empty());
    assert(request_header(created.drop_first(), name).is_none());
    let updated = repository.update_request_spec(card).headers;
    let deleted = repository.delete_request_spec(card).headers;
    assert(updated.drop_first() =~= if_match(card.etag));
    match card.etag {
        Some(tag) => {
            assert(deleted.drop_first() =~= Seq::<HeaderView>::empty());
            assert(request_header(deleted.drop_first(), name).is_none());
            assert(request_header(deleted, name) == Some(tag));
        },
        None => {
            assert(request_header(deleted, name).is_none());
        },
    }
}

} // verus!

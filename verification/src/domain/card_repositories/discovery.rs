//! Finding the addressbook collection of a server: three questions, each
//! asked at the path that the answer before gave. A step whose answer lacks
//! what was asked for keeps the path it started from.

use crate::domain::card_repositories::multistatus::{
    AddressbookHomeSetProp, AddressbookProp, CurrentUserPrincipalProp, Multistatus, Response,
};
use crate::domain::card_repositories::remote_card_repository::RemoteCardRepository;
use crate::error::{Error, ErrorKind, ErrorView};
use crate::http::{HttpRequest, HttpRequestView, Method};
use crate::text::{ends_with, has_suffix};
use vstd::prelude::*;

verus! {

/// What came of a `PROPFIND`: the decoded document, or the stage at which
/// the exchange failed, with the reason.
#[derive(Debug, Clone, PartialEq, Eq)]
pub enum PropfindReply<P> {
    /// The request could not be sent.
    SendFailed(String),
    /// The body of the answer could not be received.
    BodyFailed(String),
    /// The body is no multistatus document of the expected shape.
    DecodeFailed(String),
    /// The document.
    Decoded(Multistatus<P>),
}

/// The error of a step that asked for `what`, or none where a document
/// came.
pub open spec fn propfind_failure<P>(what: Seq<char>, reply: PropfindReply<P>) -> Option<
    ErrorView,
> {
    match reply {
        PropfindReply::SendFailed(reason) => Some(
            ErrorView {
                kind: ErrorKind::TransportError,
                context: "cannot send "@ + what + " request"@,
                reason: Some(reason@),
            },
        ),
        PropfindReply::BodyFailed(reason) => Some(
            ErrorView {
                kind: ErrorKind::TransportError,
                context: "cannot extract text body from "@ + what + " response"@,
                reason: Some(reason@),
            },
        ),
        PropfindReply::DecodeFailed(reason) => Some(
            ErrorView {
                kind: ErrorKind::XmlDecodeError,
                context: "cannot parse "@ + what + " response"@,
                reason: Some(reason@),
            },
        ),
        PropfindReply::Decoded(_) => None,
    }
}

/// The principal that a document names: the one of its first response.
pub open spec fn principal_href(document: Multistatus<CurrentUserPrincipalProp>) -> Option<
    Seq<char>,
> {
    if document.responses@.len() == 0 {
        None
    } else {
        match document.responses@[0].propstat.prop.current_user_principal {
            Some(principal) => Some(principal.href.value@),
            None => None,
        }
    }
}

/// The home of the addressbooks that a document names: the one of its
/// first response.
pub open spec fn home_set_href(document: Multistatus<AddressbookHomeSetProp>) -> Option<
    Seq<char>,
> {
    if document.responses@.len() == 0 {
        None
    } else {
        match document.responses@[0].propstat.prop.addressbook_home_set {
            Some(home) => Some(home.href.value@),
            None => None,
        }
    }
}

/// Whether a response describes an addressbook that is there: its status
/// line ends in `200 OK` and its resource type has the addressbook marker.
pub open spec fn is_addressbook(response: Response<AddressbookProp>) -> bool {
    &&& match response.propstat.status {
        Some(status) => ends_with(status.value@, "200 OK"@),
        None => false,
    }
    &&& match response.propstat.prop.resourcetype {
        Some(kind) => kind.addressbook.is_some(),
        None => false,
    }
}

/// The address of the first response that describes an addressbook.
pub open spec fn first_addressbook(responses: Seq<Response<AddressbookProp>>) -> Option<Seq<char>>
    decreases responses.len(),
{
    if responses.len() == 0 {
        None
    } else if is_addressbook(responses.first()) {
        Some(responses.first().href.value@)
    } else {
        first_addressbook(responses.drop_first())
    }
}

/// The addressbook that a document names.
pub open spec fn addressbook_href(document: Multistatus<AddressbookProp>) -> Option<Seq<char>> {
    first_addressbook(document.responses@)
}

/// The path after a step: what the document named, or the path before.
pub open spec fn next_path(path: Seq<char>, found: Option<Seq<char>>) -> Seq<char> {
    match found {
        Some(href) => href,
        None => path,
    }
}

/// The outcome of the first step.
pub open spec fn principal_step(
    path: Seq<char>,
    reply: PropfindReply<CurrentUserPrincipalProp>,
) -> Result<Seq<char>, ErrorView> {
    match propfind_failure("current user principal"@, reply) {
        Some(e) => Err(e),
        None => Ok(next_path(path, principal_href(reply->Decoded_0))),
    }
}

/// The outcome of the second step.
pub open spec fn home_set_step(
    path: Seq<char>,
    reply: PropfindReply<AddressbookHomeSetProp>,
) -> Result<Seq<char>, ErrorView> {
    match propfind_failure("addressbook home set"@, reply) {
        Some(e) => Err(e),
        None => Ok(next_path(path, home_set_href(reply->Decoded_0))),
    }
}

/// The outcome of the third step.
pub open spec fn addressbook_step(path: Seq<char>, reply: PropfindReply<AddressbookProp>) -> Result<
    Seq<char>,
    ErrorView,
> {
    match propfind_failure("addressbook"@, reply) {
        Some(e) => Err(e),
        None => Ok(next_path(path, addressbook_href(reply->Decoded_0))),
    }
}

/// The outcome of the three steps, the first of which starts at `/`.
pub open spec fn discovered(
    principal: PropfindReply<CurrentUserPrincipalProp>,
    home_set: PropfindReply<AddressbookHomeSetProp>,
    addressbook: PropfindReply<AddressbookProp>,
) -> Result<Seq<char>, ErrorView> {
    match principal_step("/"@, principal) {
        Err(e) => Err(e),
        Ok(first) => match home_set_step(first, home_set) {
            Err(e) => Err(e),
            Ok(second) => addressbook_step(second, addressbook),
        },
    }
}

/// Whether a result of a step is the given outcome.
pub open spec fn is_step(result: Result<String, Error>, outcome: Result<Seq<char>, ErrorView>) -> bool
{
    match result {
        Ok(path) => outcome == Ok::<Seq<char>, ErrorView>(path@),
        Err(e) => outcome == Err::<Seq<char>, ErrorView>(e@),
    }
}

/// The body that asks for the principal of the current user.
pub const CURRENT_USER_PRINCIPAL_BODY: &'static str =
    "<D:propfind xmlns:D=\"DAV:\">\n  <D:prop><D:current-user-principal /></D:prop>\n</D:propfind>";

/// The body that asks for the home of the addressbooks.
pub const ADDRESSBOOK_HOME_SET_BODY: &'static str =
    "<D:propfind xmlns:D=\"DAV:\" xmlns:C=\"urn:ietf:params:xml:ns:carddav\">\n  <D:prop><C:addressbook-home-set /></D:prop>\n</D:propfind>";

/// A `PROPFIND` at `path` on `host`, without headers.
pub open spec fn propfind(
    host: Seq<char>,
    path: Seq<char>,
    password: Seq<char>,
    body: Option<Seq<char>>,
) -> HttpRequestView {
    HttpRequestView {
        method: Method::Propfind,
        url: host + path,
        username: "user"@,
        password,
        headers: seq![],
        body,
    }
}

fn propfind_request(host: &str, path: &str, password: &str, body: Option<String>) -> (request:
    HttpRequest)
    ensures
        request@ == propfind(host@, path@, password@, crate::error::opt_text(body)),
{
    let mut url = String::from_str(host);
    url.append(path);
    let request = HttpRequest {
        method: Method::Propfind,
        url,
        username: String::from_str("user"),
        password: String::from_str(password),
        headers: Vec::new(),
        body,
    };
    assert(request@.headers =~= seq![]);
    request
}

/// What the first step sends: the question for the principal of the
/// current user, at `path`.
pub fn current_user_principal_request(host: &str, path: &str, password: &str) -> (request:
    HttpRequest)
    ensures
        request@ == propfind(host@, path@, password@, Some(CURRENT_USER_PRINCIPAL_BODY@)),
{
    propfind_request(host, path, password, Some(String::from_str(CURRENT_USER_PRINCIPAL_BODY)))
}

/// What the second step sends: the question for the home of the
/// addressbooks, at `path`.
pub fn addressbook_home_set_request(host: &str, path: &str, password: &str) -> (request:
    HttpRequest)
    ensures
        request@ == propfind(host@, path@, password@, Some(ADDRESSBOOK_HOME_SET_BODY@)),
{
    propfind_request(host, path, password, Some(String::from_str(ADDRESSBOOK_HOME_SET_BODY)))
}

/// What the third step sends: a `PROPFIND` without a body, at `path`.
pub fn addressbook_request(host: &str, path: &str, password: &str) -> (request: HttpRequest)
    ensures
        request@ == propfind(host@, path@, password@, None),
{
    propfind_request(host, path, password, None)
}

/// Takes the document out of a reply, or gives the error of a step that
/// asked for `what`.
pub fn decoded<'a, P>(what: &str, reply: &'a PropfindReply<P>) -> (result: Result<
    &'a Multistatus<P>,
    Error,
>)
    ensures
        match result {
            Ok(document) => propfind_failure(what@, *reply).is_none() && *reply
                == PropfindReply::Decoded(*document),
            Err(e) => propfind_failure(what@, *reply) == Some(e@),
        },
{
    match reply {
        PropfindReply::SendFailed(reason) => {
            let mut context = String::from_str("cannot send ");
            context.append(what);
            context.append(" request");
            Err(Error::caused_by(ErrorKind::TransportError, context, reason.clone()))
        },
        PropfindReply::BodyFailed(reason) => {
            let mut context = String::from_str("cannot extract text body from ");
            context.append(what);
            context.append(" response");
            Err(Error::caused_by(ErrorKind::TransportError, context, reason.clone()))
        },
        PropfindReply::DecodeFailed(reason) => {
            let mut context = String::from_str("cannot parse ");
            context.append(what);
            context.append(" response");
            Err(Error::caused_by(ErrorKind::XmlDecodeError, context, reason.clone()))
        },
        PropfindReply::Decoded(document) => Ok(document),
    }
}

/// The first step: the path of the principal of the current user, or
/// `path` where the document names none.
pub fn fetch_current_user_principal_url(
    path: String,
    reply: &PropfindReply<CurrentUserPrincipalProp>,
) -> (result: Result<String, Error>)
    ensures
        is_step(result, principal_step(path@, *reply)),
{
    match decoded("current user principal", reply) {
        Err(e) => Err(e),
        Ok(document) => {
            if document.responses.len() == 0 {
                return Ok(path);
            }
            match &document.responses[0].propstat.prop.current_user_principal {
                Some(principal) => Ok(principal.href.value.clone()),
                None => Ok(path),
            }
        },
    }
}

/// The second step: the path of the home of the addressbooks, or `path`
/// where the document names none.
pub fn fetch_addressbook_home_set_url(
    path: String,
    reply: &PropfindReply<AddressbookHomeSetProp>,
) -> (result: Result<String, Error>)
    ensures
        is_step(result, home_set_step(path@, *reply)),
{
    match decoded("addressbook home set", reply) {
        Err(e) => Err(e),
        Ok(document) => {
            if document.responses.len() == 0 {
                return Ok(path);
            }
            match &document.responses[0].propstat.prop.addressbook_home_set {
                Some(home) => Ok(home.href.value.clone()),
                None => Ok(path),
            }
        },
    }
}

/// Tells whether a response describes an addressbook that is there.
pub fn describes_addressbook(response: &Response<AddressbookProp>) -> (r: bool)
    ensures
        r == is_addressbook(*response),
{
    let valid_status = match &response.propstat.status {
        Some(status) => has_suffix(status.value.as_str(), "200 OK"),
        None => false,
    };
    let has_addressbook = match &response.propstat.prop.resourcetype {
        Some(kind) => kind.addressbook.is_some(),
        None => false,
    };
    valid_status && has_addressbook
}

/// The third step: the path of the first addressbook that the document
/// describes, or `path` where it describes none.
pub fn fetch_addressbook_url(path: String, reply: &PropfindReply<AddressbookProp>) -> (result:
    Result<String, Error>)
    ensures
        is_step(result, addressbook_step(path@, *reply)),
{
    match decoded("addressbook", reply) {
        Err(e) => Err(e),
        Ok(document) => {
            let ghost all = document.responses@;
            let mut i: usize = 0;
            assert(all.subrange(0, all.len() as int) == all);
            while i < document.responses.len()
                invariant
                    i <= all.len(),
                    all == document.responses@,
                    *reply == PropfindReply::Decoded(*document),
                    first_addressbook(all) == first_addressbook(
                        all.subrange(i as int, all.len() as int),
                    ),
                decreases all.len() - i,
            {
                let ghost rest = all.subrange(i as int, all.len() as int);
                assert(rest.first() == all[i as int]);
                if describes_addressbook(&document.responses[i]) {
                    return Ok(document.responses[i].href.value.clone());
                }
                assert(rest.drop_first() == all.subrange(i + 1, all.len() as int));
                i = i + 1;
            }
            Ok(path)
        },
    }
}

/// The three steps in a row, from `/`: the path of the addressbook
/// collection, or the error of the first step that failed.
pub fn addressbook_path(
    principal: &PropfindReply<CurrentUserPrincipalProp>,
    home_set: &PropfindReply<AddressbookHomeSetProp>,
    addressbook: &PropfindReply<AddressbookProp>,
) -> (result: Result<String, Error>)
    ensures
        is_step(result, discovered(*principal, *home_set, *addressbook)),
{
    match fetch_current_user_principal_url(String::from_str("/"), principal) {
        Err(e) => Err(e),
        Ok(first) => match fetch_addressbook_home_set_url(first, home_set) {
            Err(e) => Err(e),
            Ok(second) => fetch_addressbook_url(second, addressbook),
        },
    }
}

/// Discovery before its first step: the principal of the current user is
/// asked for at `path`.
#[derive(Debug, Clone, PartialEq, Eq)]
pub struct PrincipalStep {
    pub host: String,
    pub password: String,
    pub path: String,
}

/// Discovery before its second step: the home of the addressbooks is asked
/// for at `path`.
#[derive(Debug, Clone, PartialEq, Eq)]
pub struct HomeSetStep {
    pub host: String,
    pub password: String,
    pub path: String,
}

/// Discovery before its third step: the collections at `path` are asked
/// for their type.
#[derive(Debug, Clone, PartialEq, Eq)]
pub struct AddressbookStep {
    pub host: String,
    pub password: String,
    pub path: String,
}

impl RemoteCardRepository {
    /// Starts the discovery of the addressbook collection of `host`, at
    /// the path `/`.
    pub fn discover(host: &str, password: &str) -> (step: PrincipalStep)
        ensures
            step.host@ == host@,
            step.password@ == password@,
            step.path@ == "/"@,
    {
        PrincipalStep {
            host: String::from_str(host),
            password: String::from_str(password),
            path: String::from_str("/"),
        }
    }
}

impl PrincipalStep {
    /// What this step sends.
    pub fn request(&self) -> (request: HttpRequest)
        ensures
            request@ == propfind(
                self.host@,
                self.path@,
                self.password@,
                Some(CURRENT_USER_PRINCIPAL_BODY@),
            ),
    {
        current_user_principal_request(
            self.host.as_str(),
            self.path.as_str(),
            self.password.as_str(),
        )
    }

    /// Takes the reply to the request of this step: the second step at the
    /// path that the document names, or at the same path where it names
    /// none; the error where the exchange failed.
    pub fn advance(self, reply: &PropfindReply<CurrentUserPrincipalProp>) -> (result: Result<
        HomeSetStep,
        Error,
    >)
        ensures
            match principal_step(self.path@, *reply) {
                Ok(path) => result.is_ok() && result.unwrap().host@ == self.host@
                    && result.unwrap().password@ == self.password@ && result.unwrap().path@
                    == path,
                Err(e) => result.is_err() && result.unwrap_err()@ == e,
            },
    {
        match fetch_current_user_principal_url(self.path, reply) {
            Ok(path) => Ok(HomeSetStep { host: self.host, password: self.password, path }),
            Err(e) => Err(e),
        }
    }
}

impl HomeSetStep {
    /// What this step sends.
    pub fn request(&self) -> (request: HttpRequest)
        ensures
            request@ == propfind(
                self.host@,
                self.path@,
                self.password@,
                Some(ADDRESSBOOK_HOME_SET_BODY@),
            ),
    {
        addressbook_home_set_request(
            self.host.as_str(),
            self.path.as_str(),
            self.password.as_str(),
        )
    }

    /// Takes the reply to the request of this step: the third step at the
    /// path that the document names, or at the same path where it names
    /// none; the error where the exchange failed.
    pub fn advance(self, reply: &PropfindReply<AddressbookHomeSetProp>) -> (result: Result<
        AddressbookStep,
        Error,
    >)
        ensures
            match home_set_step(self.path@, *reply) {
                Ok(path) => result.is_ok() && result.unwrap().host@ == self.host@
                    && result.unwrap().password@ == self.password@ && result.unwrap().path@
                    == path,
                Err(e) => result.is_err() && result.unwrap_err()@ == e,
            },
    {
        match fetch_addressbook_home_set_url(self.path, reply) {
            Ok(path) => Ok(AddressbookStep { host: self.host, password: self.password, path }),
            Err(e) => Err(e),
        }
    }
}

impl AddressbookStep {
    /// What this step sends.
    pub fn request(&self) -> (request: HttpRequest)
        ensures
            request@ == propfind(self.host@, self.path@, self.password@, None),
    {
        addressbook_request(self.host.as_str(), self.path.as_str(), self.password.as_str())
    }

    /// Takes the reply to the request of this step: the repository of the
    /// first addressbook that the document describes, or of the path of
    /// this step where it describes none; the error where the exchange
    /// failed.
    pub fn advance(self, reply: &PropfindReply<AddressbookProp>) -> (result: Result<
        RemoteCardRepository,
        Error,
    >)
        ensures
            match addressbook_step(self.path@, *reply) {
                Ok(path) => result.is_ok() && result.unwrap().addressbook_path@ == self.host@
                    + path && result.unwrap().password@ == self.password@,
                Err(e) => result.is_err() && result.unwrap_err()@ == e,
            },
    {
        match fetch_addressbook_url(self.path, reply) {
            Ok(path) => Ok(
                RemoteCardRepository::new(
                    self.host.as_str(),
                    path.as_str(),
                    self.password.as_str(),
                ),
            ),
            Err(e) => Err(e),
        }
    }
}

/// A step whose document lacks what was asked for keeps the path it
/// started from, and raises no error.
pub proof fn lemma_step_without_the_property_keeps_the_path(
    path: Seq<char>,
    principal: Multistatus<CurrentUserPrincipalProp>,
    home_set: Multistatus<AddressbookHomeSetProp>,
    addressbook: Multistatus<AddressbookProp>,
)
    ensures
        principal_href(principal).is_none() ==> principal_step(
            path,
            PropfindReply::Decoded(principal),
        ) == Ok::<Seq<char>, ErrorView>(path),
        home_set_href(home_set).is_none() ==> home_set_step(path, PropfindReply::Decoded(home_set))
            == Ok::<Seq<char>, ErrorView>(path),
        addressbook_href(addressbook).is_none() ==> addressbook_step(
            path,
            PropfindReply::Decoded(addressbook),
        ) == Ok::<Seq<char>, ErrorView>(path),
{
}

/// Discovery fails only where an exchange failed: with three documents it
/// gives a path, which is the one of the last step that named one, or `/`.
pub proof fn lemma_discovery_of_documents_succeeds(
    principal: Multistatus<CurrentUserPrincipalProp>,
    home_set: Multistatus<AddressbookHomeSetProp>,
    addressbook: Multistatus<AddressbookProp>,
)
    ensures
        discovered(
            PropfindReply::Decoded(principal),
            PropfindReply::Decoded(home_set),
            PropfindReply::Decoded(addressbook),
        ) == Ok::<Seq<char>, ErrorView>(
            next_path(
                next_path(next_path("/"@, principal_href(principal)), home_set_href(home_set)),
                addressbook_href(addressbook),
            ),
        ),
{
}

/// The addressbook that a document names is the address of its first
/// response that describes one; it names none where no response does.
pub proof fn lemma_first_addressbook(responses: Seq<Response<AddressbookProp>>)
    ensures
        match first_addressbook(responses) {
            Some(href) => exists|i: int|
                0 <= i < responses.len() && is_addressbook(#[trigger] responses[i]) && href
                    == responses[i].href.value@ && forall|j: int|
                    0 <= j < i ==> !is_addressbook(#[trigger] responses[j]),
            None => forall|j: int|
                0 <= j < responses.len() ==> !is_addressbook(#[trigger] responses[j]),
        },
    decreases responses.len(),
{
    if responses.len() > 0 {
        let rest = responses.drop_first();
        lemma_first_addressbook(rest);
        assert forall|j: int| 0 <= j < rest.len() implies rest[j] == responses[j + 1] by {}
        assert forall|j: int| 0 < j < responses.len() implies responses[j] == rest[j - 1] by {}
        if is_addressbook(responses.first()) {
            assert(is_addressbook(responses[0]));
        } else if let Some(href) = first_addressbook(rest) {
            let k = choose|k: int|
                0 <= k < rest.len() && is_addressbook(#[trigger] rest[k]) && href
                    == rest[k].href.value@ && forall|j: int|
                    0 <= j < k ==> !is_addressbook(#[trigger] rest[j]);
            assert(is_addressbook(responses[k + 1]));
            assert forall|j: int| 0 <= j < k + 1 implies !is_addressbook(
                #[trigger] responses[j],
            ) by {
                if j > 0 {
                    assert(!is_addressbook(rest[j - 1]));
                }
            }
        }
    }
}

} // verus!

use cardamom::domain::card_repositories::discovery::{
    addressbook_home_set_request, addressbook_path, addressbook_request,
    current_user_principal_request, decoded, describes_addressbook,
    fetch_addressbook_home_set_url, fetch_addressbook_url, fetch_current_user_principal_url,
    PropfindReply,
};
use cardamom::domain::card_repositories::{
    AddressbookStep, HomeSetStep, PrincipalStep, RemoteCardRepository, Addressbook, AddressbookHomeSet, AddressbookHomeSetProp, AddressbookProp,
    AddressbookResourceType, CurrentUserPrincipal, CurrentUserPrincipalProp, Href, Multistatus,
    Propstat, Response, Status,
};
use cardamom::error::{Error, ErrorKind};
use cardamom::http::Method;

fn entry<P>(href: &str, prop: P, status: Option<&str>) -> Response<P> {
    Response {
        href: Href { value: href.to_string() },
        propstat: Propstat { prop, status: status.map(|s| Status { value: s.to_string() }) },
    }
}

fn document<P>(responses: Vec<Response<P>>) -> PropfindReply<P> {
    PropfindReply::Decoded(Multistatus { responses })
}

fn principal(href: Option<&str>) -> CurrentUserPrincipalProp {
    CurrentUserPrincipalProp {
        current_user_principal: href
            .map(|h| CurrentUserPrincipal { href: Href { value: h.to_string() } }),
    }
}

fn home(href: Option<&str>) -> AddressbookHomeSetProp {
    AddressbookHomeSetProp {
        addressbook_home_set: href
            .map(|h| AddressbookHomeSet { href: Href { value: h.to_string() } }),
    }
}

fn collection(marked: bool) -> AddressbookProp {
    AddressbookProp {
        resourcetype: Some(AddressbookResourceType {
            addressbook: if marked { Some(Addressbook {}) } else { None },
        }),
    }
}

#[test]
fn principal_request_asks_at_host_and_path() {
    let r = current_user_principal_request("https://h", "/", "pw");
    assert_eq!(r.method, Method::Propfind);
    assert_eq!(r.url, "https://h/");
    assert_eq!(r.username, "user");
    assert_eq!(r.password, "pw");
    assert!(r.headers.is_empty());
    assert_eq!(
        r.body,
        Some(
            "<D:propfind xmlns:D=\"DAV:\">\n  <D:prop><D:current-user-principal /></D:prop>\n</D:propfind>"
                .to_string()
        )
    );
}

#[test]
fn home_set_request_asks_at_the_principal() {
    let r = addressbook_home_set_request("https://h", "/principals/u/", "pw");
    assert_eq!(r.method, Method::Propfind);
    assert_eq!(r.url, "https://h/principals/u/");
    assert!(r.headers.is_empty());
    assert_eq!(
        r.body,
        Some(
            "<D:propfind xmlns:D=\"DAV:\" xmlns:C=\"urn:ietf:params:xml:ns:carddav\">\n  <D:prop><C:addressbook-home-set /></D:prop>\n</D:propfind>"
                .to_string()
        )
    );
}

#[test]
fn addressbook_request_has_no_body_and_no_depth() {
    let r = addressbook_request("https://h", "/u/", "pw");
    assert_eq!(r.method, Method::Propfind);
    assert_eq!(r.url, "https://h/u/");
    assert_eq!(r.username, "user");
    assert_eq!(r.password, "pw");
    assert!(r.headers.is_empty());
    assert_eq!(r.body, None);
}

#[test]
fn principal_step_takes_the_first_response() {
    let reply = document(vec![
        entry("/", principal(Some("/principals/u/")), None),
        entry("/x", principal(Some("/other/")), None),
    ]);
    assert_eq!(
        fetch_current_user_principal_url("/".to_string(), &reply),
        Ok("/principals/u/".to_string())
    );
}

#[test]
fn principal_step_without_the_property_keeps_the_path() {
    let reply = document(vec![
        entry("/", principal(None), None),
        entry("/x", principal(Some("/other/")), None),
    ]);
    assert_eq!(fetch_current_user_principal_url("/".to_string(), &reply), Ok("/".to_string()));
    let empty: PropfindReply<CurrentUserPrincipalProp> = document(vec![]);
    assert_eq!(fetch_current_user_principal_url("/p".to_string(), &empty), Ok("/p".to_string()));
}

#[test]
fn home_set_step_takes_the_first_response_or_keeps_the_path() {
    let reply = document(vec![entry("/principals/u/", home(Some("/u/")), Some("HTTP/1.1 200 OK"))]);
    assert_eq!(
        fetch_addressbook_home_set_url("/principals/u/".to_string(), &reply),
        Ok("/u/".to_string())
    );
    let reply = document(vec![entry("/principals/u/", home(None), Some("HTTP/1.1 404 Not Found"))]);
    assert_eq!(
        fetch_addressbook_home_set_url("/principals/u/".to_string(), &reply),
        Ok("/principals/u/".to_string())
    );
    let empty: PropfindReply<AddressbookHomeSetProp> = document(vec![]);
    assert_eq!(fetch_addressbook_home_set_url("/q".to_string(), &empty), Ok("/q".to_string()));
}

#[test]
fn addressbook_step_takes_the_first_marked_response_with_200() {
    let reply = document(vec![
        entry("/u/", collection(false), Some("HTTP/1.1 200 OK")),
        entry("/u/gone/", collection(true), Some("HTTP/1.1 404 Not Found")),
        entry("/u/nostatus/", collection(true), None),
        entry("/u/contacts/", collection(true), Some("HTTP/1.1 200 OK")),
        entry("/u/second/", collection(true), Some("HTTP/1.1 200 OK")),
    ]);
    assert_eq!(fetch_addressbook_url("/u/".to_string(), &reply), Ok("/u/contacts/".to_string()));
}

#[test]
fn addressbook_step_without_an_addressbook_keeps_the_path() {
    let reply = document(vec![
        entry("/u/", collection(false), Some("HTTP/1.1 200 OK")),
        entry("/u/x/", AddressbookProp { resourcetype: None }, Some("HTTP/1.1 200 OK")),
        entry("/u/y/", collection(true), Some("HTTP/1.1 200 OK ")),
    ]);
    assert_eq!(fetch_addressbook_url("/u/".to_string(), &reply), Ok("/u/".to_string()));
    let empty: PropfindReply<AddressbookProp> = document(vec![]);
    assert_eq!(fetch_addressbook_url("/u/".to_string(), &empty), Ok("/u/".to_string()));
}

#[test]
fn describes_addressbook_needs_status_and_marker() {
    assert!(describes_addressbook(&entry("/a", collection(true), Some("HTTP/1.1 200 OK"))));
    assert!(describes_addressbook(&entry("/a", collection(true), Some("200 OK"))));
    assert!(!describes_addressbook(&entry("/a", collection(true), Some("HTTP/1.1 207 Multi"))));
    assert!(!describes_addressbook(&entry("/a", collection(false), Some("HTTP/1.1 200 OK"))));
    assert!(!describes_addressbook(&entry("/a", collection(true), None)));
}

#[test]
fn a_failed_exchange_is_an_error_of_its_step() {
    let sent: PropfindReply<CurrentUserPrincipalProp> =
        PropfindReply::SendFailed("connection refused".to_string());
    assert_eq!(
        fetch_current_user_principal_url("/".to_string(), &sent),
        Err(Error {
            kind: ErrorKind::TransportError,
            context: "cannot send current user principal request".to_string(),
            reason: Some("connection refused".to_string()),
        })
    );
    let body: PropfindReply<AddressbookHomeSetProp> = PropfindReply::BodyFailed("eof".to_string());
    assert_eq!(
        fetch_addressbook_home_set_url("/".to_string(), &body),
        Err(Error {
            kind: ErrorKind::TransportError,
            context: "cannot extract text body from addressbook home set response".to_string(),
            reason: Some("eof".to_string()),
        })
    );
    let xml: PropfindReply<AddressbookProp> = PropfindReply::DecodeFailed("no root".to_string());
    assert_eq!(
        fetch_addressbook_url("/".to_string(), &xml),
        Err(Error {
            kind: ErrorKind::XmlDecodeError,
            context: "cannot parse addressbook response".to_string(),
            reason: Some("no root".to_string()),
        })
    );
    let e = decoded("thing", &xml).unwrap_err();
    assert_eq!(e.to_string(), "cannot parse thing response");
    let ok: PropfindReply<AddressbookProp> = document(vec![]);
    assert_eq!(decoded("thing", &ok), Ok(&Multistatus { responses: vec![] }));
}

#[test]
fn addressbook_path_runs_the_three_steps_from_the_root() {
    let p = document(vec![entry("/", principal(Some("/principals/u/")), None)]);
    let h = document(vec![entry("/principals/u/", home(Some("/u/")), None)]);
    let a = document(vec![
        entry("/u/", collection(false), Some("HTTP/1.1 200 OK")),
        entry("/u/contacts/", collection(true), Some("HTTP/1.1 200 OK")),
    ]);
    assert_eq!(addressbook_path(&p, &h, &a), Ok("/u/contacts/".to_string()));

    let none_p: PropfindReply<CurrentUserPrincipalProp> = document(vec![]);
    let none_h: PropfindReply<AddressbookHomeSetProp> = document(vec![]);
    let none_a: PropfindReply<AddressbookProp> = document(vec![]);
    assert_eq!(addressbook_path(&none_p, &none_h, &none_a), Ok("/".to_string()));
    assert_eq!(addressbook_path(&p, &none_h, &none_a), Ok("/principals/u/".to_string()));
    assert_eq!(addressbook_path(&none_p, &h, &none_a), Ok("/u/".to_string()));

    let failed: PropfindReply<AddressbookHomeSetProp> = PropfindReply::SendFailed("x".to_string());
    let e = addressbook_path(&p, &failed, &a).unwrap_err();
    assert_eq!(e.to_string(), "cannot send addressbook home set request");
}

#[test]
fn discovery_walks_from_the_root_to_the_repository() {
    let step = RemoteCardRepository::discover("https://h", "pw");
    assert_eq!(
        step,
        PrincipalStep { host: "https://h".to_string(), password: "pw".to_string(), path: "/".to_string() }
    );
    assert_eq!(step.request(), current_user_principal_request("https://h", "/", "pw"));
    let step = step
        .advance(&document(vec![entry("/", principal(Some("/principals/u/")), None)]))
        .unwrap();
    assert_eq!(
        step,
        HomeSetStep {
            host: "https://h".to_string(),
            password: "pw".to_string(),
            path: "/principals/u/".to_string(),
        }
    );
    assert_eq!(step.request(), addressbook_home_set_request("https://h", "/principals/u/", "pw"));
    let step = step.advance(&document(vec![entry("/principals/u/", home(Some("/u/")), None)])).unwrap();
    assert_eq!(
        step,
        AddressbookStep { host: "https://h".to_string(), password: "pw".to_string(), path: "/u/".to_string() }
    );
    assert_eq!(step.request(), addressbook_request("https://h", "/u/", "pw"));
    let repository = step
        .advance(&document(vec![entry("/u/contacts/", collection(true), Some("HTTP/1.1 200 OK"))]))
        .unwrap();
    assert_eq!(
        repository,
        RemoteCardRepository {
            addressbook_path: "https://h/u/contacts/".to_string(),
            password: "pw".to_string(),
        }
    );
}

#[test]
fn discovery_without_any_property_ends_at_the_root() {
    let step = RemoteCardRepository::discover("https://h", "pw");
    let step = step.advance(&document(vec![entry("/", principal(None), None)])).unwrap();
    assert_eq!(step.path, "/");
    let step = step.advance(&document(vec![])).unwrap();
    assert_eq!(step.path, "/");
    let repository = step.advance(&document(vec![])).unwrap();
    assert_eq!(repository.addressbook_path, "https://h/");
}

#[test]
fn discovery_stops_at_the_step_that_failed() {
    let step = RemoteCardRepository::discover("https://h", "pw");
    let e = step.clone().advance(&PropfindReply::DecodeFailed("x".to_string())).unwrap_err();
    assert_eq!(e.kind, ErrorKind::XmlDecodeError);
    assert_eq!(e.to_string(), "cannot parse current user principal response");
    let step = step.advance(&document(vec![])).unwrap();
    let e = step.clone().advance(&PropfindReply::BodyFailed("x".to_string())).unwrap_err();
    assert_eq!(e.to_string(), "cannot extract text body from addressbook home set response");
    let step = step.advance(&document(vec![])).unwrap();
    let e = step.advance(&PropfindReply::SendFailed("x".to_string())).unwrap_err();
    assert_eq!(e.to_string(), "cannot send addressbook request");
    assert_eq!(e.kind, ErrorKind::TransportError);
}

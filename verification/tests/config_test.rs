use cardamom::config::account_entity::account_from;
use cardamom::config::config_entity::{copy_entry, join, marked_default};
use cardamom::config::{
    Account, Config, ConfigAccountEntry, ConfigSource, LocalAccount, LocalConfigAccountEntry, RemoteAccount,
    RemoteConfigAccountEntry,
};
use cardamom::error::{Error, ErrorKind};

fn local(default: Option<bool>, path: &str) -> ConfigAccountEntry {
    ConfigAccountEntry::Local(LocalConfigAccountEntry { default, path: path.to_string() })
}

fn remote(default: Option<bool>, url: &str) -> ConfigAccountEntry {
    ConfigAccountEntry::Remote(RemoteConfigAccountEntry {
        default,
        url: url.to_string(),
        login: "me".to_string(),
        passwd_cmd: "pass show dav".to_string(),
    })
}

fn config() -> Config {
    let mut config = Config::new();
    config.insert("home".to_string(), local(None, "/cards"));
    config.insert("old".to_string(), remote(Some(false), "https://old"));
    config.insert("work".to_string(), remote(Some(true), "https://work"));
    config.insert("spare".to_string(), local(Some(true), "/spare"));
    config
}

#[test]
fn join_puts_one_separator_between() {
    assert_eq!(join("/home/u", "x"), "/home/u/x");
    assert_eq!(join("/home/u/", "x"), "/home/u/x");
    assert_eq!(join("", "x"), "x");
    assert_eq!(join("/", "x"), "/x");
}

#[test]
fn path_candidates_are_xdg_then_home() {
    assert_eq!(
        Config::path_candidates(Some("/xdg"), Some("/home/u")),
        vec![
            "/xdg/cardamom/config.toml".to_string(),
            "/home/u/.config/cardamom/config.toml".to_string(),
            "/home/u/.cardamomrc".to_string(),
        ]
    );
    assert_eq!(
        Config::path_candidates(None, Some("/home/u/")),
        vec!["/home/u/.config/cardamom/config.toml".to_string(), "/home/u/.cardamomrc".to_string()]
    );
    assert_eq!(
        Config::path_candidates(Some("/xdg"), None),
        vec!["/xdg/cardamom/config.toml".to_string()]
    );
    assert_eq!(Config::path_candidates(None, None), Vec::<String>::new());
}

#[test]
fn path_is_the_first_place_with_a_file() {
    let probes = vec![
        ("/xdg/cardamom/config.toml".to_string(), false),
        ("/home/u/.config/cardamom/config.toml".to_string(), true),
        ("/home/u/.cardamomrc".to_string(), true),
    ];
    assert_eq!(Config::path(&probes), Ok("/home/u/.config/cardamom/config.toml".to_string()));
    let probes = vec![("/a".to_string(), false), ("/b".to_string(), false)];
    assert_eq!(
        Config::path(&probes),
        Err(Error {
            kind: ErrorKind::ConfigNotFound,
            context: "cannot find config path".to_string(),
            reason: None,
        })
    );
    assert_eq!(Config::path(&vec![]).unwrap_err().kind, ErrorKind::ConfigNotFound);
}

#[test]
fn insert_replaces_the_account_of_a_name() {
    let mut c = config();
    assert_eq!(c.accounts.len(), 4);
    c.insert("old".to_string(), local(None, "/new"));
    assert_eq!(c.accounts.len(), 4);
    assert_eq!(c.accounts[1], ("old".to_string(), local(None, "/new")));
    c.insert("more".to_string(), local(None, "/more"));
    assert_eq!(c.accounts.len(), 5);
    assert_eq!(c.accounts[4].0, "more");
    assert_eq!(c.find("old"), Some(1));
    assert_eq!(c.find("more"), Some(4));
    assert_eq!(c.find("none"), None);
    assert_eq!(c.find("Old"), None);
}

#[test]
fn default_account_is_the_first_marked_one() {
    assert_eq!(config().find_default(), Some(2));
    assert_eq!(Config::new().find_default(), None);
    assert!(marked_default(&local(Some(true), "")));
    assert!(!marked_default(&local(Some(false), "")));
    assert!(!marked_default(&remote(None, "")));
}

#[test]
fn account_by_default() {
    let expected = Account::Remote(RemoteAccount {
        name: "work".to_string(),
        url: "https://work".to_string(),
        login: "me".to_string(),
        passwd_cmd: "pass show dav".to_string(),
    });
    assert_eq!(Account::try_from(&config(), None), Ok(expected.clone()));
    assert_eq!(Account::try_from(&config(), Some("")), Ok(expected.clone()));
    assert_eq!(Account::try_from(&config(), Some("default")), Ok(expected.clone()));
    assert_eq!(Account::try_from(&config(), Some("  default\n")), Ok(expected.clone()));
    assert_eq!(Account::try_from(&config(), Some(" \t")), Ok(expected));
}

#[test]
fn account_by_name() {
    assert_eq!(
        Account::try_from(&config(), Some("home")),
        Ok(Account::Local(LocalAccount { name: "home".to_string(), path: "/cards".to_string() }))
    );
    assert_eq!(
        Account::try_from(&config(), Some(" old ")),
        Ok(Account::Remote(RemoteAccount {
            name: "old".to_string(),
            url: "https://old".to_string(),
            login: "me".to_string(),
            passwd_cmd: "pass show dav".to_string(),
        }))
    );
}

#[test]
fn account_not_found() {
    assert_eq!(
        Account::try_from(&config(), Some("nobody")),
        Err(Error {
            kind: ErrorKind::AccountNotFound,
            context: "cannot find account \"nobody\"".to_string(),
            reason: None,
        })
    );
    assert_eq!(
        Account::try_from(&config(), Some("Default")).unwrap_err().to_string(),
        "cannot find account \"Default\""
    );
    let mut none = Config::new();
    none.insert("a".to_string(), local(None, "/a"));
    assert_eq!(
        Account::try_from(&none, None),
        Err(Error {
            kind: ErrorKind::AccountNotFound,
            context: "cannot find default account".to_string(),
            reason: None,
        })
    );
}

#[test]
fn account_from_copies_the_entry() {
    assert_eq!(
        account_from("n".to_string(), &local(Some(true), "/p")),
        Account::Local(LocalAccount { name: "n".to_string(), path: "/p".to_string() })
    );
}

#[test]
fn passwd_drops_the_line_end_of_the_output() {
    let account = RemoteAccount::default();
    assert_eq!(account.passwd(&Ok("hunter2\n".to_string())), Ok("hunter2".to_string()));
    assert_eq!(account.passwd(&Ok("hunter2\r\n\r\n".to_string())), Ok("hunter2".to_string()));
    assert_eq!(account.passwd(&Ok(" hun\nter2 ".to_string())), Ok(" hun\nter2 ".to_string()));
    assert_eq!(account.passwd(&Ok(String::new())), Ok(String::new()));
    assert_eq!(
        account.passwd(&Err("No such file or directory".to_string())),
        Err(Error {
            kind: ErrorKind::CredentialCommandFailed,
            context: "cannot run passwd cmd".to_string(),
            reason: Some("No such file or directory".to_string()),
        })
    );
}

#[test]
fn config_of_a_file_has_each_name_once() {
    let source = ConfigSource::Decoded(vec![
        ("a".to_string(), local(None, "/1")),
        ("b".to_string(), remote(Some(true), "https://b")),
        ("a".to_string(), local(Some(true), "/2")),
        ("c".to_string(), local(None, "/3")),
    ]);
    let config = Config::try_from(&source).unwrap();
    assert_eq!(
        config.accounts,
        vec![
            ("a".to_string(), local(Some(true), "/2")),
            ("b".to_string(), remote(Some(true), "https://b")),
            ("c".to_string(), local(None, "/3")),
        ]
    );
    assert_eq!(Config::try_from(&ConfigSource::Decoded(vec![])), Ok(Config::new()));
}

#[test]
fn config_of_a_file_that_failed_is_an_error() {
    assert_eq!(
        Config::try_from(&ConfigSource::Unreadable("No such file or directory".to_string())),
        Err(Error {
            kind: ErrorKind::ConfigNotFound,
            context: "cannot read config file".to_string(),
            reason: Some("No such file or directory".to_string()),
        })
    );
    assert_eq!(
        Config::try_from(&ConfigSource::Undecodable("expected an equals".to_string())),
        Err(Error {
            kind: ErrorKind::ConfigParseError,
            context: "cannot parse config file".to_string(),
            reason: Some("expected an equals".to_string()),
        })
    );
}

#[test]
fn copy_entry_is_equal() {
    assert_eq!(copy_entry(&remote(Some(false), "https://x")), remote(Some(false), "https://x"));
    assert_eq!(copy_entry(&local(None, "/y")), local(None, "/y"));
}

#[test]
fn join_agrees_with_the_paths_of_the_standard_library() {
    for base in ["", "/", "/home/u", "/home/u/", "rel", "rel//", "a b"] {
        for name in ["cardamom", "config.toml", ".config", ".cardamomrc"] {
            let expected = std::path::Path::new(base).join(name);
            assert_eq!(join(base, name), expected.to_str().unwrap(), "{:?} {:?}", base, name);
        }
    }
}

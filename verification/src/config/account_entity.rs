//! The accounts of the user, and how one is chosen.

use crate::config::config_entity::{first_default, first_named, Config, ConfigAccountEntry};
use crate::error::{Error, ErrorKind, ErrorView};
use crate::text::{
    quote, quoting, str_eq, strip_line_endings, trim, trim_line_endings, trim_whitespace,
};
use vstd::prelude::*;

verus! {

/// An account that keeps its cards in a directory.
#[derive(Debug, Default, Clone, PartialEq, Eq)]
pub struct LocalAccount {
    pub name: String,
    pub path: String,
}

/// An account that keeps its cards on a server. `passwd_cmd` is the command
/// that prints the password.
#[derive(Debug, Default, Clone, PartialEq, Eq)]
pub struct RemoteAccount {
    pub name: String,
    pub url: String,
    pub login: String,
    pub passwd_cmd: String,
}

/// An account of the user.
#[derive(Debug, Clone, PartialEq, Eq)]
pub enum Account {
    Local(LocalAccount),
    Remote(RemoteAccount),
}

/// The content of an [`Account`].
pub ghost enum AccountView {
    Local { name: Seq<char>, path: Seq<char> },
    Remote { name: Seq<char>, url: Seq<char>, login: Seq<char>, passwd_cmd: Seq<char> },
}

impl View for Account {
    type V = AccountView;

    open spec fn view(&self) -> AccountView {
        match *self {
            Account::Local(a) => AccountView::Local { name: a.name@, path: a.path@ },
            Account::Remote(a) => AccountView::Remote {
                name: a.name@,
                url: a.url@,
                login: a.login@,
                passwd_cmd: a.passwd_cmd@,
            },
        }
    }
}

/// Whether a request for an account asks for the default one: no name, an
/// empty name, or the name `default`, white space around it left aside.
pub open spec fn wants_default(requested: Option<Seq<char>>) -> bool {
    match requested {
        None => true,
        Some(name) => trim(name).len() == 0 || trim(name) == "default"@,
    }
}

/// The account that an entry of the configuration describes.
pub open spec fn account_of(name: Seq<char>, entry: ConfigAccountEntry) -> AccountView {
    match entry {
        ConfigAccountEntry::Local(e) => AccountView::Local { name, path: e.path@ },
        ConfigAccountEntry::Remote(e) => AccountView::Remote {
            name,
            url: e.url@,
            login: e.login@,
            passwd_cmd: e.passwd_cmd@,
        },
    }
}

/// The account that a request chooses: the first one marked as default
/// where the request asks for the default, the one of the requested name
/// otherwise; an error where there is none.
pub open spec fn chosen(
    accounts: Seq<(String, ConfigAccountEntry)>,
    requested: Option<Seq<char>>,
) -> Result<AccountView, ErrorView> {
    if wants_default(requested) {
        match first_default(accounts) {
            Some(i) => Ok(account_of(accounts[i].0@, accounts[i].1)),
            None => Err(
                ErrorView {
                    kind: ErrorKind::AccountNotFound,
                    context: "cannot find default account"@,
                    reason: None,
                },
            ),
        }
    } else {
        match first_named(accounts, trim(requested->Some_0)) {
            Some(i) => Ok(account_of(trim(requested->Some_0), accounts[i].1)),
            None => Err(
                ErrorView {
                    kind: ErrorKind::AccountNotFound,
                    context: quoting("cannot find account "@, trim(requested->Some_0)),
                    reason: None,
                },
            ),
        }
    }
}

/// The password that the output of the password command holds, or the
/// error where the command failed.
pub open spec fn password_of(output: Result<String, String>) -> Result<Seq<char>, ErrorView> {
    match output {
        Ok(text) => Ok(strip_line_endings(text@)),
        Err(reason) => Err(
            ErrorView {
                kind: ErrorKind::CredentialCommandFailed,
                context: "cannot run passwd cmd"@,
                reason: Some(reason@),
            },
        ),
    }
}

impl RemoteAccount {
    /// The password of the account, from what came of running
    /// `passwd_cmd`: its standard output without the line terminators at
    /// the end, or the error where the command could not be run.
    pub fn passwd(&self, output: &Result<String, String>) -> (result: Result<String, Error>)
        ensures
            match result {
                Ok(password) => password_of(*output) == Ok::<Seq<char>, ErrorView>(password@),
                Err(e) => password_of(*output) == Err::<Seq<char>, ErrorView>(e@),
            },
    {
        match output {
            Ok(text) => Ok(trim_line_endings(text.as_str())),
            Err(reason) => Err(
                Error::caused_by(
                    ErrorKind::CredentialCommandFailed,
                    String::from_str("cannot run passwd cmd"),
                    reason.clone(),
                ),
            ),
        }
    }
}

/// Builds the account that an entry of the configuration describes.
pub fn account_from(name: String, entry: &ConfigAccountEntry) -> (account: Account)
    ensures
        account@ == account_of(name@, *entry),
{
    match entry {
        ConfigAccountEntry::Local(e) => Account::Local(LocalAccount { name, path: e.path.clone() }),
        ConfigAccountEntry::Remote(e) => Account::Remote(
            RemoteAccount {
                name,
                url: e.url.clone(),
                login: e.login.clone(),
                passwd_cmd: e.passwd_cmd.clone(),
            },
        ),
    }
}

impl Account {
    /// Chooses an account of the configuration by the name that was asked
    /// for.
    pub fn try_from(config: &Config, account_name: Option<&str>) -> (result: Result<Account, Error>)
        ensures
            match result {
                Ok(account) => chosen(
                    config.accounts@,
                    match account_name {
                        Some(name) => Some(name@),
                        None => None,
                    },
                ) == Ok::<AccountView, ErrorView>(account@),
                Err(e) => chosen(
                    config.accounts@,
                    match account_name {
                        Some(name) => Some(name@),
                        None => None,
                    },
                ) == Err::<AccountView, ErrorView>(e@),
            },
    {
        let name: &str = match account_name {
            Some(name) => trim_whitespace(name),
            None => "",
        };
        proof {
            reveal_strlit("");
        }
        if account_name.is_none() || name.unicode_len() == 0 || str_eq(name, "default") {
            match config.find_default() {
                Some(i) => Ok(account_from(config.accounts[i].0.clone(), &config.accounts[i].1)),
                None => Err(
                    Error::new(
                        ErrorKind::AccountNotFound,
                        String::from_str("cannot find default account"),
                    ),
                ),
            }
        } else {
            match config.find(name) {
                Some(i) => Ok(account_from(String::from_str(name), &config.accounts[i].1)),
                None => Err(
                    Error::new(ErrorKind::AccountNotFound, quote("cannot find account ", name)),
                ),
            }
        }
    }
}

} // verus!

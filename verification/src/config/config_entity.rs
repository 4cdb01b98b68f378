//! The configuration: the accounts by name, and where its file lies.

use crate::error::{Error, ErrorKind, ErrorView};
use crate::text::{ends_with, has_suffix};
use vstd::prelude::*;

verus! {

/// An account that keeps its cards in a directory.
#[derive(Debug, Default, Clone, PartialEq, Eq)]
pub struct LocalConfigAccountEntry {
    pub default: Option<bool>,
    pub path: String,
}

/// An account that keeps its cards on a server.
#[derive(Debug, Default, Clone, PartialEq, Eq)]
pub struct RemoteConfigAccountEntry {
    pub default: Option<bool>,
    pub url: String,
    pub login: String,
    pub passwd_cmd: String,
}

/// An account as the configuration describes it.
#[derive(Debug, Clone, PartialEq, Eq)]
pub enum ConfigAccountEntry {
    Local(LocalConfigAccountEntry),
    Remote(RemoteConfigAccountEntry),
}

/// The accounts with their names, in the order in which they are searched.
pub type ConfigAccountsMap = Vec<(String, ConfigAccountEntry)>;

/// The configuration of the user.
#[derive(Debug, Default, Clone, PartialEq, Eq)]
pub struct Config {
    pub accounts: ConfigAccountsMap,
}

/// Whether an entry is marked as the default account.
pub open spec fn is_default(entry: ConfigAccountEntry) -> bool {
    match entry {
        ConfigAccountEntry::Local(e) => e.default == Some(true),
        ConfigAccountEntry::Remote(e) => e.default == Some(true),
    }
}

/// The place of the first item that has the property, counted from 0.
pub open spec fn first_where<T>(items: Seq<T>, wanted: spec_fn(T) -> bool) -> Option<int>
    decreases items.len(),
{
    if items.len() == 0 {
        None
    } else if wanted(items.first()) {
        Some(0)
    } else {
        moved(first_where(items.drop_first(), wanted), 1)
    }
}

/// A place that was counted from `by` items further on.
pub open spec fn moved(place: Option<int>, by: int) -> Option<int> {
    match place {
        Some(i) => Some(i + by),
        None => None,
    }
}

/// The place of the first entry that is marked as the default account.
pub open spec fn first_default(accounts: Seq<(String, ConfigAccountEntry)>) -> Option<int> {
    first_where(accounts, |a: (String, ConfigAccountEntry)| is_default(a.1))
}

/// The place of the first entry with the given name.
pub open spec fn first_named(
    accounts: Seq<(String, ConfigAccountEntry)>,
    name: Seq<char>,
) -> Option<int> {
    first_where(accounts, |a: (String, ConfigAccountEntry)| a.0@ == name)
}

/// The accounts once an account is put under a name: in the place of the
/// account that had the name, or at the end where none had it.
pub open spec fn with_account(
    accounts: Seq<(String, ConfigAccountEntry)>,
    name: String,
    entry: ConfigAccountEntry,
) -> Seq<(String, ConfigAccountEntry)> {
    match first_named(accounts, name@) {
        Some(i) => accounts.update(i, (name, entry)),
        None => accounts.push((name, entry)),
    }
}

/// The accounts that a list of named entries gives when they are put under
/// their names one after the other.
pub open spec fn collected(entries: Seq<(String, ConfigAccountEntry)>) -> Seq<
    (String, ConfigAccountEntry),
>
    decreases entries.len(),
{
    if entries.len() == 0 {
        Seq::empty()
    } else {
        with_account(collected(entries.drop_last()), entries.last().0, entries.last().1)
    }
}

/// What came of reading and decoding the configuration file.
#[derive(Debug, Clone, PartialEq, Eq)]
pub enum ConfigSource {
    /// The file could not be read.
    Unreadable(String),
    /// The file is no table of accounts.
    Undecodable(String),
    /// The named entries of the file.
    Decoded(ConfigAccountsMap),
}

/// The accounts of a configuration file, or the error.
pub open spec fn loaded(source: ConfigSource) -> Result<
    Seq<(String, ConfigAccountEntry)>,
    ErrorView,
> {
    match source {
        ConfigSource::Unreadable(reason) => Err(
            ErrorView {
                kind: ErrorKind::ConfigNotFound,
                context: "cannot read config file"@,
                reason: Some(reason@),
            },
        ),
        ConfigSource::Undecodable(reason) => Err(
            ErrorView {
                kind: ErrorKind::ConfigParseError,
                context: "cannot parse config file"@,
                reason: Some(reason@),
            },
        ),
        ConfigSource::Decoded(entries) => Ok(collected(entries@)),
    }
}

/// `base` with `name` below it: a `/` stands between the two unless `base`
/// is empty or ends in one.
pub open spec fn joined(base: Seq<char>, name: Seq<char>) -> Seq<char> {
    if base.len() == 0 || ends_with(base, "/"@) {
        base + name
    } else {
        base + "/"@ + name
    }
}

/// The places where the configuration file is looked for, in order: below
/// the XDG configuration directory, below `.config` in the home directory,
/// and as a dot file in the home directory. A directory that is not known
/// gives no place.
pub open spec fn candidates(xdg_config_home: Option<Seq<char>>, home: Option<Seq<char>>) -> Seq<
    Seq<char>,
> {
    let from_xdg = match xdg_config_home {
        Some(dir) => seq![joined(joined(dir, "cardamom"@), "config.toml"@)],
        None => seq![],
    };
    let from_home = match home {
        Some(dir) => seq![
            joined(joined(joined(dir, ".config"@), "cardamom"@), "config.toml"@),
            joined(dir, ".cardamomrc"@),
        ],
        None => seq![],
    };
    from_xdg + from_home
}

/// The place of the first probe that found a file.
pub open spec fn first_existing(probes: Seq<(String, bool)>) -> Option<int> {
    first_where(probes, |p: (String, bool)| p.1)
}

/// The first entry of a name has it, and no entry before it has it; where
/// there is none, no entry has the name.
pub proof fn lemma_first_named(accounts: Seq<(String, ConfigAccountEntry)>, name: Seq<char>)
    ensures
        match first_named(accounts, name) {
            Some(i) => 0 <= i < accounts.len() && accounts[i].0@ == name && forall|j: int|
                0 <= j < i ==> (#[trigger] accounts[j]).0@ != name,
            None => forall|j: int| 0 <= j < accounts.len() ==> (#[trigger] accounts[j]).0@ != name,
        },
    decreases accounts.len(),
{
    if accounts.len() > 0 {
        let rest = accounts.drop_first();
        lemma_first_named(rest, name);
        assert forall|j: int| 0 <= j < rest.len() implies rest[j] == accounts[j + 1] by {}
        assert forall|j: int| 0 < j < accounts.len() implies accounts[j] == rest[j - 1] by {}
    }
}

/// Puts `name` below `base`.
pub fn join(base: &str, name: &str) -> (path: String)
    ensures
        path@ == joined(base@, name@),
{
    let mut path = String::from_str(base);
    if !(base.unicode_len() == 0 || has_suffix(base, "/")) {
        path.append("/");
    }
    path.append(name);
    path
}

/// Copies an entry.
pub fn copy_entry(entry: &ConfigAccountEntry) -> (copy: ConfigAccountEntry)
    ensures
        copy == *entry,
{
    match entry {
        ConfigAccountEntry::Local(e) => ConfigAccountEntry::Local(
            LocalConfigAccountEntry { default: e.default, path: e.path.clone() },
        ),
        ConfigAccountEntry::Remote(e) => ConfigAccountEntry::Remote(
            RemoteConfigAccountEntry {
                default: e.default,
                url: e.url.clone(),
                login: e.login.clone(),
                passwd_cmd: e.passwd_cmd.clone(),
            },
        ),
    }
}

/// Tells whether an entry is marked as the default account.
pub fn marked_default(entry: &ConfigAccountEntry) -> (r: bool)
    ensures
        r == is_default(*entry),
{
    match entry {
        ConfigAccountEntry::Local(e) => match e.default {
            Some(flag) => flag,
            None => false,
        },
        ConfigAccountEntry::Remote(e) => match e.default {
            Some(flag) => flag,
            None => false,
        },
    }
}

impl Config {
    /// No name occurs twice.
    pub open spec fn wf(&self) -> bool {
        forall|i: int, j: int|
            0 <= i < j < self.accounts@.len() ==> (#[trigger] self.accounts@[i]).0@
                != (#[trigger] self.accounts@[j]).0@
    }

    /// A configuration without accounts.
    pub fn new() -> (config: Config)
        ensures
            config.accounts@.len() == 0,
            config.wf(),
    {
        Config { accounts: Vec::new() }
    }

    /// The place of the default account: the first entry that is marked so.
    pub fn find_default(&self) -> (place: Option<usize>)
        ensures
            match place {
                Some(i) => i < self.accounts@.len() && first_default(self.accounts@) == Some(
                    i as int,
                ),
                None => first_default(self.accounts@).is_none(),
            },
    {
        let mut i: usize = 0;
        assert(self.accounts@.subrange(0, self.accounts@.len() as int) == self.accounts@);
        while i < self.accounts.len()
            invariant
                i <= self.accounts@.len(),
                first_default(self.accounts@) == moved(
                    first_default(self.accounts@.subrange(i as int, self.accounts@.len() as int)),
                    i as int,
                ),
            decreases self.accounts@.len() - i,
        {
            let ghost rest = self.accounts@.subrange(i as int, self.accounts@.len() as int);
            assert(rest.first() == self.accounts@[i as int]);
            if marked_default(&self.accounts[i].1) {
                return Some(i);
            }
            assert(rest.drop_first() == self.accounts@.subrange(
                i + 1,
                self.accounts@.len() as int,
            ));
            i = i + 1;
        }
        None
    }

    /// The place of the account with the given name.
    pub fn find(&self, name: &str) -> (place: Option<usize>)
        ensures
            match place {
                Some(i) => i < self.accounts@.len() && first_named(self.accounts@, name@) == Some(
                    i as int,
                ),
                None => first_named(self.accounts@, name@).is_none(),
            },
    {
        let key = String::from_str(name);
        let mut i: usize = 0;
        assert(self.accounts@.subrange(0, self.accounts@.len() as int) == self.accounts@);
        while i < self.accounts.len()
            invariant
                i <= self.accounts@.len(),
                key@ == name@,
                first_named(self.accounts@, name@) == moved(
                    first_named(
                        self.accounts@.subrange(i as int, self.accounts@.len() as int),
                        name@,
                    ),
                    i as int,
                ),
            decreases self.accounts@.len() - i,
        {
            let ghost rest = self.accounts@.subrange(i as int, self.accounts@.len() as int);
            assert(rest.first() == self.accounts@[i as int]);
            if self.accounts[i].0 == key {
                return Some(i);
            }
            assert(rest.drop_first() == self.accounts@.subrange(
                i + 1,
                self.accounts@.len() as int,
            ));
            i = i + 1;
        }
        None
    }

    /// Puts an account under a name. An account that had the name is
    /// replaced, and keeps its place.
    pub fn insert(&mut self, name: String, entry: ConfigAccountEntry)
        ensures
            old(self).wf() ==> final(self).wf(),
            final(self).accounts@ == with_account(old(self).accounts@, name, entry),
    {
        proof {
            lemma_first_named(self.accounts@, name@);
        }
        match self.find(name.as_str()) {
            Some(i) => {
                self.accounts[i] = (name, entry);
            },
            None => {
                self.accounts.push((name, entry));
            },
        }
    }

    /// The configuration that a file gives: its entries put under their
    /// names one after the other, so that no name occurs twice; or the
    /// error where the file could not be read or decoded.
    pub fn try_from(source: &ConfigSource) -> (result: Result<Config, Error>)
        ensures
            match result {
                Ok(config) => config.wf() && loaded(*source) == Ok::<
                    Seq<(String, ConfigAccountEntry)>,
                    ErrorView,
                >(config.accounts@),
                Err(e) => loaded(*source) == Err::<Seq<(String, ConfigAccountEntry)>, ErrorView>(
                    e@,
                ),
            },
    {
        match source {
            ConfigSource::Unreadable(reason) => Err(
                Error::caused_by(
                    ErrorKind::ConfigNotFound,
                    String::from_str("cannot read config file"),
                    reason.clone(),
                ),
            ),
            ConfigSource::Undecodable(reason) => Err(
                Error::caused_by(
                    ErrorKind::ConfigParseError,
                    String::from_str("cannot parse config file"),
                    reason.clone(),
                ),
            ),
            ConfigSource::Decoded(entries) => {
                let mut config = Config::new();
                let mut i: usize = 0;
                assert(entries@.subrange(0, 0) =~= Seq::empty());
                while i < entries.len()
                    invariant
                        i <= entries@.len(),
                        config.wf(),
                        config.accounts@ == collected(entries@.subrange(0, i as int)),
                    decreases entries@.len() - i,
                {
                    let ghost next = entries@.subrange(0, i + 1);
                    assert(next.drop_last() == entries@.subrange(0, i as int));
                    assert(next.last() == entries@[i as int]);
                    config.insert(entries[i].0.clone(), copy_entry(&entries[i].1));
                    i = i + 1;
                }
                assert(entries@.subrange(0, i as int) == entries@);
                Ok(config)
            },
        }
    }

    /// The places where the configuration file is looked for, in order.
    pub fn path_candidates(xdg_config_home: Option<&str>, home: Option<&str>) -> (places: Vec<
        String,
    >)
        ensures
            Seq::new(places@.len(), |i: int| places@[i]@) == candidates(
                match xdg_config_home {
                    Some(dir) => Some(dir@),
                    None => None,
                },
                match home {
                    Some(dir) => Some(dir@),
                    None => None,
                },
            ),
    {
        let mut places: Vec<String> = Vec::new();
        match xdg_config_home {
            Some(dir) => {
                let below = join(dir, "cardamom");
                places.push(join(below.as_str(), "config.toml"));
            },
            None => {},
        }
        match home {
            Some(dir) => {
                let hidden = join(dir, ".config");
                let below = join(hidden.as_str(), "cardamom");
                places.push(join(below.as_str(), "config.toml"));
                places.push(join(dir, ".cardamomrc"));
            },
            None => {},
        }
        assert(Seq::new(places@.len(), |i: int| places@[i]@) =~= candidates(
            match xdg_config_home {
                Some(dir) => Some(dir@),
                None => None,
            },
            match home {
                Some(dir) => Some(dir@),
                None => None,
            },
        ));
        places
    }

    /// The place of the configuration file: the first of the probed places
    /// at which a file was found.
    pub fn path(probes: &Vec<(String, bool)>) -> (result: Result<String, Error>)
        ensures
            match first_existing(probes@) {
                Some(i) => result.is_ok() && result.unwrap()@ == probes@[i].0@,
                None => result.is_err() && result.unwrap_err()@ == (ErrorView {
                    kind: ErrorKind::ConfigNotFound,
                    context: "cannot find config path"@,
                    reason: None,
                }),
            },
    {
        let mut i: usize = 0;
        assert(probes@.subrange(0, probes@.len() as int) == probes@);
        while i < probes.len()
            invariant
                i <= probes@.len(),
                first_existing(probes@) == moved(
                    first_existing(probes@.subrange(i as int, probes@.len() as int)),
                    i as int,
                ),
            decreases probes@.len() - i,
        {
            let ghost rest = probes@.subrange(i as int, probes@.len() as int);
            assert(rest.first() == probes@[i as int]);
            if probes[i].1 {
                return Ok(probes[i].0.clone());
            }
            assert(rest.drop_first() == probes@.subrange(i + 1, probes@.len() as int));
            i = i + 1;
        }
        Err(Error::new(ErrorKind::ConfigNotFound, String::from_str("cannot find config path")))
    }
}

} // verus!

//! Plain data records for accounts, zones, DNS records, and the persisted
//! configuration, together with their `Seq<char>`-level views.
use vstd::prelude::*;

verus! {

/// How requests authenticate against the provider.
#[derive(Clone, Copy, PartialEq, Eq, Structural, Debug)]
pub enum AuthMode {
    Token,
    GlobalKey,
}

/// One provider tenant: a display name plus its credentials.
#[derive(Debug)]
pub struct Account {
    pub name: String,
    pub api_token: String,
    pub email: Option<String>,
    pub account_id: Option<String>,
    pub auth_mode: AuthMode,
}

/// Ghost-level image of an `Account`.
pub struct AccountView {
    pub name: Seq<char>,
    pub api_token: Seq<char>,
    pub email: Option<Seq<char>>,
    pub account_id: Option<Seq<char>>,
    pub auth_mode: AuthMode,
}

/// Ghost-level image of an `Option<String>`.
pub open spec fn opt_view(o: Option<String>) -> Option<Seq<char>> {
    match o {
        Some(s) => Some(s@),
        None => None,
    }
}

impl View for Account {
    type V = AccountView;

    open spec fn view(&self) -> AccountView {
        AccountView {
            name: self.name@,
            api_token: self.api_token@,
            email: opt_view(self.email),
            account_id: opt_view(self.account_id),
            auth_mode: self.auth_mode,
        }
    }
}

fn clone_opt_string(o: &Option<String>) -> (r: Option<String>)
    ensures
        r == *o,
{
    match o {
        Some(s) => Some(s.clone()),
        None => None,
    }
}

impl Clone for Account {
    fn clone(&self) -> (r: Self)
        ensures
            r == *self,
    {
        Account {
            name: self.name.clone(),
            api_token: self.api_token.clone(),
            email: clone_opt_string(&self.email),
            account_id: clone_opt_string(&self.account_id),
            auth_mode: self.auth_mode,
        }
    }
}

/// A DNS domain scope belonging to an account.
#[derive(Debug)]
pub struct Zone {
    pub id: String,
    pub name: String,
}

/// Ghost-level image of a `Zone`.
pub struct ZoneView {
    pub id: Seq<char>,
    pub name: Seq<char>,
}

impl View for Zone {
    type V = ZoneView;

    open spec fn view(&self) -> ZoneView {
        ZoneView { id: self.id@, name: self.name@ }
    }
}

impl Clone for Zone {
    fn clone(&self) -> (r: Self)
        ensures
            r == *self,
    {
        Zone { id: self.id.clone(), name: self.name.clone() }
    }
}

/// One DNS resource entry within a zone; its identity is `id`.
#[derive(Debug)]
pub struct DnsRecord {
    pub id: String,
    pub name: String,
    pub record_type: String,
    pub content: String,
    pub ttl: u32,
    pub proxied: bool,
}

/// Ghost-level image of a `DnsRecord`.
pub struct RecordView {
    pub id: Seq<char>,
    pub name: Seq<char>,
    pub record_type: Seq<char>,
    pub content: Seq<char>,
    pub ttl: u32,
    pub proxied: bool,
}

impl View for DnsRecord {
    type V = RecordView;

    open spec fn view(&self) -> RecordView {
        RecordView {
            id: self.id@,
            name: self.name@,
            record_type: self.record_type@,
            content: self.content@,
            ttl: self.ttl,
            proxied: self.proxied,
        }
    }
}

impl Clone for DnsRecord {
    fn clone(&self) -> (r: Self)
        ensures
            r == *self,
    {
        DnsRecord {
            id: self.id.clone(),
            name: self.name.clone(),
            record_type: self.record_type.clone(),
            content: self.content.clone(),
            ttl: self.ttl,
            proxied: self.proxied,
        }
    }
}

/// The views of a list of records.
pub open spec fn record_views(s: Seq<DnsRecord>) -> Seq<RecordView> {
    s.map_values(|r: DnsRecord| r@)
}

/// The views of a list of zones.
pub open spec fn zone_views(s: Seq<Zone>) -> Seq<ZoneView> {
    s.map_values(|z: Zone| z@)
}

/// A fresh owned copy of a record list.
pub fn clone_records(v: &Vec<DnsRecord>) -> (r: Vec<DnsRecord>)
    ensures
        r@ == v@,
{
    let mut out: Vec<DnsRecord> = Vec::new();
    let mut i: usize = 0;
    while i < v.len()
        invariant
            0 <= i <= v@.len(),
            out@ == v@.subrange(0, i as int),
        decreases v@.len() - i,
    {
        out.push(v[i].clone());
        proof {
            assert(out@ =~= v@.subrange(0, (i + 1) as int));
        }
        i = i + 1;
    }
    proof {
        assert(v@.subrange(0, v@.len() as int) =~= v@);
    }
    out
}

/// A fresh owned copy of an account list.
pub fn clone_accounts(v: &Vec<Account>) -> (r: Vec<Account>)
    ensures
        r@ == v@,
{
    let mut out: Vec<Account> = Vec::new();
    let mut i: usize = 0;
    while i < v.len()
        invariant
            0 <= i <= v@.len(),
            out@ == v@.subrange(0, i as int),
        decreases v@.len() - i,
    {
        out.push(v[i].clone());
        proof {
            assert(out@ =~= v@.subrange(0, (i + 1) as int));
        }
        i = i + 1;
    }
    proof {
        assert(v@.subrange(0, v@.len() as int) =~= v@);
    }
    out
}

/// The persisted entity: the ordered list of accounts.
pub struct Config {
    pub accounts: Vec<Account>,
}

impl Default for Config {
    fn default() -> (r: Self)
        ensures
            r.accounts@.len() == 0,
    {
        Config { accounts: Vec::new() }
    }
}

/// Pick the configuration to start from: the primary file if it was found,
/// otherwise the legacy file if it was found, otherwise an empty one.
pub fn load_config(primary: Option<Config>, legacy: Option<Config>) -> (c: Config)
    ensures
        match primary {
            Some(p) => c == p,
            None => match legacy {
                Some(l) => c == l,
                None => c.accounts@.len() == 0,
            },
        },
{
    match primary {
        Some(p) => p,
        None => match legacy {
            Some(l) => l,
            None => Config { accounts: Vec::new() },
        },
    }
}

/// Where the configuration file lives, from the environment handed in as plain
/// values: `$XDG_CONFIG_HOME`, else `$HOME/.config`, else `./.config`, each
/// extended with `nyxflare/accounts.json`.
pub open spec fn config_path_spec(xdg_config_home: Option<Seq<char>>, home: Option<Seq<char>>) -> Seq<char> {
    let base = match xdg_config_home {
        Some(x) => x,
        None => match home {
            Some(h) => h + "/.config"@,
            None => "./.config"@,
        },
    };
    base + "/nyxflare/accounts.json"@
}

/// Resolve the configuration path from explicitly supplied environment values.
pub fn default_config_path(xdg_config_home: Option<String>, home: Option<String>) -> (p: String)
    ensures
        p@ == config_path_spec(opt_view(xdg_config_home), opt_view(home)),
{
    let mut base: String = match xdg_config_home {
        Some(x) => x,
        None => match home {
            Some(h) => h.concat("/.config"),
            None => "./.config".to_owned(),
        },
    };
    base.append("/nyxflare/accounts.json");
    base
}

} // verus!

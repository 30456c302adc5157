//! Service configuration: where the portal listens and where its database,
//! finance service and library service are found.
//!
//! The settings arrive as the (lower-cased) name/value pairs that the
//! environment holds; each field of [`Config`] is looked up under its dotted
//! name, and the port goes through the `config` crate's integer conversion.

use vstd::prelude::*;

verus! {

#[verifier::external_type_specification]
#[verifier::external_body]
pub struct ExSettingsError(config::ConfigError);

/// Host name and port the web server binds to.
pub struct Address {
    pub host: String,
    pub port: u16,
}

/// Everything the portal needs to start.
pub struct Config {
    pub server: Address,
    pub database_url: String,
    pub finance_url: String,
    pub library_url: String,
}

/// One field of the configuration.
#[derive(Clone, Copy, Debug, PartialEq, Eq, Structural)]
pub enum Setting {
    ServerHost,
    ServerPort,
    DatabaseUrl,
    FinanceUrl,
    LibraryUrl,
}

/// Why a configuration could not be read.
#[derive(Clone, Copy, Debug, PartialEq, Eq, Structural)]
pub enum SettingsProblem {
    /// No variable holds this setting.
    Missing(Setting),
    /// The variable for this setting holds no integer.
    NotAnInteger(Setting),
}

/// The name under which a setting is found in the environment.
pub open spec fn setting_key(s: Setting) -> Seq<char> {
    match s {
        Setting::ServerHost => "server.host"@,
        Setting::ServerPort => "server.port"@,
        Setting::DatabaseUrl => "database_url"@,
        Setting::FinanceUrl => "finance_url"@,
        Setting::LibraryUrl => "library_url"@,
    }
}

/// The name/value pairs, as character sequences.
pub open spec fn env_view(env: Seq<(String, String)>) -> Seq<(Seq<char>, Seq<char>)> {
    env.map_values(|p: (String, String)| (p.0@, p.1@))
}

/// The value of the first pair named `key`.
pub open spec fn lookup(env: Seq<(Seq<char>, Seq<char>)>, key: Seq<char>) -> Option<Seq<char>>
    decreases env.len(),
{
    if env.len() == 0 {
        None
    } else if env[0].0 == key {
        Some(env[0].1)
    } else {
        lookup(env.drop_first(), key)
    }
}

/// ASCII lower-casing of one character.
pub open spec fn lower_char(c: char) -> char {
    if 'A' <= c && c <= 'Z' {
        ((c as int) + 32) as char
    } else {
        c
    }
}

pub open spec fn lower_text(s: Seq<char>) -> Seq<char> {
    s.map_values(|c: char| lower_char(c))
}

pub open spec fn is_digit(c: char) -> bool {
    '0' <= c && c <= '9'
}

pub open spec fn all_digits(s: Seq<char>) -> bool {
    s.len() > 0 && forall|i: int| 0 <= i < s.len() ==> is_digit(#[trigger] s[i])
}

/// The number that a run of decimal digits denotes.
pub open spec fn digits_value(s: Seq<char>) -> int
    decreases s.len(),
{
    if s.len() == 0 {
        0
    } else {
        digits_value(s.drop_last()) * 10 + (s.last() as int - '0' as int)
    }
}

/// An optionally signed decimal integer, as `i64`'s `FromStr` reads it.
pub open spec fn i64_text(s: Seq<char>) -> Option<int> {
    let v = if s.len() > 0 && s[0] == '-' && all_digits(s.drop_first()) {
        Some(-digits_value(s.drop_first()))
    } else if s.len() > 0 && s[0] == '+' && all_digits(s.drop_first()) {
        Some(digits_value(s.drop_first()))
    } else if all_digits(s) {
        Some(digits_value(s))
    } else {
        None
    };
    match v {
        Some(n) => if i64::MIN <= n <= i64::MAX { Some(n) } else { None },
        None => None,
    }
}

/// The integer that the `config` crate reads from a textual setting: the
/// words true/on/yes and false/off/no in any case, else a decimal `i64`.
pub open spec fn config_integer(s: Seq<char>) -> Option<int> {
    let l = lower_text(s);
    if l == "true"@ || l == "on"@ || l == "yes"@ {
        Some(1)
    } else if l == "false"@ || l == "off"@ || l == "no"@ {
        Some(0)
    } else {
        i64_text(s)
    }
}

/// `config::Value::into_int` on a value that holds text: the text read as
/// an integer as `config_integer` says; an error where it names none.
#[verifier::external_body]
fn setting_as_integer(text: &String) -> (res: Result<i64, config::ConfigError>)
    ensures
        res is Ok <==> config_integer(text@) is Some,
        res matches Ok(v) ==> config_integer(text@) == Some(v as int),
{
    config::Value::new(None, text.clone()).into_int()
}

/// The problem reported first: an unreadable port is found while the
/// server's settings are read, before any setting is found missing; missing
/// settings then come in declaration order.
pub open spec fn first_problem(env: Seq<(Seq<char>, Seq<char>)>) -> Option<SettingsProblem> {
    if lookup(env, setting_key(Setting::ServerPort)) is Some
        && config_integer(lookup(env, setting_key(Setting::ServerPort))->0) is None {
        Some(SettingsProblem::NotAnInteger(Setting::ServerPort))
    } else if lookup(env, setting_key(Setting::ServerHost)) is None {
        Some(SettingsProblem::Missing(Setting::ServerHost))
    } else if lookup(env, setting_key(Setting::ServerPort)) is None {
        Some(SettingsProblem::Missing(Setting::ServerPort))
    } else if lookup(env, setting_key(Setting::DatabaseUrl)) is None {
        Some(SettingsProblem::Missing(Setting::DatabaseUrl))
    } else if lookup(env, setting_key(Setting::FinanceUrl)) is None {
        Some(SettingsProblem::Missing(Setting::FinanceUrl))
    } else if lookup(env, setting_key(Setting::LibraryUrl)) is None {
        Some(SettingsProblem::Missing(Setting::LibraryUrl))
    } else {
        None
    }
}

/// Looking up in two joined lists finds the first list's value if it has
/// one, else the second's.
pub proof fn lookup_in_joined(a: Seq<(Seq<char>, Seq<char>)>, b: Seq<(Seq<char>, Seq<char>)>, key: Seq<char>)
    ensures
        lookup(a + b, key) == (if lookup(a, key) is Some { lookup(a, key) } else { lookup(b, key) }),
    decreases a.len(),
{
    if a.len() > 0 {
        assert((a + b).drop_first() =~= a.drop_first() + b);
        lookup_in_joined(a.drop_first(), b, key);
    } else {
        assert(a + b =~= b);
    }
}

/// A list without a pair named `key` holds no value for it.
proof fn lookup_absent(e: Seq<(Seq<char>, Seq<char>)>, key: Seq<char>)
    requires
        forall|i: int| 0 <= i < e.len() ==> #[trigger] e[i].0 != key,
    ensures
        lookup(e, key) is None,
    decreases e.len(),
{
    if e.len() > 0 {
        assert(e[0].0 != key);
        lookup_absent(e.drop_first(), key);
    }
}

/// None of the configuration's names.
pub open spec fn is_unrelated_name(name: Seq<char>) -> bool {
    forall|s: Setting| name != #[trigger] setting_key(s)
}

/// Variables under other names change nothing: putting them anywhere among
/// the environment's pairs leaves every setting, and so what `from_env`
/// answers, as it was.
pub proof fn unrelated_variables_change_nothing(
    before: Seq<(Seq<char>, Seq<char>)>,
    extra: Seq<(Seq<char>, Seq<char>)>,
    after: Seq<(Seq<char>, Seq<char>)>,
)
    requires
        forall|i: int| 0 <= i < extra.len() ==> is_unrelated_name(#[trigger] extra[i].0),
    ensures
        forall|s: Setting| #[trigger] lookup(before + extra + after, setting_key(s)) == lookup(before + after, setting_key(s)),
        first_problem(before + extra + after) == first_problem(before + after),
{
    assert forall|s: Setting| #[trigger] lookup(before + extra + after, setting_key(s)) == lookup(before + after, setting_key(s)) by {
        let k = setting_key(s);
        assert forall|i: int| 0 <= i < extra.len() implies #[trigger] extra[i].0 != k by {
            assert(is_unrelated_name(extra[i].0));
        }
        lookup_absent(extra, k);
        lookup_in_joined(before, extra, k);
        lookup_in_joined(before + extra, after, k);
        lookup_in_joined(before, after, k);
    }
    assert(lookup(before + extra + after, setting_key(Setting::ServerHost)) == lookup(before + after, setting_key(Setting::ServerHost)));
    assert(lookup(before + extra + after, setting_key(Setting::ServerPort)) == lookup(before + after, setting_key(Setting::ServerPort)));
    assert(lookup(before + extra + after, setting_key(Setting::DatabaseUrl)) == lookup(before + after, setting_key(Setting::DatabaseUrl)));
    assert(lookup(before + extra + after, setting_key(Setting::FinanceUrl)) == lookup(before + after, setting_key(Setting::FinanceUrl)));
    assert(lookup(before + extra + after, setting_key(Setting::LibraryUrl)) == lookup(before + after, setting_key(Setting::LibraryUrl)));
}

/// Finds the value of the first pair named `key`.
pub fn find_setting(env: &Vec<(String, String)>, key: &str) -> (res: Option<String>)
    ensures
        match res {
            Some(v) => lookup(env_view(env@), key@) == Some(v@),
            None => lookup(env_view(env@), key@) is None,
        },
{
    let wanted = String::from_str(key);
    let n = env.len();
    let mut i: usize = 0;
    assert(env_view(env@).skip(0) =~= env_view(env@));
    while i < n
        invariant
            n == env@.len(),
            i <= n,
            wanted@ == key@,
            lookup(env_view(env@), key@) == lookup(env_view(env@).skip(i as int), key@),
        decreases n - i,
    {
        let ghost rest = env_view(env@).skip(i as int);
        assert(rest[0] == (env@[i as int].0@, env@[i as int].1@));
        if env[i].0 == wanted {
            return Some(env[i].1.clone());
        }
        assert(rest.drop_first() =~= env_view(env@).skip(i + 1));
        i = i + 1;
    }
    assert(env_view(env@).skip(n as int) =~= Seq::<(Seq<char>, Seq<char>)>::empty());
    None
}

impl Config {
    /// Reads the configuration from the environment's name/value pairs
    /// (names lower-cased): `server.host`, `server.port`, `database_url`,
    /// `finance_url` and `library_url`.  The port is the integer that the
    /// `config` crate reads from its text, cut to 16 bits.
    pub fn from_env(env: &Vec<(String, String)>) -> (res: Result<Config, SettingsProblem>)
        ensures
            match res {
                Ok(c) => {
                    let e = env_view(env@);
                    &&& first_problem(e) is None
                    &&& Some(c.server.host@) == lookup(e, setting_key(Setting::ServerHost))
                    &&& config_integer(lookup(e, setting_key(Setting::ServerPort))->0) matches Some(v)
                        && c.server.port == v as u16
                    &&& Some(c.database_url@) == lookup(e, setting_key(Setting::DatabaseUrl))
                    &&& Some(c.finance_url@) == lookup(e, setting_key(Setting::FinanceUrl))
                    &&& Some(c.library_url@) == lookup(e, setting_key(Setting::LibraryUrl))
                },
                Err(err) => first_problem(env_view(env@)) == Some(err),
            },
    {
        let port_setting = find_setting(env, "server.port");
        let port_number = match &port_setting {
            Some(text) => match setting_as_integer(text) {
                Ok(n) => Some(n),
                Err(_) => return Err(SettingsProblem::NotAnInteger(Setting::ServerPort)),
            },
            None => None,
        };
        let host = match find_setting(env, "server.host") {
            Some(h) => h,
            None => return Err(SettingsProblem::Missing(Setting::ServerHost)),
        };
        let port_number = match port_number {
            Some(n) => n,
            None => return Err(SettingsProblem::Missing(Setting::ServerPort)),
        };
        let database_url = match find_setting(env, "database_url") {
            Some(u) => u,
            None => return Err(SettingsProblem::Missing(Setting::DatabaseUrl)),
        };
        let finance_url = match find_setting(env, "finance_url") {
            Some(u) => u,
            None => return Err(SettingsProblem::Missing(Setting::FinanceUrl)),
        };
        let library_url = match find_setting(env, "library_url") {
            Some(u) => u,
            None => return Err(SettingsProblem::Missing(Setting::LibraryUrl)),
        };
        Ok(Config {
            server: Address { host, port: port_number as u16 },
            database_url,
            finance_url,
            library_url,
        })
    }
}

} // verus!

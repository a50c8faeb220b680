//! The settings of the application, and what is derived from them.

use vstd::prelude::*;
use vstd::string::*;

verus! {

/// All settings.
pub struct Settings {
    pub database: DatabaseSettings,
    pub application: ApplicationSettings,
    pub email_client: EmailClientSettings,
}

/// How the store is reached. The port is kept as the text that was read.
pub struct DatabaseSettings {
    pub username: String,
    pub password: String,
    pub port: String,
    pub host: String,
    pub database_name: String,
    pub require_ssl: bool,
}

/// Where the application listens, and under which address it is reachable
/// from outside.
pub struct ApplicationSettings {
    pub host: String,
    pub port: u16,
    pub base_url: String,
}

/// Where the e-mail service is reached.
pub struct EmailClientSettings {
    pub url: String,
}

/// The environment that the application runs in.
#[derive(Clone, Copy, Debug, PartialEq, Eq, Structural)]
pub enum Enviroment {
    Local,
    Production,
}

/// Whether a connection to the store has to be encrypted.
#[derive(Clone, Copy, Debug, PartialEq, Eq, Structural)]
pub enum SslMode {
    /// Encrypt, and fail where the server cannot.
    Require,
    /// Encrypt where the server can.
    Prefer,
}

/// What a connection to the store is opened with.
pub struct ConnectOptions {
    pub host: String,
    pub port: u16,
    pub username: String,
    pub password: String,
    pub ssl_mode: SslMode,
    pub database: Option<String>,
}

/// Connection options with their texts as sequences.
pub struct ConnectOptionsView {
    pub host: Seq<char>,
    pub port: u16,
    pub username: Seq<char>,
    pub password: Seq<char>,
    pub ssl_mode: SslMode,
    pub database: Option<Seq<char>>,
}

impl View for ConnectOptions {
    type V = ConnectOptionsView;

    open spec fn view(&self) -> ConnectOptionsView {
        ConnectOptionsView {
            host: self.host@,
            port: self.port,
            username: self.username@,
            password: self.password@,
            ssl_mode: self.ssl_mode,
            database: match self.database {
                Some(name) => Some(name@),
                None => None,
            },
        }
    }
}

/// Whether `c` is an ASCII digit.
pub open spec fn is_digit(c: char) -> bool {
    '0' <= c <= '9'
}

/// The number that the digits of `s` spell in base ten.
pub open spec fn decimal_value(s: Seq<char>) -> nat
    decreases s.len(),
{
    if s.len() == 0 {
        0
    } else {
        decimal_value(s.drop_last()) * 10 + (s.last() as u32 - '0' as u32) as nat
    }
}

/// The port that `s` spells: an optional `+`, then digits and nothing else,
/// for a number that fits in 16 bits.
pub open spec fn port_of(s: Seq<char>) -> Option<u16> {
    let digits = if s.len() > 0 && s[0] == '+' {
        s.drop_first()
    } else {
        s
    };
    if digits.len() > 0 && (forall|i: int| 0 <= i < digits.len() ==> is_digit(#[trigger] digits[i]))
        && decimal_value(digits) <= u16::MAX {
        Some(decimal_value(digits) as u16)
    } else {
        None
    }
}

/// The text `s` with every character in lower case, by the Unicode mapping.
pub uninterp spec fn lowercase_of(s: Seq<char>) -> Seq<char>;

/// `str::parse::<u16>`: the number that `s` spells in base ten, where it
/// spells one that fits.
#[verifier::external_body]
fn parse_port(s: &str) -> (port: Option<u16>)
    ensures
        port == port_of(s@),
{
    s.parse::<u16>().ok()
}

/// `str::to_lowercase`: `s` in lower case.
#[verifier::external_body]
fn to_lowercase(s: &str) -> (lowered: String)
    ensures
        lowered@ == lowercase_of(s@),
{
    s.to_lowercase()
}

impl DatabaseSettings {
    /// The port as a number, where the text spells one.
    pub fn port_number(&self) -> (port: Option<u16>)
        ensures
            port == port_of(self.port@),
    {
        parse_port(self.port.as_str())
    }

    /// The options for a connection to the server, with no database chosen.
    pub fn without_db(&self) -> (options: ConnectOptions)
        requires
            port_of(self.port@) is Some,
        ensures
            options@ == (ConnectOptionsView {
                host: self.host@,
                port: port_of(self.port@)->Some_0,
                username: self.username@,
                password: self.password@,
                ssl_mode: if self.require_ssl {
                    SslMode::Require
                } else {
                    SslMode::Prefer
                },
                database: None,
            }),
    {
        let require_ssl = if self.require_ssl {
            SslMode::Require
        } else {
            SslMode::Prefer
        };
        let port = match self.port_number() {
            Some(port) => port,
            None => vstd::pervasive::unreached(),
        };
        ConnectOptions {
            host: self.host.clone(),
            port,
            username: self.username.clone(),
            password: self.password.clone(),
            ssl_mode: require_ssl,
            database: None,
        }
    }

    /// The options for a connection to the database of the application.
    pub fn with_db(&self) -> (options: ConnectOptions)
        requires
            port_of(self.port@) is Some,
        ensures
            options@ == (ConnectOptionsView {
                database: Some(self.database_name@),
                ..self.without_db_spec()
            }),
    {
        let options = self.without_db();
        ConnectOptions { database: Some(self.database_name.clone()), ..options }
    }

    /// The options that `without_db` returns.
    pub open spec fn without_db_spec(&self) -> ConnectOptionsView {
        ConnectOptionsView {
            host: self.host@,
            port: port_of(self.port@)->Some_0,
            username: self.username@,
            password: self.password@,
            ssl_mode: if self.require_ssl {
                SslMode::Require
            } else {
                SslMode::Prefer
            },
            database: None,
        }
    }
}

/// The environment that a name in lower case stands for.
pub open spec fn enviroment_named(lowered: Seq<char>) -> Option<Enviroment> {
    if lowered == "local"@ {
        Some(Enviroment::Local)
    } else if lowered == "production"@ {
        Some(Enviroment::Production)
    } else {
        None
    }
}

impl Enviroment {
    /// The name of the environment.
    pub fn as_str(&self) -> (name: &'static str)
        ensures
            *self == Enviroment::Local ==> name@ == "local"@,
            *self == Enviroment::Production ==> name@ == "production"@,
    {
        match self {
            Enviroment::Local => "local",
            Enviroment::Production => "production",
        }
    }

    /// The environment that `lowered`, a name in lower case, stands for.
    pub fn from_lowercase(lowered: String) -> (r: Result<Enviroment, String>)
        ensures
            match r {
                Ok(enviroment) => enviroment_named(lowered@) == Some(enviroment),
                Err(message) => enviroment_named(lowered@) is None && message@ == lowered@
                    + " is not a valid enviroment"@,
            },
    {
        if *lowered.as_str() == *"local" {
            Ok(Enviroment::Local)
        } else if *lowered.as_str() == *"production" {
            Ok(Enviroment::Production)
        } else {
            Err(lowered.concat(" is not a valid enviroment"))
        }
    }

    /// The name of the file that holds the settings of this environment.
    pub fn file_name(&self) -> (name: String)
        ensures
            *self == Enviroment::Local ==> name@ == "local"@ + ".yaml"@,
            *self == Enviroment::Production ==> name@ == "production"@ + ".yaml"@,
    {
        self.as_str().to_owned().concat(".yaml")
    }
}

impl TryFrom<String> for Enviroment {
    type Error = String;

    fn try_from(value: String) -> (r: Result<Self, String>)
        ensures
            match r {
                Ok(enviroment) => enviroment_named(lowercase_of(value@)) == Some(enviroment),
                Err(message) => enviroment_named(lowercase_of(value@)) is None && message@
                    == lowercase_of(value@) + " is not a valid enviroment"@,
            },
    {
        Enviroment::from_lowercase(to_lowercase(value.as_str()))
    }
}

impl vstd::std_specs::convert::TryFromSpecImpl<String> for Enviroment {
    open spec fn obeys_try_from_spec() -> bool {
        false
    }

    open spec fn try_from_spec(v: String) -> Result<Self, String> {
        arbitrary()
    }
}

} // verus!

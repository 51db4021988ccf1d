//! The settings of a deployment and the environments it can run in.

use crate::error::AppError;
use crate::text::append_decimal;
use crate::text::decimal;
use crate::text::same_text;
use vstd::prelude::*;
use vstd::string::StringExecFns;

verus! {

/// Where the service listens.
#[derive(Debug)]
pub struct ApplicationSettings {
    pub port: u16,
    pub host: String,
}

/// Where the store is, and who signs in to it.
pub struct DatabaseSettings {
    pub username: String,
    /// Kept secret by the caller.
    pub password: String,
    pub port: u16,
    pub host: String,
    pub database_name: String,
    pub namespace: String,
}

/// How emails are handed to the delivery service.
pub struct EmailClientSettings {
    /// Kept secret by the caller.
    pub token: String,
    pub base_url: String,
    pub sender: String,
}

/// All settings of a deployment.
pub struct Settings {
    pub database: DatabaseSettings,
    pub application: ApplicationSettings,
    pub email_client: EmailClientSettings,
}

/// Directory, below the working directory, that holds the settings files.
pub const CONFIGURATION_DIRECTORY: &'static str = "configuration";

/// Variable of the process environment that names the deployment.
pub const ENVIRONMENT_VARIABLE: &'static str = "APP_ENVIRONMENT";

/// The lower-case form of `s` as `str::to_lowercase` gives it.
pub uninterp spec fn lowercase(s: Seq<char>) -> Seq<char>;

/// Turns `s` to lower case with `str::to_lowercase`. Unproved: that the
/// result is the one `lowercase` names.
#[verifier::external_body]
fn to_lowercase(s: &str) -> (lower: String)
    ensures
        lower@ == lowercase(s@),
{
    s.to_lowercase()
}

/// The deployments that the service knows.
#[derive(Debug, Clone, Copy, PartialEq, Eq, Structural)]
pub enum Environment {
    Local,
    Development,
    Production,
}

impl Environment {
    /// The name of the deployment.
    pub open spec fn name(self) -> Seq<char> {
        match self {
            Environment::Local => "local"@,
            Environment::Development => "development"@,
            Environment::Production => "production"@,
        }
    }

    /// The deployment with the name `name`, if there is one.
    pub open spec fn named(name: Seq<char>) -> Option<Environment> {
        if name == "local"@ {
            Some(Environment::Local)
        } else if name == "production"@ {
            Some(Environment::Production)
        } else if name == "development"@ {
            Some(Environment::Development)
        } else {
            None
        }
    }

    /// The deployment that a value of the environment variable selects:
    /// the one whose name is the value in lower case.
    pub open spec fn selected(value: Seq<char>) -> Result<Environment, AppError> {
        match Environment::named(lowercase(value)) {
            Some(environment) => Ok(environment),
            None => Err(AppError::EnvError),
        }
    }

    /// The name of the deployment.
    pub fn as_str(&self) -> (name: &'static str)
        ensures
            name@ == self.name(),
    {
        match self {
            Environment::Local => "local",
            Environment::Development => "development",
            Environment::Production => "production",
        }
    }

    /// The deployment with exactly the name `name`.
    pub fn from_name(name: &str) -> (found: Option<Environment>)
        ensures
            found == Environment::named(name@),
    {
        if same_text(name, "local") {
            Some(Environment::Local)
        } else if same_text(name, "production") {
            Some(Environment::Production)
        } else if same_text(name, "development") {
            Some(Environment::Development)
        } else {
            None
        }
    }

    /// The name of the settings file of the deployment.
    pub fn file_name(&self) -> (name: String)
        ensures
            name@ == self.name() + ".toml"@,
    {
        let mut name = String::from_str(self.as_str());
        name.append(".toml");
        name
    }

    /// The deployment that the environment variable selects: `Production`
    /// where the variable is not set.
    pub fn from_variable(value: Option<String>) -> (chosen: Result<Environment, AppError>)
        ensures
            chosen == match value {
                Some(text) => Environment::selected(text@),
                None => Ok::<Environment, AppError>(Environment::Production),
            },
    {
        match value {
            Some(text) => Environment::try_from(text),
            None => Ok(Environment::Production),
        }
    }

    /// Each deployment is the one that its own name stands for.
    pub proof fn lemma_name_round_trip(self)
        ensures
            Environment::named(self.name()) == Some(self),
    {
        reveal_strlit("local");
        reveal_strlit("production");
        reveal_strlit("development");
        assert("local"@.len() == 5);
        assert("production"@.len() == 10);
        assert("development"@.len() == 11);
    }
}

impl TryFrom<String> for Environment {
    type Error = AppError;

    /// The deployment that `s` names, in whatever case it is written;
    /// `EnvError` where it names none.
    fn try_from(s: String) -> (chosen: Result<Environment, AppError>)
        ensures
            chosen == Environment::selected(s@),
    {
        let lower = to_lowercase(s.as_str());
        match Environment::from_name(lower.as_str()) {
            Some(environment) => Ok(environment),
            None => Err(AppError::EnvError),
        }
    }
}

impl vstd::std_specs::convert::TryFromSpecImpl<String> for Environment {
    open spec fn obeys_try_from_spec() -> bool {
        true
    }

    open spec fn try_from_spec(s: String) -> Result<Environment, AppError> {
        Environment::selected(s@)
    }
}

/// `host`, a colon, and `port` as a decimal numeral.
pub open spec fn address(host: Seq<char>, port: u16) -> Seq<char> {
    host + seq![':'] + decimal(port as nat)
}

/// The address made of `host` and `port`.
fn address_of(host: &str, port: u16) -> (text: String)
    ensures
        text@ == address(host@, port),
{
    proof {
        reveal_strlit(":");
    }
    let mut text = String::from_str(host);
    text.append(":");
    append_decimal(port as u64, &mut text);
    assert(text@ =~= address(host@, port));
    text
}

impl Settings {
    /// The address of the store: its host and port.
    pub fn connection_string(&self) -> (text: String)
        ensures
            text@ == address(self.database.host@, self.database.port),
    {
        address_of(self.database.host.as_str(), self.database.port)
    }

    /// The address on which the service listens: its host and port.
    pub fn app_addr(&self) -> (text: String)
        ensures
            text@ == address(self.application.host@, self.application.port),
    {
        address_of(self.application.host.as_str(), self.application.port)
    }
}

} // verus!

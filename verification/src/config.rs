//! Start-up configuration: what is made of the values that the environment
//! holds. Reading the environment is the caller's part; deciding on what
//! was read is done here.

use vstd::prelude::*;
use vstd::string::StringExecFns;

verus! {

/// Name of the variable that holds the API key of the catalog service.
pub const MODIO_API_KEY: &'static str = "MODIO_API_KEY";

/// Name of the variable that holds the access token of the catalog service.
pub const MODIO_TOKEN: &'static str = "MODIO_TOKEN";

/// Name of the variable that holds the chat platform's bot token.
pub const DISCORD_BOT_TOKEN: &'static str = "DISCORD_BOT_TOKEN";

/// Name of the variable that holds the connection string of the database.
pub const DATABASE_URL: &'static str = "DATABASE_URL";

/// What the environment holds under one name.
#[derive(Debug, Clone, PartialEq, Eq)]
pub enum Lookup {
    /// The variable is set, to this text.
    Found(String),
    /// The variable is not set.
    NotPresent,
    /// The variable is set, to something that is no valid Unicode text.
    NotUnicode,
}

/// What a `Lookup` stands for.
pub ghost enum LookupModel {
    Found(Seq<char>),
    NotPresent,
    NotUnicode,
}

impl View for Lookup {
    type V = LookupModel;

    open spec fn view(&self) -> LookupModel {
        match self {
            Lookup::Found(value) => LookupModel::Found(value@),
            Lookup::NotPresent => LookupModel::NotPresent,
            Lookup::NotUnicode => LookupModel::NotUnicode,
        }
    }
}

/// How calls to the catalog service are authenticated.
#[derive(Debug, Clone, PartialEq, Eq)]
pub enum Credentials {
    ApiKey(String),
    Token(String),
}

/// What a `Credentials` value stands for.
pub ghost enum CredentialsModel {
    ApiKey(Seq<char>),
    Token(Seq<char>),
}

impl View for Credentials {
    type V = CredentialsModel;

    open spec fn view(&self) -> CredentialsModel {
        match self {
            Credentials::ApiKey(key) => CredentialsModel::ApiKey(key@),
            Credentials::Token(token) => CredentialsModel::Token(token@),
        }
    }
}

/// Why the configuration could not be made. Each of these ends start-up.
#[derive(Debug, Clone, PartialEq, Eq)]
pub enum ConfigError {
    /// The named variable is not set.
    NotPresent(&'static str),
    /// The named variable holds no valid Unicode text.
    InvalidEncoding(&'static str),
    /// Neither the API key nor the access token is set.
    MissingCredentials,
}

/// What a `ConfigError` stands for.
pub ghost enum ConfigErrorModel {
    NotPresent(Seq<char>),
    InvalidEncoding(Seq<char>),
    MissingCredentials,
}

impl View for ConfigError {
    type V = ConfigErrorModel;

    open spec fn view(&self) -> ConfigErrorModel {
        match self {
            ConfigError::NotPresent(key) => ConfigErrorModel::NotPresent(key@),
            ConfigError::InvalidEncoding(key) => ConfigErrorModel::InvalidEncoding(key@),
            ConfigError::MissingCredentials => ConfigErrorModel::MissingCredentials,
        }
    }
}

/// The value of a variable that has to be set.
pub open spec fn required(key: Seq<char>, found: LookupModel) -> Result<
    Seq<char>,
    ConfigErrorModel,
> {
    match found {
        LookupModel::Found(value) => Ok(value),
        LookupModel::NotPresent => Err(ConfigErrorModel::NotPresent(key)),
        LookupModel::NotUnicode => Err(ConfigErrorModel::InvalidEncoding(key)),
    }
}

/// The value of a variable that may be left unset, in which case it is
/// `default`. A value that is no valid text is an error all the same.
pub open spec fn optional(key: Seq<char>, found: LookupModel, default: Seq<char>) -> Result<
    Seq<char>,
    ConfigErrorModel,
> {
    match found {
        LookupModel::Found(value) => Ok(value),
        LookupModel::NotPresent => Ok(default),
        LookupModel::NotUnicode => Err(ConfigErrorModel::InvalidEncoding(key)),
    }
}

/// Which credentials are used. The API key wins wherever it is set; else
/// the token is used where it is set; else a value that is no valid text
/// is reported, the API key's first; else both are missing.
pub open spec fn select_credentials(api_key: LookupModel, token: LookupModel) -> Result<
    CredentialsModel,
    ConfigErrorModel,
> {
    match (api_key, token) {
        (LookupModel::Found(key), _) => Ok(CredentialsModel::ApiKey(key)),
        (_, LookupModel::Found(token)) => Ok(CredentialsModel::Token(token)),
        (LookupModel::NotUnicode, _) => Err(ConfigErrorModel::InvalidEncoding(MODIO_API_KEY@)),
        (_, LookupModel::NotUnicode) => Err(ConfigErrorModel::InvalidEncoding(MODIO_TOKEN@)),
        (LookupModel::NotPresent, LookupModel::NotPresent) => Err(
            ConfigErrorModel::MissingCredentials,
        ),
    }
}

/// The characters of a text or the model of an error.
pub open spec fn text_result(r: Result<String, ConfigError>) -> Result<Seq<char>, ConfigErrorModel> {
    match r {
        Ok(value) => Ok(value@),
        Err(e) => Err(e@),
    }
}

/// The value of the variable `key`, which has to be set.
pub fn var(key: &'static str, found: Lookup) -> (value: Result<String, ConfigError>)
    ensures
        text_result(value) == required(key@, found@),
{
    match found {
        Lookup::Found(value) => Ok(value),
        Lookup::NotPresent => Err(ConfigError::NotPresent(key)),
        Lookup::NotUnicode => Err(ConfigError::InvalidEncoding(key)),
    }
}

/// The value of the variable `key`, or `default` where it is not set.
pub fn var_or(key: &'static str, found: Lookup, default: String) -> (value: Result<
    String,
    ConfigError,
>)
    ensures
        text_result(value) == optional(key@, found@, default@),
{
    match found {
        Lookup::Found(value) => Ok(value),
        Lookup::NotPresent => Ok(default),
        Lookup::NotUnicode => Err(ConfigError::InvalidEncoding(key)),
    }
}

/// The model of chosen credentials or of an error.
pub open spec fn credentials_result(r: Result<Credentials, ConfigError>) -> Result<
    CredentialsModel,
    ConfigErrorModel,
> {
    match r {
        Ok(c) => Ok(c@),
        Err(e) => Err(e@),
    }
}

/// Chooses the credentials for the catalog service from what the
/// environment holds under `MODIO_API_KEY` and under `MODIO_TOKEN`.
pub fn credentials(api_key: Lookup, token: Lookup) -> (chosen: Result<Credentials, ConfigError>)
    ensures
        credentials_result(chosen) == select_credentials(api_key@, token@),
{
    match (api_key, token) {
        (Lookup::Found(key), _) => Ok(Credentials::ApiKey(key)),
        (_, Lookup::Found(token)) => Ok(Credentials::Token(token)),
        (Lookup::NotUnicode, _) => Err(ConfigError::InvalidEncoding(MODIO_API_KEY)),
        (_, Lookup::NotUnicode) => Err(ConfigError::InvalidEncoding(MODIO_TOKEN)),
        (Lookup::NotPresent, Lookup::NotPresent) => Err(ConfigError::MissingCredentials),
    }
}

/// What a client of the chat platform is made from.
#[derive(Debug, Clone, PartialEq, Eq)]
pub struct ClientConfig {
    pub token: String,
    pub database_url: String,
}

/// What a `ClientConfig` stands for.
pub ghost struct ClientConfigModel {
    pub token: Seq<char>,
    pub database_url: Seq<char>,
}

impl View for ClientConfig {
    type V = ClientConfigModel;

    open spec fn view(&self) -> ClientConfigModel {
        ClientConfigModel { token: self.token@, database_url: self.database_url@ }
    }
}

/// The client's configuration: both variables have to be set, and where
/// both are at fault the bot token's error is the one reported.
pub open spec fn client_config(token: LookupModel, database_url: LookupModel) -> Result<
    ClientConfigModel,
    ConfigErrorModel,
> {
    match required(DISCORD_BOT_TOKEN@, token) {
        Err(e) => Err(e),
        Ok(token) => match required(DATABASE_URL@, database_url) {
            Err(e) => Err(e),
            Ok(database_url) => Ok(ClientConfigModel { token, database_url }),
        },
    }
}

/// The model of a client configuration or of an error.
pub open spec fn client_result(r: Result<ClientConfig, ConfigError>) -> Result<
    ClientConfigModel,
    ConfigErrorModel,
> {
    match r {
        Ok(c) => Ok(c@),
        Err(e) => Err(e@),
    }
}

/// Puts together what the client of the chat platform is made from, out
/// of what the environment holds under `DISCORD_BOT_TOKEN` and under
/// `DATABASE_URL`.
pub fn discord(token: Lookup, database_url: Lookup) -> (config: Result<ClientConfig, ConfigError>)
    ensures
        client_result(config) == client_config(token@, database_url@),
{
    let token = match var(DISCORD_BOT_TOKEN, token) {
        Ok(token) => token,
        Err(e) => {
            return Err(e);
        },
    };
    let database_url = match var(DATABASE_URL, database_url) {
        Ok(url) => url,
        Err(e) => {
            return Err(e);
        },
    };
    Ok(ClientConfig { token, database_url })
}

impl ConfigErrorModel {
    /// The sentence that reports the error.
    pub open spec fn message(self) -> Seq<char> {
        match self {
            ConfigErrorModel::NotPresent(key) => "Environment variable '"@ + key + "' not found"@,
            ConfigErrorModel::InvalidEncoding(key) => "Environment variable '"@ + key
                + "' is not valid unicode"@,
            ConfigErrorModel::MissingCredentials => "Environment variable '"@ + MODIO_API_KEY@
                + "' or '"@ + MODIO_TOKEN@ + "' not found"@,
        }
    }
}

impl ConfigError {
    /// The sentence that reports the error.
    pub fn message(&self) -> (text: String)
        ensures
            text@ == self@.message(),
    {
        let mut text = String::from_str("Environment variable '");
        match self {
            ConfigError::NotPresent(key) => {
                text.append(key);
                text.append("' not found");
            },
            ConfigError::InvalidEncoding(key) => {
                text.append(key);
                text.append("' is not valid unicode");
            },
            ConfigError::MissingCredentials => {
                text.append(MODIO_API_KEY);
                text.append("' or '");
                text.append(MODIO_TOKEN);
                text.append("' not found");
            },
        }
        text
    }
}

} // verus!

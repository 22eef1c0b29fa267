use modbot::config::{
    credentials, discord, var, var_or, ClientConfig, ConfigError, Credentials, Lookup,
    DATABASE_URL, DISCORD_BOT_TOKEN, MODIO_API_KEY, MODIO_TOKEN,
};

fn found(value: &str) -> Lookup {
    Lookup::Found(value.to_string())
}

#[test]
fn api_key_takes_precedence() {
    assert_eq!(credentials(found("x"), found("y")), Ok(Credentials::ApiKey("x".to_string())));
}

#[test]
fn api_key_alone_is_used() {
    assert_eq!(
        credentials(found("x"), Lookup::NotPresent),
        Ok(Credentials::ApiKey("x".to_string()))
    );
    assert_eq!(
        credentials(found("x"), Lookup::NotUnicode),
        Ok(Credentials::ApiKey("x".to_string()))
    );
}

#[test]
fn token_alone_is_used() {
    assert_eq!(
        credentials(Lookup::NotPresent, found("y")),
        Ok(Credentials::Token("y".to_string()))
    );
}

#[test]
fn token_is_used_beside_a_broken_api_key() {
    assert_eq!(
        credentials(Lookup::NotUnicode, found("y")),
        Ok(Credentials::Token("y".to_string()))
    );
}

#[test]
fn neither_set_is_missing_credentials() {
    assert_eq!(
        credentials(Lookup::NotPresent, Lookup::NotPresent),
        Err(ConfigError::MissingCredentials)
    );
}

#[test]
fn broken_api_key_is_reported() {
    assert_eq!(
        credentials(Lookup::NotUnicode, Lookup::NotPresent),
        Err(ConfigError::InvalidEncoding("MODIO_API_KEY"))
    );
    assert_eq!(
        credentials(Lookup::NotUnicode, Lookup::NotUnicode),
        Err(ConfigError::InvalidEncoding("MODIO_API_KEY"))
    );
}

#[test]
fn broken_token_is_reported() {
    assert_eq!(
        credentials(Lookup::NotPresent, Lookup::NotUnicode),
        Err(ConfigError::InvalidEncoding("MODIO_TOKEN"))
    );
}

#[test]
fn empty_values_count_as_set() {
    assert_eq!(credentials(found(""), found("y")), Ok(Credentials::ApiKey(String::new())));
    assert_eq!(
        credentials(Lookup::NotPresent, found("")),
        Ok(Credentials::Token(String::new()))
    );
}

#[test]
fn variable_names() {
    assert_eq!(MODIO_API_KEY, "MODIO_API_KEY");
    assert_eq!(MODIO_TOKEN, "MODIO_TOKEN");
    assert_eq!(DISCORD_BOT_TOKEN, "DISCORD_BOT_TOKEN");
    assert_eq!(DATABASE_URL, "DATABASE_URL");
}

#[test]
fn required_variable() {
    assert_eq!(var("HOME", found("/root")), Ok("/root".to_string()));
    assert_eq!(var("HOME", Lookup::NotPresent), Err(ConfigError::NotPresent("HOME")));
    assert_eq!(var("HOME", Lookup::NotUnicode), Err(ConfigError::InvalidEncoding("HOME")));
}

#[test]
fn optional_variable() {
    assert_eq!(var_or("LOG_LEVEL", found("debug"), "info".to_string()), Ok("debug".to_string()));
    assert_eq!(var_or("LOG_LEVEL", Lookup::NotPresent, "info".to_string()), Ok("info".to_string()));
    assert_eq!(
        var_or("LOG_LEVEL", Lookup::NotUnicode, "info".to_string()),
        Err(ConfigError::InvalidEncoding("LOG_LEVEL"))
    );
}

#[test]
fn client_configuration() {
    assert_eq!(
        discord(found("t"), found("db.sqlite")),
        Ok(ClientConfig { token: "t".to_string(), database_url: "db.sqlite".to_string() })
    );
}

#[test]
fn client_configuration_reports_the_token_first() {
    assert_eq!(
        discord(Lookup::NotPresent, Lookup::NotUnicode),
        Err(ConfigError::NotPresent("DISCORD_BOT_TOKEN"))
    );
    assert_eq!(
        discord(Lookup::NotUnicode, Lookup::NotPresent),
        Err(ConfigError::InvalidEncoding("DISCORD_BOT_TOKEN"))
    );
    assert_eq!(
        discord(found("t"), Lookup::NotPresent),
        Err(ConfigError::NotPresent("DATABASE_URL"))
    );
    assert_eq!(
        discord(found("t"), Lookup::NotUnicode),
        Err(ConfigError::InvalidEncoding("DATABASE_URL"))
    );
}

#[test]
fn error_messages() {
    assert_eq!(
        ConfigError::InvalidEncoding("MODIO_API_KEY").message(),
        "Environment variable 'MODIO_API_KEY' is not valid unicode"
    );
    assert_eq!(
        ConfigError::InvalidEncoding("MODIO_TOKEN").message(),
        "Environment variable 'MODIO_TOKEN' is not valid unicode"
    );
    assert_eq!(
        ConfigError::MissingCredentials.message(),
        "Environment variable 'MODIO_API_KEY' or 'MODIO_TOKEN' not found"
    );
    assert_eq!(
        ConfigError::NotPresent("DATABASE_URL").message(),
        "Environment variable 'DATABASE_URL' not found"
    );
}

use zero2prod::configuration::ApplicationSettings;
use zero2prod::configuration::DatabaseSettings;
use zero2prod::configuration::EmailClientSettings;
use zero2prod::configuration::Environment;
use zero2prod::configuration::Settings;
use zero2prod::configuration::CONFIGURATION_DIRECTORY;
use zero2prod::configuration::ENVIRONMENT_VARIABLE;
use zero2prod::error::AppError;

fn settings(database_host: &str, database_port: u16, host: &str, port: u16) -> Settings {
    Settings {
        database: DatabaseSettings {
            username: String::from("root"),
            password: String::from("not-a-real-one"),
            port: database_port,
            host: String::from(database_host),
            database_name: String::from("newsletter"),
            namespace: String::from("zero2prod"),
        },
        application: ApplicationSettings { port, host: String::from(host) },
        email_client: EmailClientSettings {
            token: String::from("not-a-real-one"),
            base_url: String::from("http://localhost"),
            sender: String::from("sender@example.com"),
        },
    }
}

#[test]
fn environment_has_its_name() {
    assert_eq!(Environment::Local.as_str(), "local");
    assert_eq!(Environment::Development.as_str(), "development");
    assert_eq!(Environment::Production.as_str(), "production");
}

#[test]
fn environment_is_read_in_any_case() {
    assert_eq!(Environment::try_from(String::from("local")), Ok(Environment::Local));
    assert_eq!(Environment::try_from(String::from("LOCAL")), Ok(Environment::Local));
    assert_eq!(Environment::try_from(String::from("Production")), Ok(Environment::Production));
    assert_eq!(Environment::try_from(String::from("dEvElOpMeNt")), Ok(Environment::Development));
}

#[test]
fn unknown_environment_is_an_error() {
    for name in ["", "dev", "prod", " local", "local ", "staging", "locale"] {
        assert_eq!(Environment::try_from(String::from(name)), Err(AppError::EnvError), "{:?}", name);
    }
}

#[test]
fn environment_converts_from_a_string() {
    let chosen: Result<Environment, AppError> = String::from("Local").try_into();
    assert_eq!(chosen, Ok(Environment::Local));
}

#[test]
fn environment_is_found_by_its_exact_name() {
    assert_eq!(Environment::from_name("local"), Some(Environment::Local));
    assert_eq!(Environment::from_name("development"), Some(Environment::Development));
    assert_eq!(Environment::from_name("production"), Some(Environment::Production));
    assert_eq!(Environment::from_name("Local"), None);
    assert_eq!(Environment::from_name(""), None);
}

#[test]
fn each_environment_is_read_from_its_own_name() {
    for environment in [Environment::Local, Environment::Development, Environment::Production] {
        assert_eq!(Environment::from_name(environment.as_str()), Some(environment));
        assert_eq!(Environment::try_from(String::from(environment.as_str())), Ok(environment));
    }
}

#[test]
fn unset_variable_selects_production() {
    assert_eq!(ENVIRONMENT_VARIABLE, "APP_ENVIRONMENT");
    assert_eq!(Environment::from_variable(None), Ok(Environment::Production));
    assert_eq!(Environment::from_variable(Some(String::from("local"))), Ok(Environment::Local));
    assert_eq!(Environment::from_variable(Some(String::from("nowhere"))), Err(AppError::EnvError));
}

#[test]
fn settings_file_is_named_after_the_environment() {
    assert_eq!(CONFIGURATION_DIRECTORY, "configuration");
    assert_eq!(Environment::Local.file_name(), "local.toml");
    assert_eq!(Environment::Development.file_name(), "development.toml");
    assert_eq!(Environment::Production.file_name(), "production.toml");
}

#[test]
fn addresses_are_host_and_port() {
    let s = settings("127.0.0.1", 8000, "0.0.0.0", 3000);
    assert_eq!(s.connection_string(), "127.0.0.1:8000");
    assert_eq!(s.app_addr(), "0.0.0.0:3000");
}

#[test]
fn addresses_hold_every_port() {
    assert_eq!(settings("db", 0, "app", 65535).connection_string(), "db:0");
    assert_eq!(settings("db", 0, "app", 65535).app_addr(), "app:65535");
    assert_eq!(settings("", 9, "", 10).connection_string(), ":9");
    assert_eq!(settings("", 9, "", 10).app_addr(), ":10");
}

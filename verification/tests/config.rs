use stoic_newsletter::config::{DatabaseSettings, Enviroment, SslMode};
use stoic_newsletter::startup::ApplicationBaseUrl;

fn database(port: &str, require_ssl: bool) -> DatabaseSettings {
    DatabaseSettings {
        username: String::from("postgres"),
        password: String::from("password"),
        port: String::from(port),
        host: String::from("127.0.0.1"),
        database_name: String::from("newsletter"),
        require_ssl,
    }
}

#[test]
fn an_enviroment_has_a_name() {
    assert_eq!(Enviroment::Local.as_str(), "local");
    assert_eq!(Enviroment::Production.as_str(), "production");
    assert_eq!(Enviroment::Local.file_name(), "local.yaml");
    assert_eq!(Enviroment::Production.file_name(), "production.yaml");
}

#[test]
fn an_enviroment_is_read_whatever_the_case() {
    for name in ["local", "Local", "LOCAL", "lOcAl"] {
        assert_eq!(Enviroment::try_from(String::from(name)), Ok(Enviroment::Local));
    }
    for name in ["production", "Production", "PRODUCTION"] {
        assert_eq!(Enviroment::try_from(String::from(name)), Ok(Enviroment::Production));
    }
}

#[test]
fn an_unknown_enviroment_is_reported_in_lower_case() {
    assert_eq!(
        Enviroment::try_from(String::from("Staging")),
        Err(String::from("staging is not a valid enviroment"))
    );
    assert_eq!(Enviroment::try_from(String::new()), Err(String::from(" is not a valid enviroment")));
    assert_eq!(
        Enviroment::try_from(String::from(" local")),
        Err(String::from(" local is not a valid enviroment"))
    );
    assert_eq!(
        Enviroment::from_lowercase(String::from("Local")),
        Err(String::from("Local is not a valid enviroment"))
    );
    assert_eq!(Enviroment::from_lowercase(String::from("local")), Ok(Enviroment::Local));
    assert_eq!(Enviroment::from_lowercase(String::from("production")), Ok(Enviroment::Production));
}

#[test]
fn a_port_is_digits_with_an_optional_plus() {
    assert_eq!(database("5432", false).port_number(), Some(5432));
    assert_eq!(database("+5432", false).port_number(), Some(5432));
    assert_eq!(database("0", false).port_number(), Some(0));
    assert_eq!(database("0005432", false).port_number(), Some(5432));
    assert_eq!(database("65535", false).port_number(), Some(65535));
    assert_eq!(database("65536", false).port_number(), None);
    assert_eq!(database("", false).port_number(), None);
    assert_eq!(database("+", false).port_number(), None);
    assert_eq!(database("-1", false).port_number(), None);
    assert_eq!(database(" 5432", false).port_number(), None);
    assert_eq!(database("5432 ", false).port_number(), None);
    assert_eq!(database("54a2", false).port_number(), None);
    assert_eq!(database("++1", false).port_number(), None);
}

#[test]
fn connection_options_are_the_settings() {
    let options = database("5432", true).without_db();
    assert_eq!(options.host, "127.0.0.1");
    assert_eq!(options.port, 5432);
    assert_eq!(options.username, "postgres");
    assert_eq!(options.password, "password");
    assert_eq!(options.ssl_mode, SslMode::Require);
    assert_eq!(options.database, None);

    let options = database("6543", false).with_db();
    assert_eq!(options.host, "127.0.0.1");
    assert_eq!(options.port, 6543);
    assert_eq!(options.username, "postgres");
    assert_eq!(options.password, "password");
    assert_eq!(options.ssl_mode, SslMode::Prefer);
    assert_eq!(options.database, Some(String::from("newsletter")));
}

#[test]
fn the_base_url_is_a_text() {
    let base_url = ApplicationBaseUrl(String::from("http://127.0.0.1"));
    assert_eq!(base_url.0, "http://127.0.0.1");
}

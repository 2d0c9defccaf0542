use clinic_api::database::setting_name;
use clinic_api::database::DatabaseConfig;
use clinic_api::database::DatabaseConfigError;
use clinic_api::database::DatabaseSettings;

#[test]
fn test_database_url_format() {
    let config = DatabaseConfig {
        host: "localhost".to_string(),
        port: 3306,
        user: "root".to_string(),
        password: "password".to_string(),
        name: "clinic".to_string(),
    };

    let url = config.to_url();
    assert!(url.contains("mysql://"));
    assert!(url.contains("localhost:3306"));
    assert!(url.contains("charset=utf8mb4"));
}

#[test]
fn the_url_is_exact() {
    let config = DatabaseConfig {
        host: "db.internal".to_string(),
        port: 0,
        user: "u".to_string(),
        password: "p".to_string(),
        name: "n".to_string(),
    };
    assert_eq!(config.to_url(), "mysql://u:p@db.internal:0/n?charset=utf8mb4&parseTime=true");
    let config = DatabaseConfig { port: 65535, ..config };
    assert_eq!(
        config.to_url(),
        "mysql://u:p@db.internal:65535/n?charset=utf8mb4&parseTime=true"
    );
}

fn settings() -> DatabaseSettings {
    DatabaseSettings {
        host: Some("h".to_string()),
        port: Some("3306".to_string()),
        user: Some("u".to_string()),
        password: Some("p".to_string()),
        name: Some("n".to_string()),
    }
}

#[test]
fn settings_make_a_connection() {
    let config = DatabaseConfig::from_settings(settings()).unwrap();
    assert_eq!(config.host, "h");
    assert_eq!(config.port, 3306);
    assert_eq!(config.user, "u");
    assert_eq!(config.password, "p");
    assert_eq!(config.name, "n");
    assert_eq!(setting_name("DBR", "HOST"), "DBR_HOST");
    assert_eq!(setting_name("DB", "PWD"), "DB_PWD");
}

#[test]
fn every_missing_setting_is_named() {
    let fault = |settings: DatabaseSettings| DatabaseConfig::from_settings(settings).unwrap_err();
    assert_eq!(
        fault(DatabaseSettings { host: None, ..settings() }),
        DatabaseConfigError::MissingHost
    );
    assert_eq!(
        fault(DatabaseSettings { port: None, ..settings() }),
        DatabaseConfigError::MissingPort
    );
    assert_eq!(
        fault(DatabaseSettings { user: None, ..settings() }),
        DatabaseConfigError::MissingUser
    );
    assert_eq!(
        fault(DatabaseSettings { password: None, ..settings() }),
        DatabaseConfigError::MissingPassword
    );
    assert_eq!(
        fault(DatabaseSettings { name: None, ..settings() }),
        DatabaseConfigError::MissingName
    );
    // the host is looked at before the port
    assert_eq!(
        fault(DatabaseSettings { host: None, port: None, ..settings() }),
        DatabaseConfigError::MissingHost
    );
}

#[test]
fn the_port_must_be_a_port() {
    let port = |text: &str| {
        DatabaseConfig::from_settings(DatabaseSettings {
            port: Some(text.to_string()),
            ..settings()
        })
        .map(|config| config.port)
    };
    assert_eq!(port("0"), Ok(0));
    assert_eq!(port("65535"), Ok(65535));
    assert_eq!(port("+80"), Ok(80));
    assert_eq!(port("65536"), Err(DatabaseConfigError::InvalidPort));
    assert_eq!(port("-0"), Err(DatabaseConfigError::InvalidPort));
    assert_eq!(port("-1"), Err(DatabaseConfigError::InvalidPort));
    assert_eq!(port(""), Err(DatabaseConfigError::InvalidPort));
    assert_eq!(port("33 06"), Err(DatabaseConfigError::InvalidPort));
}

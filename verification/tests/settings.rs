use kv_service::configuration::ApplicationSettings;
use kv_service::configuration::Environment;
use kv_service::configuration::LogVerbosity;
use kv_service::configuration::Settings;

#[test]
fn unsupplied_fields_take_their_documented_defaults() {
    let s = ApplicationSettings::with_defaults(None, None, None, None);
    assert_eq!(s.host, String::from("127.0.0.1"));
    assert_eq!(s.port, 8080);
    assert_eq!(s.max_concurrent_requests, 10240);
    assert_eq!(s.request_timeout_s, 20);
}

#[test]
fn supplied_fields_override_the_defaults() {
    let s = ApplicationSettings::with_defaults(
        Some(String::from("0.0.0.0")),
        Some(9000),
        Some(16),
        Some(5),
    );
    assert_eq!(s.host, String::from("0.0.0.0"));
    assert_eq!(s.port, 9000);
    assert_eq!(s.max_concurrent_requests, 16);
    assert_eq!(s.request_timeout_s, 5);
}

#[test]
fn environment_names() {
    assert_eq!(Environment::Local.as_str(), "local");
    assert_eq!(Environment::Prod.as_str(), "prod");
}

#[test]
fn environment_parsing_is_case_insensitive() {
    assert_eq!(
        Environment::try_from(String::from("LOCAL")),
        Ok(Environment::Local)
    );
    assert_eq!(
        Environment::try_from(String::from("local")),
        Ok(Environment::Local)
    );
    assert_eq!(
        Environment::try_from(String::from("Prod")),
        Ok(Environment::Prod)
    );
}

#[test]
fn unknown_environment_is_rejected_with_a_message_naming_it() {
    let err = Environment::try_from(String::from("staging")).unwrap_err();
    assert_eq!(
        err,
        String::from("Unknown environment: staging. Use either `local` or `prod`.")
    );
}

#[test]
fn log_verbosity_follows_the_environment() {
    let local = Settings {
        environment: String::from("local"),
        application: ApplicationSettings::with_defaults(None, None, None, None),
    };
    let prod = Settings {
        environment: String::from("prod"),
        application: ApplicationSettings::with_defaults(None, None, None, None),
    };
    assert_eq!(local.log_verbosity(), LogVerbosity::Trace);
    assert_eq!(prod.log_verbosity(), LogVerbosity::Info);
}

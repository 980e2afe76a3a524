use matrixapi::get_server_config;
use matrixapi::Config;
use matrixapi::MatrixAPIError;
use matrixapi::ServerConfig;

fn profile(name: &str, url: &str, token_ref: &str) -> ServerConfig {
    ServerConfig {
        server_name: name.to_string(),
        server_url: url.to_string(),
        pass_access_token: token_ref.to_string(),
    }
}

fn sample_config() -> Config {
    let mut config = Config::new("home".to_string());
    config.insert_server("home".to_string(), profile("ex.org", "https://ex.org", "mx/home"));
    config.insert_server("work".to_string(), profile("work.org", "https://work.org", "mx/work"));
    config
}

#[test]
fn default_profile_is_resolved_without_a_name() {
    let config = sample_config();
    let p = get_server_config(&config, None).unwrap();
    assert_eq!(p.server_name, "ex.org");
    assert_eq!(p.server_url, "https://ex.org");
    assert_eq!(p.pass_access_token, "mx/home");
}

#[test]
fn named_profile_is_resolved() {
    let config = sample_config();
    let p = get_server_config(&config, Some("work")).unwrap();
    assert_eq!(p.server_name, "work.org");
    assert_eq!(p.server_url, "https://work.org");
    assert_eq!(p.pass_access_token, "mx/work");
}

#[test]
fn unknown_name_fails_with_that_name() {
    let config = sample_config();
    match get_server_config(&config, Some("elsewhere")) {
        Err(MatrixAPIError::ServerNotDefined(n)) => assert_eq!(n, "elsewhere"),
        other => panic!("unexpected result {:?}", other),
    }
}

#[test]
fn undefined_default_fails_with_default_name() {
    let mut config = Config::new("missing".to_string());
    config.insert_server("home".to_string(), profile("ex.org", "https://ex.org", "mx/home"));
    match get_server_config(&config, None) {
        Err(MatrixAPIError::ServerNotDefined(n)) => assert_eq!(n, "missing"),
        other => panic!("unexpected result {:?}", other),
    }
}

#[test]
fn empty_config_resolves_nothing() {
    let config = Config::new(String::new());
    match get_server_config(&config, None) {
        Err(MatrixAPIError::ServerNotDefined(n)) => assert_eq!(n, ""),
        other => panic!("unexpected result {:?}", other),
    }
}

#[test]
fn inserting_again_replaces_the_profile() {
    let mut config = sample_config();
    config.insert_server("home".to_string(), profile("new.org", "https://new.org", "mx/new"));
    let p = get_server_config(&config, Some("home")).unwrap();
    assert_eq!(p.server_url, "https://new.org");
    assert_eq!(p.pass_access_token, "mx/new");
    assert_eq!(config.default_server(), "home");
}

use matrixapi::get_server_config;
use matrixapi::request::make_get_request;
use matrixapi::request::server_version_request;
use matrixapi::request::user_list_request;
use matrixapi::Config;
use matrixapi::ServerConfig;

fn home_config() -> Config {
    let mut config = Config::new("home".to_string());
    config.insert_server(
        "home".to_string(),
        ServerConfig {
            server_name: "ex.org".to_string(),
            server_url: "https://ex.org".to_string(),
            pass_access_token: "mx/home".to_string(),
        },
    );
    config
}

#[test]
fn version_request_goes_to_default_profile() {
    let config = home_config();
    let p = get_server_config(&config, None).unwrap();
    assert_eq!(p.pass_access_token, "mx/home");
    let req = server_version_request(&p);
    assert_eq!(req.url, "https://ex.org/_synapse/admin/v1/server_version");
    assert!(req.authorization.is_none());
}

#[test]
fn user_list_request_carries_bearer_token() {
    let p = get_server_config(&home_config(), Some("home")).unwrap();
    let req = user_list_request(&p, "syt_secret");
    assert_eq!(req.url, "https://ex.org/_synapse/admin/v2/users?from=0&guests=true");
    assert_eq!(req.authorization.as_deref(), Some("Bearer syt_secret"));
}

#[test]
fn generic_request_joins_base_and_endpoint() {
    let p = get_server_config(&home_config(), None).unwrap();
    let req = make_get_request(&p, "a/b?c=d", Some(""));
    assert_eq!(req.url, "https://ex.org/a/b?c=d");
    assert_eq!(req.authorization.as_deref(), Some("Bearer "));
}

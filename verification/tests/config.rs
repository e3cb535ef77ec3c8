use vibesql_mail::config::{home_dir, AppConfig, EnvConfig, FileConfig};
use vibesql_mail::thread_id::{new_thread_id, nonempty_thread_id_or_new, thread_id_or_new};

fn no_env() -> EnvConfig {
    EnvConfig { port: None, micro_url: None, secret: None, dev: None }
}

#[test]
fn defaults_without_env_or_file() {
    let c = AppConfig::resolve(no_env(), None);
    assert_eq!(c.port, 5188);
    assert_eq!(c.micro_url, "http://localhost:5173");
    assert!(c.secret.is_none());
    assert!(!c.dev_mode);
    assert_eq!(c.bind_addr(), "127.0.0.1:5188");
}

#[test]
fn environment_wins_over_file() {
    let file = FileConfig {
        port: Some(7000),
        micro_url: Some("http://file".to_string()),
        secret_key: Some("file-secret".to_string()),
        dev_mode: Some(true),
    };
    let env = EnvConfig {
        port: Some("6000".to_string()),
        micro_url: Some("http://env".to_string()),
        secret: Some("env-secret".to_string()),
        dev: Some("false".to_string()),
    };
    let c = AppConfig::resolve(env, Some(file));
    assert_eq!((c.port, c.micro_url.as_str(), c.secret.as_deref(), c.dev_mode), (6000, "http://env", Some("env-secret"), false));
}

#[test]
fn file_fills_gaps_and_bad_env_port_falls_back() {
    let file = FileConfig { port: Some(70000), micro_url: None, secret_key: Some("s".to_string()), dev_mode: Some(true) };
    let env = EnvConfig { port: Some("not-a-port".to_string()), micro_url: None, secret: None, dev: None };
    let c = AppConfig::resolve(env, Some(file));
    assert_eq!(c.port, 70000i64 as u16);
    assert_eq!(c.micro_url, "http://localhost:5173");
    assert_eq!(c.secret.as_deref(), Some("s"));
    assert!(c.dev_mode);
    let env2 = EnvConfig { port: Some("65536".to_string()), micro_url: None, secret: None, dev: Some("1".to_string()) };
    let c2 = AppConfig::resolve(env2, None);
    assert_eq!(c2.port, 5188);
    assert!(c2.dev_mode);
    let env3 = EnvConfig { port: None, micro_url: None, secret: None, dev: Some("TRUE".to_string()) };
    assert!(!AppConfig::resolve(env3, Some(FileConfig { port: None, micro_url: None, secret_key: None, dev_mode: Some(true) })).dev_mode);
}

#[test]
fn home_directory_choice() {
    assert_eq!(home_dir(Some("/h".to_string()), Some("/u".to_string())), "/h");
    assert_eq!(home_dir(None, Some("/u".to_string())), "/u");
    assert_eq!(home_dir(None, None), ".");
}

#[test]
fn thread_ids_are_sixteen_hex_digits() {
    let a = new_thread_id();
    assert_eq!(a.len(), 16);
    assert!(a.chars().all(|c| c.is_ascii_digit() || ('a'..='f').contains(&c)));
    assert_eq!(thread_id_or_new(Some("mine".to_string())), "mine");
    assert_eq!(thread_id_or_new(Some(String::new())), "");
    assert_eq!(thread_id_or_new(None).len(), 16);
    assert_eq!(nonempty_thread_id_or_new(Some("mine")), "mine");
    assert_eq!(nonempty_thread_id_or_new(Some("")).len(), 16);
    assert_eq!(nonempty_thread_id_or_new(None).len(), 16);
}

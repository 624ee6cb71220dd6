use elasticsearch_index_cleaner::args::{env_or, value_or_env, Opt, DEFAULT_KEEP_DAYS};

fn s(x: &str) -> Option<String> {
    Some(x.to_string())
}

#[test]
fn explicit_value_wins_over_environment() {
    assert_eq!(value_or_env("ELASTICSEARCH_ADDR", s("http://a:9200"), s("http://b:9200")).unwrap(), "http://a:9200");
    assert_eq!(value_or_env("ELASTICSEARCH_ADDR", None, s("http://b:9200")).unwrap(), "http://b:9200");
    assert_eq!(value_or_env("ELASTICSEARCH_ADDR", s("http://a:9200"), None).unwrap(), "http://a:9200");
}

#[test]
fn environment_wins_in_env_or() {
    assert_eq!(env_or("ELASTICSEARCH_REPO", s("cli"), s("env")).unwrap(), "env");
    assert_eq!(env_or("ELASTICSEARCH_REPO", s("cli"), None).unwrap(), "cli");
    assert_eq!(env_or("ELASTICSEARCH_REPO", None, s("env")).unwrap(), "env");
}

#[test]
fn missing_setting_names_its_variable() {
    assert_eq!(value_or_env("ELASTICSEARCH_REPO", None, None).unwrap_err().key, "ELASTICSEARCH_REPO");
    assert_eq!(env_or("ELASTICSEARCH_INDEX_FILTER", None, None).unwrap_err().key, "ELASTICSEARCH_INDEX_FILTER");
}

#[test]
fn settings_hold_what_they_are_given() {
    let o = Opt {
        debug: false,
        verbose: 2,
        elasticsearch_addr: s("http://localhost:9200"),
        elasticsearch_repo: None,
        index_filter: s("kong-*"),
        keep_days: DEFAULT_KEEP_DAYS,
    };
    assert_eq!(o.keep_days, 15);
    assert_eq!(o.verbose, 2);
}

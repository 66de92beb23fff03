use jetstream_client::config::{bearer_token, build_filters, ClientConfig, ConfigError, Filter, FilterConfig};

fn base() -> ClientConfig {
    ClientConfig {
        jetstream_grpc_url: "http://localhost:1".to_string(),
        x_token: None,
        filter_config_path: None,
        include_accounts: None,
        exclude_accounts: None,
        required_accounts: None,
        parsed_enabled: false,
    }
}

fn strings(v: &[&str]) -> Vec<String> {
    v.iter().map(|s| s.to_string()).collect()
}

fn file_filters() -> FilterConfig {
    FilterConfig {
        filters: vec![
            (
                "pump".to_string(),
                Filter {
                    account_include: strings(&["A", "B"]),
                    account_exclude: Vec::new(),
                    account_required: strings(&["C"]),
                },
            ),
            (
                "other".to_string(),
                Filter { account_include: Vec::new(), account_exclude: strings(&["D"]), account_required: Vec::new() },
            ),
        ],
    }
}

#[test]
fn file_wins_over_direct_lists() {
    let mut c = base();
    c.filter_config_path = Some("filters.json".to_string());
    c.include_accounts = Some(strings(&["X"]));
    c.required_accounts = Some(strings(&["Y"]));
    assert_eq!(build_filters(&c, Some(file_filters())), Ok(file_filters().filters));
}

#[test]
fn unread_file_is_an_error() {
    let mut c = base();
    c.filter_config_path = Some("filters.json".to_string());
    c.include_accounts = Some(strings(&["X"]));
    assert_eq!(build_filters(&c, None), Err(ConfigError::FilterFileUnavailable));
}

#[test]
fn direct_lists_make_cli_filter() {
    let mut c = base();
    c.exclude_accounts = Some(strings(&["E1", "E2"]));
    let r = build_filters(&c, Some(file_filters())).unwrap();
    assert_eq!(
        r,
        vec![(
            "cli-filter".to_string(),
            Filter { account_include: Vec::new(), account_exclude: strings(&["E1", "E2"]), account_required: Vec::new() }
        )]
    );
}

#[test]
fn nothing_configured_gives_default_filter() {
    let r = build_filters(&base(), None).unwrap();
    assert_eq!(
        r,
        vec![(
            "default".to_string(),
            Filter { account_include: Vec::new(), account_exclude: Vec::new(), account_required: Vec::new() }
        )]
    );
}

#[test]
fn empty_direct_list_still_counts() {
    let mut c = base();
    c.include_accounts = Some(Vec::new());
    let r = build_filters(&c, None).unwrap();
    assert_eq!(r.len(), 1);
    assert_eq!(r[0].0, "cli-filter");
}

#[test]
fn token_sent_only_when_not_empty() {
    assert_eq!(bearer_token(&None), None);
    assert_eq!(bearer_token(&Some(String::new())), None);
    assert_eq!(bearer_token(&Some("abc".to_string())), Some("abc".to_string()));
}

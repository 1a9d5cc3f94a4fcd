use oscar::{
    changes_url, check_status, config_url, filter_labels, labels_url, parse_route, plan_for_scheme,
    plan_request, verify_action, verify_headers, Action, Change, Changes, Config, Event,
    HeaderError, HttpMethod, Label, Labeler, ObjectAttributes, Options, ProcessError, Project,
    Routed, Skip, Stage, Webhook,
};

fn create_config(label_data: Vec<(&str, Vec<&str>)>) -> Config {
    Config {
        labels: label_data
            .into_iter()
            .map(|(name, paths)| Label {
                name: name.to_string(),
                paths: paths.into_iter().map(|p| p.to_string()).collect(),
            })
            .collect(),
    }
}

fn create_changes(change_paths: Vec<&str>) -> Changes {
    Changes {
        changes: change_paths
            .into_iter()
            .map(|path| Change {
                new_path: path.to_string(),
            })
            .collect(),
    }
}

fn options(token: &str) -> Options {
    Options {
        gitlab_uri: "http://my-custom-url-for-this-test.com".to_string(),
        gitlab_token: token.to_string(),
        config_branch: "main".to_string(),
        host: "127.0.0.1".to_string(),
        port: 8111,
        log_level: "info".to_string(),
    }
}

fn webhook(event_type: &str, action: Option<&str>) -> Webhook {
    Webhook {
        event_type: event_type.to_string(),
        project: Project { id: 42 },
        object_attributes: ObjectAttributes {
            iid: 7,
            action: action.map(|a| a.to_string()),
        },
    }
}

/// Runs a whole labeling run, answering each fetch with the given values,
/// and returns the labels that were set, if any, and the outcome.
fn run(
    hook: Webhook,
    opts: &Options,
    changes: Result<Changes, ProcessError>,
    config: Result<Config, ProcessError>,
) -> (Vec<Action>, Option<Result<(), ProcessError>>) {
    let labeler = Labeler;
    let mut actions = Vec::new();
    let mut changes = Some(changes);
    let mut config = Some(config);
    let mut stage = Stage::Received;
    let mut event = Event::Delivered(Ok(hook));
    loop {
        assert!(stage.accepts(&event));
        let (next, action) = labeler.step(stage, event, opts);
        stage = next;
        event = match &action {
            Action::FetchChanges { .. } => Event::ChangesFetched(changes.take().unwrap()),
            Action::FetchConfig { .. } => Event::ConfigFetched(config.take().unwrap()),
            Action::ApplyLabels { .. } => Event::LabelsApplied(Ok(())),
            Action::Skip(_) => {
                actions.push(action);
                return (actions, Some(Ok(())));
            }
            Action::Finish(_) => {
                let outcome = match action {
                    Action::Finish(r) => r,
                    _ => unreachable!(),
                };
                return (actions, Some(outcome));
            }
        };
        actions.push(action);
    }
}

fn applied_labels(actions: &[Action]) -> Option<Vec<String>> {
    actions.iter().find_map(|a| match a {
        Action::ApplyLabels { labels, .. } => Some(labels.clone()),
        _ => None,
    })
}

#[test]
fn test_labels_filtering() {
    // Scenario 1: Single label matches
    let config = create_config(vec![
        ("label1", vec!["path/to/foo"]),
        ("label2", vec!["path/to/bar"]),
    ]);
    let changes = create_changes(vec!["path/to/foo/file1", "path/other"]);
    let filtered_labels = filter_labels(config, changes);
    assert_eq!(filtered_labels, vec!["label1".to_string()]);

    // Scenario 2: Multiple labels match
    let config = create_config(vec![
        ("label1", vec!["path/to/foo"]),
        ("label2", vec!["path/to/bar"]),
        ("label3", vec!["path/to"]),
    ]);
    let changes = create_changes(vec!["path/to/foo/file1", "path/to/bar/file2"]);
    let filtered_labels = filter_labels(config, changes);
    assert_eq!(filtered_labels, vec!["label1", "label2", "label3"]);

    // Scenario 3: No labels match
    let config = create_config(vec![
        ("label1", vec!["path/to/foo"]),
        ("label2", vec!["path/to/bar"]),
    ]);
    let changes = create_changes(vec!["path/none/match"]);
    let filtered_labels = filter_labels(config, changes);
    assert!(filtered_labels.is_empty());
}

#[test]
fn test_verify_headers_valid() {
    assert!(verify_headers(Some("Merge Request Hook")).is_ok());
}

#[test]
fn test_verify_headers_missing_header() {
    assert!(verify_headers(None).is_err());
}

#[test]
fn test_verify_headers_invalid_header() {
    assert!(verify_headers(Some("Some Other Event")).is_err());
}

#[test]
fn test_parse_route_labeler_path() {
    let response = parse_route("/labeler", HttpMethod::Post, Some("Merge Request Hook"));
    assert_eq!(response.status(), 200);
}

#[test]
fn test_parse_route_unknown_path() {
    let response = parse_route("/unknown", HttpMethod::Post, None);
    assert_eq!(response.status(), 404);
}

#[test]
fn test_parse_route_invalid_method() {
    let response = parse_route("/labeler", HttpMethod::Get, None);
    assert_eq!(response.status(), 405);
}

#[test]
fn test_parse_route_invalid_headers() {
    let response = parse_route("/labeler", HttpMethod::Post, None);
    assert_eq!(response.status(), 401);
}

#[test]
fn test_verify_action_valid() {
    let attr = ObjectAttributes {
        iid: 0,
        action: Some("open".to_string()),
    };

    assert!(verify_action(&attr));

    let attr = ObjectAttributes {
        iid: 0,
        action: Some("reopen".to_string()),
    };

    assert!(verify_action(&attr));
}

#[test]
fn test_verify_action_invalid() {
    let attr = ObjectAttributes {
        iid: 0,
        action: Some("close".to_string()),
    };

    assert!(!verify_action(&attr));
}

#[test]
fn verify_action_absent() {
    let attr = ObjectAttributes { iid: 0, action: None };
    assert!(!verify_action(&attr));
}

#[test]
fn prefix_matches_whole_segments_only() {
    let config = create_config(vec![("foo", vec!["path/to/foo"])]);
    let changes = create_changes(vec!["path/to/foobar/file"]);
    assert!(filter_labels(config, changes).is_empty());
}

#[test]
fn prefix_matches_exact_path_and_ignores_slashes() {
    let config = create_config(vec![
        ("exact", vec!["path/to/foo"]),
        ("trailing", vec!["path/to/foo/"]),
        ("doubled", vec!["path//to/./foo"]),
        ("longer", vec!["path/to/foo/file/more"]),
    ]);
    let changes = create_changes(vec!["path/to/foo"]);
    assert_eq!(
        filter_labels(config, changes),
        vec!["exact", "trailing", "doubled"]
    );
}

#[test]
fn empty_prefix_matches_everything() {
    let config = create_config(vec![("all", vec![""]), ("none", vec![])]);
    let changes = create_changes(vec!["any/file.rs"]);
    assert_eq!(filter_labels(config, changes), vec!["all"]);
}

#[test]
fn empty_inputs_give_no_labels() {
    let config = create_config(vec![("all", vec![""])]);
    assert!(filter_labels(config, create_changes(vec![])).is_empty());
    let config = create_config(vec![]);
    assert!(filter_labels(config, create_changes(vec!["a/b"])).is_empty());
}

#[test]
fn overlapping_rules_and_shared_names_all_count() {
    let config = create_config(vec![
        ("docs", vec!["docs"]),
        ("any", vec!["src", "docs/guide"]),
        ("docs", vec!["docs/guide/intro.md"]),
    ]);
    let changes = create_changes(vec!["docs/guide/intro.md"]);
    assert_eq!(filter_labels(config, changes), vec!["docs", "any", "docs"]);
}

#[test]
fn trailing_slash_routes_like_plain_path() {
    for (method, header) in [
        (HttpMethod::Post, Some("Merge Request Hook")),
        (HttpMethod::Get, Some("Merge Request Hook")),
        (HttpMethod::Post, None),
        (HttpMethod::Post, Some("Push Hook")),
    ] {
        assert_eq!(
            parse_route("/labeler/", method, header),
            parse_route("/labeler", method, header)
        );
    }
    assert_eq!(
        parse_route("/labeler/", HttpMethod::Post, Some("Merge Request Hook")),
        Routed::Dispatch
    );
    assert_eq!(
        parse_route("/labeler//", HttpMethod::Post, Some("Merge Request Hook")),
        Routed::UnknownRoute
    );
}

#[test]
fn header_errors_are_told_apart() {
    assert_eq!(verify_headers(None), Err(HeaderError::Missing));
    assert_eq!(
        verify_headers(Some("merge request hook")),
        Err(HeaderError::Invalid)
    );
}

#[test]
fn ignored_deliveries_make_no_calls() {
    let opts = options("token");
    for (hook, why) in [
        (webhook("merge_request", None), Skip::NotOpened),
        (webhook("merge_request", Some("close")), Skip::NotOpened),
        (webhook("note", Some("open")), Skip::OtherEvent),
    ] {
        let (actions, outcome) = run(hook, &opts, Ok(create_changes(vec![])), Ok(create_config(vec![])));
        assert!(matches!(outcome, Some(Ok(()))));
        assert_eq!(actions.len(), 1);
        assert!(matches!(actions[0], Action::Skip(w) if w == why));
    }
    let (actions, outcome) = run(
        webhook("merge_request", Some("reopen")),
        &options(""),
        Ok(create_changes(vec![])),
        Ok(create_config(vec![])),
    );
    assert!(matches!(outcome, Some(Ok(()))));
    assert!(matches!(actions[..], [Action::Skip(Skip::NoToken)]));
}

fn scenario(rules: Vec<(&str, Vec<&str>)>, paths: Vec<&str>) -> Vec<String> {
    let (actions, outcome) = run(
        webhook("merge_request", Some("open")),
        &options("token"),
        Ok(create_changes(paths)),
        Ok(create_config(rules)),
    );
    assert!(matches!(outcome, Some(Ok(()))));
    assert!(matches!(actions[0], Action::FetchChanges { project: 42, iid: 7 }));
    assert!(matches!(actions[1], Action::FetchConfig { project: 42 }));
    match &actions[2] {
        Action::ApplyLabels { project, iid, .. } => assert_eq!((*project, *iid), (42, 7)),
        _ => panic!("labels were not applied"),
    }
    applied_labels(&actions).unwrap()
}

#[test]
fn end_to_end_single_label() {
    let labels = scenario(
        vec![("label1", vec!["path/to/foo"]), ("label2", vec!["path/to/bar"])],
        vec!["path/to/foo/file1", "path/other"],
    );
    assert_eq!(labels, vec!["label1"]);
}

#[test]
fn end_to_end_three_labels() {
    let labels = scenario(
        vec![
            ("label1", vec!["path/to/foo"]),
            ("label2", vec!["path/to/bar"]),
            ("label3", vec!["path/to"]),
        ],
        vec!["path/to/foo/file1", "path/to/bar/file2"],
    );
    assert_eq!(labels, vec!["label1", "label2", "label3"]);
}

#[test]
fn end_to_end_no_match() {
    let labels = scenario(vec![("label1", vec!["path/to/foo"])], vec!["path/none/match"]);
    assert!(labels.is_empty());
}

#[test]
fn malformed_config_fails_without_put() {
    let err = ProcessError::Config {
        message: "expected `=`".to_string(),
        raw: "labels [".to_string(),
    };
    let (actions, outcome) = run(
        webhook("merge_request", Some("open")),
        &options("token"),
        Ok(create_changes(vec!["a/b"])),
        Err(err),
    );
    assert!(matches!(
        outcome,
        Some(Err(ProcessError::Config { ref raw, .. })) if raw == "labels ["
    ));
    assert!(applied_labels(&actions).is_none());
}

#[test]
fn failed_fetches_and_decoding_end_the_run() {
    let (actions, outcome) = run(
        webhook("merge_request", Some("open")),
        &options("token"),
        Err(ProcessError::Remote("down".to_string())),
        Ok(create_config(vec![])),
    );
    assert!(matches!(outcome, Some(Err(ProcessError::Remote(_)))));
    assert_eq!(actions.len(), 1);

    let labeler = Labeler;
    let (next, action) = labeler.step(
        Stage::Received,
        Event::Delivered(Err(ProcessError::Decode("bad json".to_string()))),
        &options("token"),
    );
    assert!(matches!(next, Stage::Finished));
    assert!(matches!(action, Action::Finish(Err(ProcessError::Decode(_)))));
    assert!(!next.accepts(&Event::LabelsApplied(Ok(()))));

    let (_, action) = labeler.step(
        Stage::AwaitingApply,
        Event::LabelsApplied(Err(ProcessError::Remote("refused".to_string()))),
        &options("token"),
    );
    assert!(matches!(action, Action::Finish(Err(ProcessError::Remote(_)))));
}

#[test]
fn urls_are_built_from_options() {
    let opts = options("token");
    assert_eq!(
        changes_url(&opts, 42, 7),
        "http://my-custom-url-for-this-test.com/projects/42/merge_requests/7/changes"
    );
    assert_eq!(
        config_url(&opts, 0),
        "http://my-custom-url-for-this-test.com/projects/0/repository/files/LABELS/raw?ref=main"
    );
    assert_eq!(
        labels_url(&opts, 18446744073709551615, 1090),
        "http://my-custom-url-for-this-test.com/projects/18446744073709551615/merge_requests/1090"
    );
}

#[test]
fn requests_need_http_scheme_and_get_or_put() {
    let plan = plan_request("https://host/api", HttpMethod::Put, Some("secret"), Some(b"{}")).unwrap();
    assert_eq!(plan.method, HttpMethod::Put);
    assert_eq!(
        plan.headers,
        vec![
            ("Content-Type".to_string(), "application/json".to_string()),
            ("PRIVATE-TOKEN".to_string(), "secret".to_string()),
        ]
    );
    assert_eq!(plan.body, b"{}".to_vec());

    let plan = plan_request("http://host/api", HttpMethod::Get, None, None).unwrap();
    assert_eq!(plan.headers.len(), 1);
    assert!(plan.body.is_empty());

    assert!(matches!(
        plan_request("ftp://host/file", HttpMethod::Get, None, None),
        Err(ProcessError::InvalidUrl(_))
    ));
    assert!(matches!(
        plan_request("/no/scheme", HttpMethod::Get, None, None),
        Err(ProcessError::InvalidUrl(_))
    ));
    assert!(matches!(
        plan_request("http://bad host", HttpMethod::Get, None, None),
        Err(ProcessError::InvalidUrl(_))
    ));
    assert!(matches!(
        plan_request("http://host/api", HttpMethod::Post, None, None),
        Err(ProcessError::UnsupportedMethod(_))
    ));
    assert!(matches!(
        plan_request("ftp://host/api", HttpMethod::Post, None, None),
        Err(ProcessError::InvalidUrl(_))
    ));
}

#[test]
fn scheme_decides_the_plan() {
    assert!(plan_for_scheme(Ok(Some("https".to_string())), "u", HttpMethod::Get, None, None).is_ok());
    assert!(matches!(
        plan_for_scheme(Ok(None), "u", HttpMethod::Get, None, None),
        Err(ProcessError::InvalidUrl(_))
    ));
    assert!(matches!(
        plan_for_scheme(Err("bad".to_string()), "u", HttpMethod::Get, None, None),
        Err(ProcessError::InvalidUrl(_))
    ));
}

#[test]
fn status_outside_success_is_remote_error() {
    assert!(check_status(200).is_ok());
    assert!(check_status(299).is_ok());
    assert!(matches!(check_status(404), Err(ProcessError::Remote(_))));
    assert!(matches!(check_status(199), Err(ProcessError::Remote(_))));
    assert!(matches!(check_status(300), Err(ProcessError::Remote(_))));
}

#[test]
fn leading_dot_and_root_are_components() {
    let config = create_config(vec![("dot", vec!["."]), ("root", vec!["/"]), ("abs", vec!["/src"])]);
    let changes = create_changes(vec![".x", "src/main.rs"]);
    assert!(filter_labels(config, changes).is_empty());

    let config = create_config(vec![
        ("dot", vec!["./src"]),
        ("root", vec!["/"]),
        ("abs", vec!["//src/"]),
        ("inner", vec!["src/./lib"]),
    ]);
    let changes = create_changes(vec!["./src/x", "/src/lib/y"]);
    assert_eq!(filter_labels(config, changes), vec!["dot", "root", "abs"]);

    let config = create_config(vec![("inner", vec!["src/./lib"])]);
    let changes = create_changes(vec!["src/lib/y"]);
    assert_eq!(filter_labels(config, changes), vec!["inner"]);
}

#[test]
fn error_messages_carry_context() {
    match plan_request("http://bad host", HttpMethod::Get, None, None) {
        Err(ProcessError::InvalidUrl(m)) => {
            assert!(m.starts_with("failed to parse url: "));
            assert!(m.ends_with("http://bad host"));
        }
        other => panic!("unexpected {other:?}"),
    }
    match check_status(503) {
        Err(ProcessError::Remote(m)) => assert_eq!(m, "the host answered with status 503"),
        other => panic!("unexpected {other:?}"),
    }
}

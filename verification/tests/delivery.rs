use report_commenter::delivery::{
    ConfigurationError, Delivery, GitlabConfig, Setting, Step, Submission,
};

fn some(text: &str) -> Option<String> {
    Some(text.to_string())
}

#[test]
fn configuration_needs_all_four_values() {
    let config =
        GitlabConfig::from_values(some("https://gitlab.example/api/v4"), some("7"), some("3"), some("a-token"))
            .unwrap();
    assert_eq!(config.base_url, "https://gitlab.example/api/v4");
    assert_eq!(config.project_id, "7");
    assert_eq!(config.merge_request_id, "3");
    assert_eq!(config.token, "a-token");
}

#[test]
fn first_missing_value_is_named() {
    assert_eq!(
        GitlabConfig::from_values(None, None, None, None),
        Err(ConfigurationError { missing: Setting::ApiUrl })
    );
    assert_eq!(
        GitlabConfig::from_values(some("u"), None, some("3"), None),
        Err(ConfigurationError { missing: Setting::ProjectId })
    );
    assert_eq!(
        GitlabConfig::from_values(some("u"), some("7"), None, None),
        Err(ConfigurationError { missing: Setting::MergeRequestId })
    );
    assert_eq!(
        GitlabConfig::from_values(some("u"), some("7"), some("3"), None),
        Err(ConfigurationError { missing: Setting::UserToken })
    );
}

#[test]
fn missing_value_is_named_by_its_variable() {
    assert_eq!(Setting::ApiUrl.variable_name(), "CI_API_V4_URL");
    assert_eq!(Setting::ProjectId.variable_name(), "CI_PROJECT_ID");
    assert_eq!(Setting::MergeRequestId.variable_name(), "CI_MERGE_REQUEST_IID");
    assert_eq!(Setting::UserToken.variable_name(), "GITLAB_USER_TOKEN");
    assert_eq!(
        ConfigurationError { missing: Setting::UserToken }.to_text(),
        "missing configuration value: GITLAB_USER_TOKEN"
    );
}

#[test]
fn endpoint_is_put_together_from_the_configuration() {
    let config =
        GitlabConfig::from_values(some("https://gitlab.example/api/v4"), some("7"), some("3"), some("t"))
            .unwrap();
    assert_eq!(
        config.endpoint("notes"),
        "https://gitlab.example/api/v4/projects/7/merge_requests/3/notes"
    );
    assert_eq!(
        config.endpoint("versions"),
        "https://gitlab.example/api/v4/projects/7/merge_requests/3/versions"
    );
}

#[test]
fn comments_are_sent_one_by_one_in_order() {
    let mut submission = Submission::start(3);
    let mut sent = Vec::new();
    loop {
        match submission.next_step() {
            Step::Send(i) => {
                sent.push(i);
                submission.record(Delivery::Delivered);
            }
            Step::Finished => break,
            Step::Aborted(i) => panic!("aborted at {}", i),
        }
    }
    assert_eq!(sent, vec![0, 1, 2]);
    assert_eq!(submission, Submission { total: 3, sent: 3, failed: false });
}

#[test]
fn nothing_is_sent_after_a_failure() {
    let mut submission = Submission::start(3);
    assert_eq!(submission.next_step(), Step::Send(0));
    submission.record(Delivery::Delivered);
    assert_eq!(submission.next_step(), Step::Send(1));
    submission.record(Delivery::Failed);
    assert_eq!(submission.next_step(), Step::Aborted(1));
    submission.record(Delivery::Delivered);
    assert_eq!(submission.next_step(), Step::Aborted(1));
    assert_eq!(submission, Submission { total: 3, sent: 1, failed: true });
}

#[test]
fn nothing_to_send_is_finished_at_once() {
    let mut submission = Submission::start(0);
    assert_eq!(submission.next_step(), Step::Finished);
    submission.record(Delivery::Failed);
    assert_eq!(submission.next_step(), Step::Finished);
    assert_eq!(submission, Submission { total: 0, sent: 0, failed: false });
}

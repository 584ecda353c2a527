use report_commenter::poster::{
    changed_paths, current_version, is_among, listed_newest_first, place, place_on_paths, resolve,
    DiffLineComment, MRChanges, MergeRequestVersion, PositionedComment, ResolutionError,
};
use report_commenter::timestamp::Timestamp;
use report_commenter::{render_to_diffs, Handlers};

fn change(path: &str, deleted: bool) -> MRChanges {
    MRChanges { new_path: path.to_string(), deleted_file: deleted }
}

fn version(id: u64, seconds: i64) -> MergeRequestVersion {
    MergeRequestVersion {
        id,
        head_commit_sha: format!("head{}", id),
        base_commit_sha: format!("base{}", id),
        start_commit_sha: format!("start{}", id),
        created_at: Timestamp { seconds, nanos: 0 },
        merge_request_id: 42,
    }
}

fn comment(path: &str, line: u32, body: &str) -> DiffLineComment {
    DiffLineComment { path: path.to_string(), line, body: body.to_string() }
}

fn comments_of_one_finding() -> Vec<DiffLineComment> {
    render_to_diffs(
        Handlers::Sast,
        r#"{"version":"1","vulnerabilities":[{"category":"c","message":"m","description":"d",
            "location":{"file":"a.py","start_line":10}}]}"#,
    ).unwrap()
}

#[test]
fn deleted_files_are_not_among_the_changed_paths() {
    let changes = vec![
        change("a.py", false),
        change("gone.py", true),
        change("b.py", false),
        change("also_gone.py", true),
    ];
    assert_eq!(changed_paths(&changes), vec!["a.py".to_string(), "b.py".to_string()]);
    assert_eq!(changed_paths(&vec![]), Vec::<String>::new());
    assert_eq!(changed_paths(&vec![change("x", true)]), Vec::<String>::new());
}

#[test]
fn membership_is_by_the_whole_path() {
    let paths = vec!["src/a.py".to_string(), "b.py".to_string()];
    assert!(is_among(&"b.py".to_string(), &paths));
    assert!(is_among(&"src/a.py".to_string(), &paths));
    assert!(!is_among(&"a.py".to_string(), &paths));
    assert!(!is_among(&"B.py".to_string(), &paths));
    assert!(!is_among(&"b.py".to_string(), &vec![]));
}

#[test]
fn current_version_is_the_first_listed() {
    assert_eq!(current_version(&vec![]), None);
    assert_eq!(current_version(&vec![version(1, 5)]).map(|v| v.id), Some(1));
    let newest_first = vec![version(3, 30), version(2, 20), version(1, 10)];
    assert_eq!(current_version(&newest_first).map(|v| v.id), Some(3));
    let oldest_first = vec![version(1, 10), version(2, 20), version(3, 30)];
    assert_eq!(current_version(&oldest_first).map(|v| v.id), Some(1));
    assert_eq!(current_version(&oldest_first), Some(&version(1, 10)));
}

#[test]
fn order_of_the_versions_can_be_tested() {
    assert!(listed_newest_first(&vec![]));
    assert!(listed_newest_first(&vec![version(1, 5)]));
    assert!(listed_newest_first(&vec![version(3, 30), version(2, 20), version(1, 10)]));
    assert!(listed_newest_first(&vec![version(3, 30), version(2, 30), version(1, 10)]));
    assert!(!listed_newest_first(&vec![version(1, 10), version(2, 20), version(3, 30)]));
    assert!(!listed_newest_first(&vec![version(3, 30), version(1, 10), version(2, 20)]));
    let mut by_nanos = vec![version(2, 7), version(1, 7)];
    by_nanos[0].created_at.nanos = 1;
    assert!(listed_newest_first(&by_nanos));
    by_nanos[1].created_at.nanos = 2;
    assert!(!listed_newest_first(&by_nanos));
}

#[test]
fn comment_is_placed_with_the_revisions_of_the_version() {
    let placed = place(&comment("a.py", 10, "body"), &version(7, 100));
    assert_eq!(
        placed,
        PositionedComment {
            position_type: "text".to_string(),
            base_sha: "base7".to_string(),
            head_sha: "head7".to_string(),
            start_sha: "start7".to_string(),
            new_path: "a.py".to_string(),
            old_path: "a.py".to_string(),
            new_line: 10,
            body: "body".to_string(),
        }
    );
}

#[test]
fn comment_on_a_changed_file_is_retained() {
    let comments = comments_of_one_finding();
    assert_eq!(comments.len(), 1);
    let positioned =
        resolve(&comments, &vec![change("a.py", false)], &vec![version(1, 10)]).unwrap();
    assert_eq!(positioned.len(), 1);
    assert_eq!(positioned[0].new_path, "a.py");
    assert_eq!(positioned[0].old_path, "a.py");
    assert_eq!(positioned[0].new_line, 10);
    assert_eq!(positioned[0].body, comments[0].body);
    assert_eq!(positioned[0].position_type, "text");
    assert_eq!(positioned[0].base_sha, "base1");
    assert_eq!(positioned[0].head_sha, "head1");
    assert_eq!(positioned[0].start_sha, "start1");
}

#[test]
fn comment_on_an_unchanged_file_is_dropped() {
    let comments = comments_of_one_finding();
    assert_eq!(comments.len(), 1);
    let positioned =
        resolve(&comments, &vec![change("b.py", false)], &vec![version(1, 10)]).unwrap();
    assert_eq!(positioned, vec![]);
}

#[test]
fn comment_on_a_deleted_file_is_dropped() {
    let comments = vec![comment("a.py", 1, "x"), comment("b.py", 2, "y")];
    let changes = vec![change("a.py", true), change("b.py", false)];
    let positioned = resolve(&comments, &changes, &vec![version(1, 10)]).unwrap();
    assert_eq!(positioned.len(), 1);
    assert_eq!(positioned[0].new_path, "b.py");
}

#[test]
fn no_version_means_no_resolution() {
    let comments = comments_of_one_finding();
    assert_eq!(
        resolve(&comments, &vec![change("a.py", false)], &vec![]),
        Err(ResolutionError::NoDiffVersion)
    );
    assert_eq!(resolve(&vec![], &vec![], &vec![]), Err(ResolutionError::NoDiffVersion));
    assert_eq!(
        ResolutionError::NoDiffVersion.to_text(),
        "the merge request has no diff version to comment on"
    );
}

#[test]
fn comments_are_placed_in_the_first_version_listed() {
    let comments = vec![comment("a.py", 1, "x"), comment("a.py", 2, "y")];
    let versions = vec![version(9, 90), version(5, 50), version(1, 10)];
    let positioned = resolve(&comments, &vec![change("a.py", false)], &versions).unwrap();
    assert_eq!(positioned.len(), 2);
    for placed in &positioned {
        assert_eq!(placed.head_sha, "head9");
        assert_eq!(placed.base_sha, "base9");
        assert_eq!(placed.start_sha, "start9");
    }
    let unordered = vec![version(1, 10), version(9, 90)];
    let positioned = resolve(&comments, &vec![change("a.py", false)], &unordered).unwrap();
    assert_eq!(positioned[0].base_sha, "base1");
    assert_eq!(positioned[0].head_sha, "head1");
    assert_eq!(positioned[0].start_sha, "start1");
}

#[test]
fn kept_comments_keep_their_order_and_number() {
    let comments = vec![
        comment("b.py", 5, "one"),
        comment("x.py", 1, "two"),
        comment("a.py", 9, "three"),
        comment("b.py", 5, "four"),
    ];
    let paths = vec!["a.py".to_string(), "b.py".to_string()];
    let positioned = place_on_paths(&comments, &paths, &version(1, 1));
    let bodies: Vec<&str> = positioned.iter().map(|c| c.body.as_str()).collect();
    assert_eq!(bodies, vec!["one", "three", "four"]);
    let lines: Vec<u32> = positioned.iter().map(|c| c.new_line).collect();
    assert_eq!(lines, vec![5, 9, 5]);
    assert_eq!(place_on_paths(&comments, &vec![], &version(1, 1)), vec![]);
}

#[test]
fn resolving_twice_gives_the_same_comments() {
    let comments = vec![comment("a.py", 1, "x"), comment("c.py", 3, "z"), comment("b.py", 2, "y")];
    let changes = vec![change("a.py", false), change("b.py", false), change("c.py", true)];
    let versions = vec![version(2, 20), version(1, 10)];
    let first = resolve(&comments, &changes, &versions);
    let second = resolve(&comments, &changes, &versions);
    assert_eq!(first, second);
    assert_eq!(first.unwrap().len(), 2);
}

#[test]
fn keeping_what_was_kept_changes_nothing() {
    let comments = vec![comment("a.py", 1, "x"), comment("c.py", 3, "z"), comment("b.py", 2, "y")];
    let paths = vec!["a.py".to_string(), "b.py".to_string()];
    let once = place_on_paths(&comments, &paths, &version(1, 1));
    let kept: Vec<DiffLineComment> =
        once.iter().map(|c| comment(&c.new_path, c.new_line, &c.body)).collect();
    assert_eq!(place_on_paths(&kept, &paths, &version(1, 1)), once);
}

#[test]
fn path_both_kept_and_deleted_counts_as_changed() {
    let comments = vec![comment("a.py", 1, "x")];
    let changes = vec![change("a.py", true), change("a.py", false)];
    let positioned = resolve(&comments, &changes, &vec![version(1, 1)]).unwrap();
    assert_eq!(positioned.len(), 1);
}

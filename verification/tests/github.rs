use prololo::github_events::Comment;
use prololo::github_events::Commit;
use prololo::github_events::CommitCommentEvent;
use prololo::github_events::CreateEvent;
use prololo::github_events::ForkEvent;
use prololo::github_events::GitHubUser;
use prololo::github_events::IssueChanges;
use prololo::github_events::IssueChangesFrom;
use prololo::github_events::Issue;
use prololo::github_events::IssueCommentEvent;
use prololo::github_events::IssuesEvent;
use prololo::github_events::MembershipEvent;
use prololo::github_events::OrganizationEvent;
use prololo::github_events::OrganizationMembership;
use prololo::github_events::PingEvent;
use prololo::github_events::PushEvent;
use prololo::github_events::PrRef;
use prololo::github_events::PullRequest;
use prololo::github_events::PullRequestEvent;
use prololo::github_events::PullRequestReviewCommentEvent;
use prololo::github_events::PullRequestReviewEvent;
use prololo::github_events::RefType;
use prololo::github_events::Repository;
use prololo::github_events::RepositoryChanges;
use prololo::github_events::RepositoryChangesName;
use prololo::github_events::RepositoryChangesNameFrom;
use prololo::github_events::RepositoryEvent;
use prololo::github_events::Review;
use prololo::github_events::Team;
use prololo::github_handlers::handle_commit_comment;
use prololo::github_handlers::handle_create;
use prololo::github_handlers::handle_fork;
use prololo::github_handlers::handle_issue_comment;
use prololo::github_handlers::handle_issues;
use prololo::github_handlers::handle_membership;
use prololo::github_handlers::handle_organization;
use prololo::github_handlers::handle_ping;
use prololo::github_handlers::handle_pull_request;
use prololo::github_handlers::handle_pull_request_review;
use prololo::github_handlers::handle_pull_request_review_comment;
use prololo::github_handlers::handle_push;
use prololo::github_handlers::handle_repository;

fn parsed(url: &str) -> String {
    url::Url::parse(url).unwrap().to_string()
}

fn long_body() -> String {
    "This content is very long, longer than our character limit, so it will definitely be truncated"
        .to_string()
}

fn test_user() -> GitHubUser {
    GitHubUser {
        login: "test-user".to_string(),
        id: 42,
        html_url: parsed("https://github.com/test-user"),
    }
}

fn test_repo() -> Repository {
    Repository {
        name: "test-repo".to_string(),
        full_name: "test-user/test-repo".to_string(),
        html_url: parsed("https://github.com/test-user/test-repo"),
    }
}

fn test_issue() -> Issue {
    Issue {
        number: 42,
        html_url: parsed("https://github.com/test-user/test-repo/issues/42"),
        title: "Test Issue Title".to_string(),
        milestone: None,
        pull_request: None,
    }
}

fn test_pull_request() -> PullRequest {
    PullRequest {
        number: 42,
        html_url: parsed("https://github.com/test-user/test-repo/pull/42"),
        title: "Test PR Title".to_string(),
        user: test_user(),
        requested_reviewers: vec![],
        base: PrRef { ref_name: "main".to_string() },
        head: PrRef { ref_name: "test".to_string() },
        merged: None,
    }
}

#[test]
fn test_handle_commit_comment() {
    let event = CommitCommentEvent {
        sender: test_user(),
        repository: test_repo(),
        comment: Comment {
            html_url: parsed("https://github.com/test-user/test-repo/issues/42#issue-42424242"),
            body: long_body(),
            commit_id: Some("4242424242424242424242424242424242424242".to_string()),
            pull_request_review_id: None,
            path: None,
            position: None,
        },
    };

    let response = handle_commit_comment(event).expect("should have a response");
    let message = response.message;

    assert!(message.url.is_some());
    assert_eq!(message.plain, "[💬 test-repo] test-user commented on 4242424: This content is very long, longer than our character limit, so it will d…");
    assert_eq!(
        message.html,
        r#"<b>[💬 test-repo]</b> test-user <a href="https://github.com/test-user/test-repo/issues/42#issue-42424242">commented</a> on <a href="https://github.com/test-user/test-repo/issues/42">4242424</a>: This content is very long, longer than our character limit, so it will d…"#,
    );
}

#[test]
fn test_handle_create() {
    let event = CreateEvent {
        ref_type: RefType::Tag,
        repository: test_repo(),
        sender: test_user(),
        ref_name: "test-tag".to_string(),
    };

    let response = handle_create(event).expect("should have a response");
    let message = response.message;

    assert!(message.url.is_some());
    assert_eq!(message.plain, "[test-repo] test-user created tag test-tag");
    assert_eq!(
        message.html,
        r#"<b>[test-repo]</b> test-user created tag <a href="https://github.com/test-user/test-repo/tree/test-tag">test-tag</a>"#,
    );
}

#[test]
fn test_handle_fork() {
    let event = ForkEvent {
        forkee: Repository {
            name: "test-repo".to_string(),
            full_name: "test-user2/test-repo".to_string(),
            html_url: parsed("https://github.com/test-user2/test-repo"),
        },
        repository: test_repo(),
        sender: GitHubUser {
            login: "test-user2".to_string(),
            id: 420,
            html_url: parsed("https://github.com/test-user"),
        },
    };

    let response = handle_fork(event).expect("should have a response");
    let message = response.message;

    assert!(message.url.is_some());
    assert_eq!(message.plain, "[📦 test-repo] test-user2 forked into test-user2/test-repo");
    assert_eq!(
        message.html,
        r#"<b>[📦 test-repo]</b> <a href="https://github.com/test-user">test-user2</a> forked into <a href="https://github.com/test-user2/test-repo">test-user2/test-repo</a>"#,
    );
}

#[test]
fn test_handle_issue_comment() {
    let event = IssueCommentEvent {
        sender: test_user(),
        repository: test_repo(),
        issue: test_issue(),
        action: "created".to_string(),
        comment: Comment {
            html_url: parsed("https://github.com/test-user/test-repo/issues/42#issue-42424242"),
            body: long_body(),
            commit_id: None,
            pull_request_review_id: None,
            path: None,
            position: None,
        },
    };

    let response = handle_issue_comment(event).expect("should have a response");
    let message = response.message;

    assert!(message.url.is_some());
    assert_eq!(
        message.plain,
        "[🔧 test-repo] test-user commented on issue #42 (Test Issue Title): This content is very long, longer than our character limit, so it will d…",
    );
    assert_eq!(
        message.html,
        r#"<b>[🔧 test-repo]</b> test-user <a href="https://github.com/test-user/test-repo/issues/42#issue-42424242">commented</a> on issue <a href="https://github.com/test-user/test-repo/issues/42">#42 (Test Issue Title)</a>: This content is very long, longer than our character limit, so it will d…"#,
    );
}

#[test]
fn test_handle_issues() {
    let event = IssuesEvent {
        repository: test_repo(),
        sender: test_user(),
        issue: test_issue(),
        changes: None,
        assignee: None,
        action: "opened".to_string(),
    };

    let response = handle_issues(event).expect("should have a response");
    let message = response.message;

    assert!(message.url.is_some());
    assert_eq!(message.plain, "[🔧 test-repo] test-user opened issue #42 (Test Issue Title)");
    assert_eq!(
        message.html,
        r#"<b>[🔧 test-repo]</b> test-user opened issue <a href="https://github.com/test-user/test-repo/issues/42">#42 (Test Issue Title)</a>"#,
    );
}

#[test]
fn test_handle_membership() {
    let event = MembershipEvent {
        action: "added".to_string(),
        member: test_user(),
        team: Team {
            name: "test-team".to_string(),
            id: 42,
            description: String::new(),
            privacy: "closed".to_string(),
            permission: "pull".to_string(),
            html_url: parsed("https://github.com/orgs/test-org/teams/test-team"),
        },
        sender: GitHubUser {
            login: "test-admin".to_string(),
            id: 4242,
            html_url: parsed("https://github.com/test-user"),
        },
    };

    let response = handle_membership(event).expect("should have a response");
    let message = response.message;

    assert!(message.url.is_none());
    assert_eq!(message.plain, "[🧑 test-team] test-admin added test-user to the team");
    assert_eq!(
        message.html,
        r#"<b>[🧑 test-team]</b> test-admin added <a href="https://github.com/test-user">test-user</a> to the team"#,
    );
}

#[test]
fn test_handle_organization() {
    let event = OrganizationEvent {
        action: "member_added".to_string(),
        sender: GitHubUser {
            login: "test-admin".to_string(),
            id: 4242,
            html_url: parsed("https://github.com/test-user"),
        },
        invitation: None,
        user: None,
        membership: Some(OrganizationMembership {
            role: "member".to_string(),
            user: test_user(),
        }),
    };

    let response = handle_organization(event).expect("should have a response");
    let message = response.message;

    assert!(message.url.is_none());
    assert_eq!(message.plain, "test-admin added test-user to organization as member");
    assert_eq!(
        message.html,
        r#"test-admin added <a href="https://github.com/test-user">test-user</a> to organization as member"#,
    );
}

#[test]
fn test_handle_ping() {
    let event = PingEvent {
        zen: "Follow the rules, you must!".to_string(),
        repository: Some(test_repo()),
        sender: test_user(),
    };

    let response = handle_ping(event).expect("should have a response");
    let message = response.message;

    assert!(message.url.is_none());
    assert_eq!(
        message.plain,
        "[🏓 test-repo] test-user completed webhook setup! Follow the rules, you must!",
    );
    assert_eq!(
        message.html,
        r#"<b>[🏓 test-repo]</b> test-user completed webhook setup! Follow the rules, you must!"#,
    );
}

#[test]
fn test_handle_pull_request() {
    let event = PullRequestEvent {
        sender: test_user(),
        repository: test_repo(),
        pull_request: test_pull_request(),
        action: "opened".to_string(),
        assignee: None,
    };

    let response = handle_pull_request(event).expect("should have a response");
    let message = response.message;

    assert!(message.url.is_some());
    assert_eq!(
        message.plain,
        "[📤 test-repo] test-user opened PR #42: Test PR Title by test-user (main...test)",
    );
    assert_eq!(
        message.html,
        r#"<b>[📤 test-repo]</b> test-user opened <a href="https://github.com/test-user/test-repo/pull/42">PR #42: Test PR Title by test-user</a> (main...test)"#,
    );
}

#[test]
fn test_handle_pull_request_review() {
    let event = PullRequestReviewEvent {
        sender: test_user(),
        repository: test_repo(),
        pull_request: test_pull_request(),
        action: "dismissed".to_string(),
        review: Review {
            state: "approved".to_string(),
            user: test_user(),
            html_url: parsed("https://github.com/test-user/test-repo/whatever"),
        },
    };

    let response = handle_pull_request_review(event).expect("should have a response");
    let message = response.message;

    assert!(message.url.is_some());
    assert_eq!(
        message.plain,
        "[📤 test-repo] test-user dismissed their review for PR #42: Test PR Title by test-user (they approved the PR)"
    );
    assert_eq!(
        message.html,
        r#"<b>[📤 test-repo]</b> test-user dismissed <a href="https://github.com/test-user/test-repo/whatever">their review</a> for <a href="https://github.com/test-user/test-repo/pull/42">PR #42: Test PR Title by test-user</a> (they approved the PR)"#,
    );
}

#[test]
fn test_handle_pull_request_review_comment() {
    let event = PullRequestReviewCommentEvent {
        sender: test_user(),
        repository: test_repo(),
        pull_request: test_pull_request(),
        action: "created".to_string(),
        comment: Comment {
            html_url: parsed("https://github.com/test-user/test-repo/whatever"),
            body: long_body(),
            commit_id: None,
            pull_request_review_id: None,
            path: None,
            position: None,
        },
    };

    let response = handle_pull_request_review_comment(event).expect("should have a response");
    let message = response.message;

    assert!(message.url.is_some());
    assert_eq!(
        message.plain,
        "[💬 test-repo] test-user commented on PR #42: Test PR Title by test-user"
    );
    assert_eq!(
        message.html,
        r#"<b>[💬 test-repo]</b> test-user <a href="https://github.com/test-user/test-repo/whatever">commented</a> on <a href="https://github.com/test-user/test-repo/pull/42">PR #42: Test PR Title by test-user</a>"#,
    );
}

#[test]
fn test_handle_push() {
    let event = PushEvent {
        repository: test_repo(),
        sender: test_user(),
        commits: vec![
            Commit {
                id: "deadbeef".to_string(),
                url: parsed("https://github.com/test-user/test-repo/commit/deadbeef"),
                distinct: true,
                message: long_body(),
            },
            Commit {
                id: "beefdead".to_string(),
                url: parsed("https://github.com/test-user/test-repo/commit/beefdead"),
                distinct: true,
                message: "Another message".to_string(),
            },
        ],
        head_commit: Some(Commit {
            id: "deadbeef".to_string(),
            url: parsed("https://github.com/test-user/test-repo/commit/deadbeef"),
            distinct: true,
            message: long_body(),
        }),
        forced: true,
        created: true,
        compare: parsed("https://github.com/test-user/test-repo/compare/deadbeef...beefdead"),
        ref_name: "refs/heads/new-test-branch".to_string(),
    };

    let response = handle_push(event).expect("should have a response");
    let message = response.message;

    assert!(message.url.is_some());
    assert_eq!(
        message.plain,
        "[test-repo] test-user force-pushed 2 commits including deadbee on new ⊶new-test-branch: This content is very long, longer than our character limit, so it will d…",
    );
    assert_eq!(
        message.html,
        r#"<b>[test-repo]</b> test-user force-pushed <a href="https://github.com/test-user/test-repo/compare/deadbeef...beefdead">2 commits including deadbee</a> on new <a href="https://github.com/test-user/test-repo/tree/new-test-branch">⊶new-test-branch</a>: This content is very long, longer than our character limit, so it will d…"#,
    );
}

#[test]
fn test_handle_repository() {
    let event = RepositoryEvent {
        action: "created".to_string(),
        repository: test_repo(),
        sender: test_user(),
        changes: None,
    };

    let response = handle_repository(event).expect("should have a response");
    let message = response.message;

    assert!(message.url.is_none());
    assert_eq!(message.plain, "[📦 test-repo] test-user created repository");
    assert_eq!(message.html, r#"<b>[📦 test-repo]</b> test-user created repository"#);
}

#[test]
fn tag_creation_scenario() {
    let event = CreateEvent {
        ref_type: RefType::Tag,
        repository: Repository {
            name: "widgets".to_string(),
            full_name: "acme/widgets".to_string(),
            html_url: parsed("https://github.com/acme/widgets"),
        },
        sender: GitHubUser {
            login: "alice".to_string(),
            id: 1,
            html_url: parsed("https://github.com/alice"),
        },
        ref_name: "v1.0".to_string(),
    };

    let response = handle_create(event).expect("should have a response");
    let content = response.message.build();

    assert_eq!(
        content.plain,
        "[widgets] alice created tag v1.0 ⋅ https://github.com/acme/widgets/tree/v1.0"
    );
    assert_eq!(
        content.html,
        r#"<b>[widgets]</b> alice created tag <a href="https://github.com/acme/widgets/tree/v1.0">v1.0</a>"#
    );
}

#[test]
fn label_only_change_is_suppressed() {
    let event = IssuesEvent {
        repository: test_repo(),
        sender: test_user(),
        issue: test_issue(),
        changes: None,
        assignee: None,
        action: "labeled".to_string(),
    };
    assert!(handle_issues(event).is_none());
}

#[test]
fn self_assignment_uses_self_phrasing() {
    let event = IssuesEvent {
        repository: test_repo(),
        sender: test_user(),
        issue: test_issue(),
        changes: None,
        assignee: Some(test_user()),
        action: "assigned".to_string(),
    };
    let response = handle_issues(event).expect("should have a response");
    assert_eq!(
        response.message.plain,
        "[🔧 test-repo] test-user self-assigned to #42 (Test Issue Title)"
    );
}

#[test]
fn uppercase_review_state_is_folded() {
    let event = PullRequestReviewEvent {
        sender: test_user(),
        repository: test_repo(),
        pull_request: test_pull_request(),
        action: "submitted".to_string(),
        review: Review {
            state: "APPROVED".to_string(),
            user: test_user(),
            html_url: parsed("https://github.com/test-user/test-repo/whatever"),
        },
    };
    let response = handle_pull_request_review(event).expect("should have a response");
    assert_eq!(
        response.message.plain,
        "[📤 test-repo] test-user approved PR #42: Test PR Title by test-user"
    );
}

#[test]
fn branch_creation_is_suppressed() {
    let event = CreateEvent {
        ref_type: RefType::Branch,
        repository: test_repo(),
        sender: test_user(),
        ref_name: "some-branch".to_string(),
    };
    assert!(handle_create(event).is_none());
}

#[test]
fn empty_push_is_suppressed() {
    let event = PushEvent {
        repository: test_repo(),
        sender: test_user(),
        commits: vec![],
        head_commit: None,
        forced: false,
        created: false,
        compare: parsed("https://github.com/test-user/test-repo/compare/a...b"),
        ref_name: "refs/heads/main".to_string(),
    };
    assert!(handle_push(event).is_none());
}

#[test]
fn single_commit_push_links_the_commit() {
    let event = PushEvent {
        repository: test_repo(),
        sender: test_user(),
        commits: vec![Commit {
            id: "deadbeef".to_string(),
            url: parsed("https://github.com/test-user/test-repo/commit/deadbeef"),
            distinct: true,
            message: "Short title".to_string(),
        }],
        head_commit: Some(Commit {
            id: "deadbeef".to_string(),
            url: parsed("https://github.com/test-user/test-repo/commit/deadbeef"),
            distinct: true,
            message: "Short title".to_string(),
        }),
        forced: false,
        created: false,
        compare: parsed("https://github.com/test-user/test-repo/compare/a...b"),
        ref_name: "refs/heads/main".to_string(),
    };
    let response = handle_push(event).expect("should have a response");
    assert_eq!(
        response.message.plain,
        "[test-repo] test-user pushed deadbee on ⊶main: Short title"
    );
    assert_eq!(
        response.message.url.as_deref(),
        Some("https://github.com/test-user/test-repo/commit/deadbeef")
    );
}

#[test]
fn secret_team_membership_is_suppressed() {
    let event = MembershipEvent {
        action: "added".to_string(),
        member: test_user(),
        team: Team {
            name: "hush".to_string(),
            id: 7,
            description: String::new(),
            privacy: "secret".to_string(),
            permission: "pull".to_string(),
            html_url: parsed("https://github.com/orgs/test-org/teams/hush"),
        },
        sender: test_user(),
    };
    assert!(handle_membership(event).is_none());
}

#[test]
fn removed_member_phrasing_names_the_old_role() {
    let event = OrganizationEvent {
        action: "member_removed".to_string(),
        sender: GitHubUser {
            login: "test-admin".to_string(),
            id: 4242,
            html_url: parsed("https://github.com/test-admin"),
        },
        invitation: None,
        user: None,
        membership: Some(OrganizationMembership {
            role: "member".to_string(),
            user: test_user(),
        }),
    };
    let response = handle_organization(event).expect("should have a response");
    assert_eq!(
        response.message.plain,
        "test-admin removed test-user from organization (was member)"
    );
}

#[test]
fn renamed_repository_keeps_the_old_tag() {
    let event = RepositoryEvent {
        action: "renamed".to_string(),
        repository: test_repo(),
        sender: test_user(),
        changes: Some(RepositoryChanges {
            repository: RepositoryChangesName {
                name: RepositoryChangesNameFrom { from: "old-name".to_string() },
            },
        }),
    };
    let response = handle_repository(event).expect("should have a response");
    assert_eq!(
        response.message.plain,
        "[📦 old-name] test-user renamed repository to test-repo"
    );
}

#[test]
fn edited_issue_title_only() {
    let event = IssuesEvent {
        repository: test_repo(),
        sender: test_user(),
        issue: test_issue(),
        changes: Some(IssueChanges {
            title: Some(IssueChangesFrom { from: "Old Title".to_string() }),
            body: None,
        }),
        assignee: None,
        action: "edited".to_string(),
    };
    let response = handle_issues(event).expect("should have a response");
    assert_eq!(
        response.message.plain,
        "[🔧 test-repo] test-user edited title of issue #42 (Test Issue Title)"
    );
}

#[test]
fn edited_issue_comment_is_suppressed() {
    let event = IssueCommentEvent {
        sender: test_user(),
        repository: test_repo(),
        issue: test_issue(),
        action: "edited".to_string(),
        comment: Comment {
            html_url: parsed("https://github.com/test-user/test-repo/issues/42#c1"),
            body: "b".to_string(),
            commit_id: None,
            pull_request_review_id: None,
            path: None,
            position: None,
        },
    };
    assert!(handle_issue_comment(event).is_none());
}

#[test]
fn merged_pull_request_says_merged() {
    let mut pr = test_pull_request();
    pr.merged = Some(true);
    let event = PullRequestEvent {
        sender: test_user(),
        repository: test_repo(),
        pull_request: pr,
        action: "closed".to_string(),
        assignee: None,
    };
    let response = handle_pull_request(event).expect("should have a response");
    assert_eq!(
        response.message.plain,
        "[📤 test-repo] test-user merged PR #42: Test PR Title by test-user"
    );
}

#[test]
fn review_comment_inside_a_pending_review_is_suppressed() {
    let event = PullRequestReviewCommentEvent {
        sender: test_user(),
        repository: test_repo(),
        pull_request: test_pull_request(),
        action: "created".to_string(),
        comment: Comment {
            html_url: parsed("https://github.com/test-user/test-repo/whatever"),
            body: "b".to_string(),
            commit_id: None,
            pull_request_review_id: Some(99),
            path: None,
            position: None,
        },
    };
    assert!(handle_pull_request_review_comment(event).is_none());
}

#[test]
fn review_comment_on_a_file_names_its_location() {
    let event = PullRequestReviewCommentEvent {
        sender: test_user(),
        repository: test_repo(),
        pull_request: test_pull_request(),
        action: "created".to_string(),
        comment: Comment {
            html_url: parsed("https://github.com/test-user/test-repo/whatever"),
            body: "b".to_string(),
            commit_id: None,
            pull_request_review_id: None,
            path: Some("src/lib.rs".to_string()),
            position: Some(3),
        },
    };
    let response = handle_pull_request_review_comment(event).expect("should have a response");
    assert_eq!(
        response.message.plain,
        "[💬 test-repo] test-user commented on PR #42: Test PR Title by test-user on file src/lib.rs @ 3"
    );
}

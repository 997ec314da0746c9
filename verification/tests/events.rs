use prololo::github_events::Comment;
use prololo::github_events::Commit;
use prololo::github_events::GitHubEventType;
use prololo::github_events::Issue;
use prololo::github_events::Repository;
use prololo::strings::u64_to_dec;
use prololo::utils::shorten_content;
use prololo::utils::shorten_content_length;

#[test]
fn truncation_edges() {
    let short = "x".repeat(72);
    assert_eq!(shorten_content(short.as_str()), short);

    let exact = "y".repeat(73);
    let expected: String = "y".repeat(72) + "…";
    assert_eq!(shorten_content(exact.as_str()), expected);

    assert_eq!(shorten_content(""), "");
    assert_eq!(shorten_content_length("abcdef", 3), "abc…");
}

#[test]
fn truncation_is_idempotent_on_examples() {
    let long = "z".repeat(200);
    let once = shorten_content(long.as_str());
    let twice = shorten_content(once.as_str());
    assert_eq!(once, twice);
}

#[test]
fn decimal_rendering() {
    assert_eq!(u64_to_dec(0), "0");
    assert_eq!(u64_to_dec(7), "7");
    assert_eq!(u64_to_dec(42), "42");
    assert_eq!(u64_to_dec(1000), "1000");
    assert_eq!(u64_to_dec(u64::MAX), "18446744073709551615");
}

#[test]
fn event_type_from_header_values() {
    assert_eq!(GitHubEventType::from_header("create"), GitHubEventType::Create);
    assert_eq!(GitHubEventType::from_header("issue_comment"), GitHubEventType::IssueComment);
    assert_eq!(
        GitHubEventType::from_header("pull_request_review_comment"),
        GitHubEventType::PullRequestReviewComment
    );
    assert_eq!(GitHubEventType::from_header("push"), GitHubEventType::Push);
    assert_eq!(GitHubEventType::from_header("star"), GitHubEventType::Unknown);
    assert_eq!(GitHubEventType::from_header(""), GitHubEventType::Unknown);
}

#[test]
fn commit_title_is_the_first_line() {
    let commit = Commit {
        id: "0123456789".to_string(),
        url: "https://example.org/c".to_string(),
        distinct: true,
        message: "Fix the frobnicator\r\n\r\nLonger explanation.".to_string(),
    };
    assert_eq!(commit.title(), "Fix the frobnicator");
}

#[test]
fn comment_location_names_file_and_position() {
    let comment = Comment {
        html_url: "https://example.org/c".to_string(),
        body: "b".to_string(),
        commit_id: None,
        pull_request_review_id: None,
        path: Some("src/lib.rs".to_string()),
        position: Some(12),
    };
    assert_eq!(comment.location().as_deref(), Some("on file src/lib.rs @ 12"));
}

#[test]
fn issue_summary_truncates_long_titles() {
    let issue = Issue {
        number: 7,
        html_url: "https://example.org/i".to_string(),
        title: "t".repeat(80),
        milestone: None,
        pull_request: None,
    };
    let expected = format!("#7 ({}…)", "t".repeat(72));
    assert_eq!(issue.summary(), expected);
}

#[test]
fn ref_url_percent_encodes_what_needs_it() {
    let repo = Repository {
        name: "widgets".to_string(),
        full_name: "acme/widgets".to_string(),
        html_url: "https://github.com/acme/widgets".to_string(),
    };
    assert_eq!(repo.ref_url("v1.0"), "https://github.com/acme/widgets/tree/v1.0");
    assert_eq!(repo.ref_url("a b"), "https://github.com/acme/widgets/tree/a%20b");
}

use prololo::config::Destination;
use prololo::config::ProloloConfig;
use prololo::config::RoomConfig;
use prololo::github_events::GitHubEvent;
use prololo::github_events::GitHubUser;
use prololo::github_events::Issue;
use prololo::github_events::IssuesEvent;
use prololo::github_events::Repository;
use prololo::pipeline::process_event;
use prololo::pipeline::Event;

fn config() -> ProloloConfig {
    ProloloConfig {
        matrix_homeserver: "https://matrix.example.org/".to_string(),
        matrix_username: "bot".to_string(),
        matrix_password: "hunter2".to_string(),
        matrix_state_dir: "/tmp/state".to_string(),
        matrix_rooms: vec![
            RoomConfig { name: "main".to_string(), id: "!main:x".to_string(), default: true },
            RoomConfig { name: "dev".to_string(), id: "!dev:x".to_string(), default: false },
        ],
        destinations: vec![Destination {
            room: "dev".to_string(),
            pattern: "^acme/".to_string(),
        }],
        generic_endpoints: vec![],
        github_secret: "gh".to_string(),
        prolosite_secret: "ps".to_string(),
    }
}

fn issues_event(action: &str) -> Event {
    Event::GitHub(GitHubEvent::Issues(IssuesEvent {
        repository: Repository {
            name: "widgets".to_string(),
            full_name: "acme/widgets".to_string(),
            html_url: "https://github.com/acme/widgets".to_string(),
        },
        sender: GitHubUser {
            login: "alice".to_string(),
            id: 1,
            html_url: "https://github.com/alice".to_string(),
        },
        issue: Issue {
            number: 3,
            html_url: "https://github.com/acme/widgets/issues/3".to_string(),
            title: "Broken".to_string(),
            milestone: None,
            pull_request: None,
        },
        changes: None,
        assignee: None,
        action: action.to_string(),
    }))
}

#[test]
fn suppressed_event_sends_nothing() {
    // A label-only change produces no message and nothing to deliver.
    let result = process_event(issues_event("labeled"), &config());
    assert!(matches!(result, Ok(None)));
}

#[test]
fn announced_event_is_routed_by_its_repository() {
    let result = process_event(issues_event("opened"), &config());
    let message = result.unwrap().expect("should have a message");
    assert_eq!(message.room_id, "!dev:x");
    assert_eq!(
        message.plain,
        "[🔧 widgets] alice opened issue #3 (Broken) ⋅ https://github.com/acme/widgets/issues/3"
    );
    assert_eq!(
        message.html,
        r#"<b>[🔧 widgets]</b> alice opened issue <a href="https://github.com/acme/widgets/issues/3">#3 (Broken)</a>"#
    );
}

use prololo::prolosite::handle_prolosite_error;
use prololo::prolosite::handle_prolosite_forum;
use prololo::prolosite::handle_prolosite_impersonate;
use prololo::prolosite::handle_prolosite_new_school;
use prololo::prolosite::DjangoErrorPayload;
use prololo::prolosite::Exception;
use prololo::prolosite::ForumPayload;
use prololo::prolosite::ImpersonatePayload;
use prololo::prolosite::NewSchoolPayload;
use prololo::prolosite::Request;
use prololo::prolosite::User;

fn parsed(url: &str) -> String {
    url::Url::parse(url).unwrap().to_string()
}

#[test]
fn test_handle_prolosite_error() {
    let event = DjangoErrorPayload {
        request: Request {
            user: Some("prololo".to_string()),
            method: "GET".to_string(),
            path: "/some/route".to_string(),
        },
        exception: Exception {
            value: "ExampleException".to_string(),
            trace: vec![],
        },
    };

    let response = handle_prolosite_error(event).expect("should have a response");
    let message = response.message;

    assert_eq!(
        message.plain,
        "[ðŸ”¥ django crash] (prololo) GET /some/route: ExampleException"
    );
    assert_eq!(
        message.html,
        "<b>[ðŸ”¥ django crash]</b> (prololo) GET <code>/some/route</code>: <code>ExampleException</code>"
    );
}

#[test]
fn test_handle_prolosite_impersonate() {
    let event = ImpersonatePayload {
        event: "start".to_string(),
        hijacker: User {
            username: "leo".to_string(),
            url: parsed("https://prologin.org/user/39194/profile"),
        },
        hijacked: User {
            username: "prologin".to_string(),
            url: parsed("https://prologin.org/user/1/profile"),
        },
    };

    let response = handle_prolosite_impersonate(event).expect("should have a response");
    let message = response.message;

    assert!(message.url.is_some());
    assert_eq!(
        message.plain,
        "[ðŸš¨ impersonate] leo started impersonation of prologin"
    );
    assert_eq!(
        message.html,
        r#"<b>[ðŸš¨ impersonate]</b> <a href="https://prologin.org/user/39194/profile">leo</a> started impersonation of <a href="https://prologin.org/user/1/profile">prologin</a>"#
    );
}

#[test]
fn forum_titles_use_the_long_budget() {
    let title = "a".repeat(150);
    let event = ForumPayload {
        username: "alice".to_string(),
        forum: "General".to_string(),
        title,
        url: parsed("https://prologin.org/forum/thread/1"),
    };

    let response = handle_prolosite_forum(event).expect("should have a response");
    let expected_tail: String = "a".repeat(140) + "…";
    let expected = format!("[💬 forum] alice created new thread in General: {}", expected_tail);
    assert_eq!(response.message.plain, expected);
}

#[test]
fn new_school_announcement() {
    let event = NewSchoolPayload {
        name: "Lycée Exemple".to_string(),
        url: parsed("https://prologin.org/schools/1"),
    };

    let response = handle_prolosite_new_school(event).expect("should have a response");
    let message = response.message;
    assert_eq!(message.plain, "[🎓 school] New school added: Lycée Exemple");
    assert_eq!(
        message.html,
        r#"<b>[🎓 school]</b> New school added: <a href="https://prologin.org/schools/1">Lycée Exemple</a>"#
    );
}

#[test]
fn crash_report_without_a_user() {
    let event = DjangoErrorPayload {
        request: Request {
            user: None,
            method: "POST".to_string(),
            path: "/train/submit".to_string(),
        },
        exception: Exception {
            value: "ValueError".to_string(),
            trace: vec!["frame one".to_string()],
        },
    };

    let response = handle_prolosite_error(event).expect("should have a response");
    assert_eq!(
        response.message.plain,
        "[ðŸ”¥ django crash] POST /train/submit: ValueError"
    );
}

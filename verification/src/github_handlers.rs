//! One handler per version-control event variant: each is a pure function
//! from the event to an optional message plus destination hint, and its
//! contract pins the emitted text down exactly via [`MessageModel`].
//!
//! Cross-cutting rules: overly verbose sub-actions produce no message;
//! free-form text is truncated to a fixed budget; a self-targeting action is
//! phrased with a `self-` verb; exactly one link per message is primary; an
//! unrecognized sub-action produces no message rather than an error.

use vstd::prelude::*;
use vstd::string::StrSliceExecFns;
use vstd::string::StringExecFns;

use crate::github_events::issue_summary;
use crate::github_events::pull_request_summary;
use crate::github_events::ref_url_spec;
use crate::github_events::commit_title;
use crate::github_events::Commit;
use crate::github_events::CommitCommentEvent;
use crate::github_events::CreateEvent;
use crate::github_events::ForkEvent;
use crate::github_events::GitHubEvent;
use crate::github_events::GitHubUser;
use crate::github_events::IssueCommentEvent;
use crate::github_events::IssuesEvent;
use crate::github_events::MembershipEvent;
use crate::github_events::OrganizationEvent;
use crate::github_events::PingEvent;
use crate::github_events::PullRequestEvent;
use crate::github_events::PullRequestReviewCommentEvent;
use crate::github_events::PullRequestReviewEvent;
use crate::github_events::PushEvent;
use crate::github_events::RefType;
use crate::github_events::RepositoryEvent;
use crate::message_builder::MessageBuilder;
use crate::message_builder::MessageModel;
use crate::response::response_view;
use crate::response::Response;
use crate::response::ResponseModel;
use crate::strings::dec_str;
use crate::strings::prefix_until_len;
use crate::strings::str_eq;
use crate::strings::take_until;
use crate::strings::u64_to_dec;
use crate::utils::shorten_content;
use crate::utils::shortened;
use crate::utils::SHORT_CONTENT_BUDGET;

verus! {

/// A commit hash is shown truncated to this many leading characters.
pub const SHORT_HASH_LENGTH: usize = 7;

/// A URL without its fragment part: everything before the first `#`.
pub open spec fn without_fragment(s: Seq<char>) -> Seq<char> {
    s.subrange(0, prefix_until_len(s, '#'))
}

/// What a commit-comment event announces.
pub open spec fn commit_comment_response(event: CommitCommentEvent) -> Option<ResponseModel> {
    Some(
        ResponseModel {
            message: MessageModel::empty().tagged(event.repository.name@, Some("💬"@)).written(
                " "@ + event.sender.login@ + " "@,
            ).main_linked("commented"@, event.comment.html_url@).written(" on "@).linked(
                event.comment.commit_id->0@.subrange(0, SHORT_HASH_LENGTH as int),
                without_fragment(event.comment.html_url@),
            ).written(": "@ + shortened(event.comment.body@, SHORT_CONTENT_BUDGET as int)),
            repo: Some(event.repository.full_name@),
        },
    )
}

/// Announces a comment on a commit.
pub fn handle_commit_comment(event: CommitCommentEvent) -> (r: Option<Response>)
    requires
        event.comment.commit_id is Some,
        event.comment.commit_id->0@.len() >= SHORT_HASH_LENGTH,
    ensures
        response_view(r) == commit_comment_response(event),
{
    let commit_html_url = take_until(event.comment.html_url.as_str(), '#').to_owned();

    let mut message = MessageBuilder::new();
    message.tag(event.repository.name.as_str(), Some("💬"));

    let mut seg = String::from_str(" ");
    seg.append(event.sender.login.as_str());
    seg.append(" ");
    message.write_str(seg.as_str());

    message.main_link("commented", event.comment.html_url.as_str());
    message.write_str(" on ");
    let commit_id = event.comment.commit_id.as_ref().unwrap();
    message.link(
        commit_id.as_str().substring_char(0, SHORT_HASH_LENGTH),
        commit_html_url.as_str(),
    );

    let mut tail = String::from_str(": ");
    tail.append(shorten_content(event.comment.body.as_str()).as_str());
    message.write_str(tail.as_str());

    Some(Response { message, repo: Some(event.repository.full_name) })
}

/// What a create event announces: a tag gets a message, a branch does not
/// (branch pushes are announced by the push event).
pub open spec fn create_response(event: CreateEvent) -> Option<ResponseModel> {
    match event.ref_type {
        RefType::Branch => None,
        RefType::Tag => Some(
            ResponseModel {
                message: MessageModel::empty().tagged(event.repository.name@, None).written(
                    " "@ + event.sender.login@ + " created tag "@,
                ).main_linked(event.ref_name@, ref_url_spec(event.repository, event.ref_name@)),
                repo: Some(event.repository.full_name@),
            },
        ),
    }
}

/// Announces the creation of a tag.
pub fn handle_create(event: CreateEvent) -> (r: Option<Response>)
    ensures
        response_view(r) == create_response(event),
{
    match event.ref_type {
        RefType::Branch => None,
        RefType::Tag => {
            let mut message = MessageBuilder::new();
            message.tag(event.repository.name.as_str(), None);

            let mut seg = String::from_str(" ");
            seg.append(event.sender.login.as_str());
            seg.append(" created tag ");
            message.write_str(seg.as_str());

            let ref_url = event.repository.ref_url(event.ref_name.as_str());
            message.main_link(event.ref_name.as_str(), ref_url.as_str());

            Some(Response { message, repo: Some(event.repository.full_name) })
        },
    }
}

/// What a fork event announces.
pub open spec fn fork_response(event: ForkEvent) -> Option<ResponseModel> {
    Some(
        ResponseModel {
            message: MessageModel::empty().tagged(event.repository.name@, Some("📦"@)).written(
                " "@,
            ).linked(event.sender.login@, event.sender.html_url@).written(
                " forked into "@,
            ).main_linked(event.forkee.full_name@, event.forkee.html_url@),
            repo: Some(event.repository.full_name@),
        },
    )
}

/// Announces a fork.
pub fn handle_fork(event: ForkEvent) -> (r: Option<Response>)
    ensures
        response_view(r) == fork_response(event),
{
    let mut message = MessageBuilder::new();
    message.tag(event.repository.name.as_str(), Some("📦"));
    message.write_str(" ");
    message.link(event.sender.login.as_str(), event.sender.html_url.as_str());
    message.write_str(" forked into ");
    message.main_link(event.forkee.full_name.as_str(), event.forkee.html_url.as_str());

    Some(Response { message, repo: Some(event.repository.full_name) })
}

/// What an issue-comment event announces: a new comment gets a message;
/// edits and deletions are deliberately suppressed, as is any unrecognized
/// sub-action.
pub open spec fn issue_comment_response(event: IssueCommentEvent) -> Option<ResponseModel> {
    let issue_or_pr: Seq<char> = if event.issue.pull_request is Some {
        "PR"@
    } else {
        "issue"@
    };
    if event.action@ == "created"@ {
        Some(
            ResponseModel {
                message: MessageModel::empty().tagged(event.repository.name@, Some("🔧"@)).written(
                    " "@ + event.sender.login@ + " "@,
                ).main_linked("commented"@, event.comment.html_url@).written(
                    " on "@ + issue_or_pr + " "@,
                ).linked(issue_summary(event.issue), event.issue.html_url@).written(
                    ": "@ + shortened(event.comment.body@, SHORT_CONTENT_BUDGET as int),
                ),
                repo: Some(event.repository.full_name@),
            },
        )
    } else {
        None
    }
}

/// Announces a comment on an issue or pull request.
pub fn handle_issue_comment(event: IssueCommentEvent) -> (r: Option<Response>)
    ensures
        response_view(r) == issue_comment_response(event),
{
    // Comments left on PRs are considered as issue comments as well.
    let issue_or_pr: &str = match &event.issue.pull_request {
        Some(_) => "PR",
        None => "issue",
    };

    if str_eq(event.action.as_str(), "created") {
        let mut message = MessageBuilder::new();
        message.tag(event.repository.name.as_str(), Some("🔧"));

        let mut seg = String::from_str(" ");
        seg.append(event.sender.login.as_str());
        seg.append(" ");
        message.write_str(seg.as_str());

        message.main_link("commented", event.comment.html_url.as_str());

        let mut on = String::from_str(" on ");
        on.append(issue_or_pr);
        on.append(" ");
        message.write_str(on.as_str());

        message.link(event.issue.summary().as_str(), event.issue.html_url.as_str());

        let mut tail = String::from_str(": ");
        tail.append(shorten_content(event.comment.body.as_str()).as_str());
        message.write_str(tail.as_str());

        proof {
            assert(" on "@ + issue_or_pr@ + " "@ == " on "@ + (if event.issue.pull_request
                is Some {
                "PR"@
            } else {
                "issue"@
            }) + " "@);
        }
        Some(Response { message, repo: Some(event.repository.full_name) })
    } else {
        // "edited" and "deleted" are too verbose to announce; anything else
        // is unrecognized and likewise produces no message.
        None
    }
}

/// When an issues event must carry an assignee, changes, or a milestone for
/// its sub-action.
pub open spec fn issues_event_wf(event: IssuesEvent) -> bool {
    &&& (event.action@ == "assigned"@ || event.action@ == "unassigned"@)
        ==> event.assignee is Some
    &&& event.action@ == "edited"@ ==> event.changes is Some
    &&& event.action@ == "milestoned"@ ==> event.issue.milestone is Some
}

/// The middle phrase of an issues message, by sub-action; nothing for the
/// suppressed or unrecognized sub-actions.
pub open spec fn issues_phrase(event: IssuesEvent) -> Option<Seq<char>> {
    let action = event.action@;
    if action == "assigned"@ || action == "unassigned"@ {
        let assignee = event.assignee->0;
        if assignee.id == event.sender.id {
            Some(" self-"@ + action + " to "@)
        } else {
            Some(" "@ + action + " "@ + assignee.login@ + " to "@)
        }
    } else if action == "labeled"@ || action == "unlabeled"@ {
        None
    } else if action == "opened"@ || action == "deleted"@ || action == "pinned"@ || action
        == "unpinned"@ || action == "reopened"@ || action == "closed"@ || action == "locked"@
        || action == "unlocked"@ || action == "transferred"@ {
        Some(" "@ + action + " issue "@)
    } else if action == "edited"@ {
        let changes = event.changes->0;
        if changes.title is Some && changes.body is Some {
            Some(" edited"@ + " title and body of issue "@)
        } else if changes.title is Some {
            Some(" edited"@ + " title of issue "@)
        } else if changes.body is Some {
            Some(" edited"@ + " body of issue "@)
        } else {
            None
        }
    } else if action == "milestoned"@ {
        Some(" added milestone "@ + event.issue.milestone->0.title@ + " to "@)
    } else if action == "demilestoned"@ {
        Some(" removed the milestone from "@)
    } else {
        None
    }
}

/// What an issues event announces.
pub open spec fn issues_response(event: IssuesEvent) -> Option<ResponseModel> {
    match issues_phrase(event) {
        None => None,
        Some(phrase) => Some(
            ResponseModel {
                message: MessageModel::empty().tagged(event.repository.name@, Some("🔧"@)).written(
                    " "@ + event.sender.login@,
                ).written(phrase).main_linked(issue_summary(event.issue), event.issue.html_url@),
                repo: Some(event.repository.full_name@),
            },
        ),
    }
}

/// Announces a change to an issue.
pub fn handle_issues(event: IssuesEvent) -> (r: Option<Response>)
    requires
        issues_event_wf(event),
    ensures
        response_view(r) == issues_response(event),
{
    let action = event.action.as_str();

    let mut message = MessageBuilder::new();
    message.tag(event.repository.name.as_str(), Some("🔧"));

    let mut seg = String::from_str(" ");
    seg.append(event.sender.login.as_str());
    message.write_str(seg.as_str());

    if str_eq(action, "assigned") || str_eq(action, "unassigned") {
        let assignee = event.assignee.as_ref().unwrap();
        if assignee.id == event.sender.id {
            let mut phrase = String::from_str(" self-");
            phrase.append(action);
            phrase.append(" to ");
            message.write_str(phrase.as_str());
        } else {
            let mut phrase = String::from_str(" ");
            phrase.append(action);
            phrase.append(" ");
            phrase.append(assignee.login.as_str());
            phrase.append(" to ");
            message.write_str(phrase.as_str());
        }
    } else if str_eq(action, "labeled") || str_eq(action, "unlabeled") {
        // Too verbose to announce.
        return None;
    } else if str_eq(action, "opened") || str_eq(action, "deleted") || str_eq(action, "pinned")
        || str_eq(action, "unpinned") || str_eq(action, "reopened") || str_eq(action, "closed")
        || str_eq(action, "locked") || str_eq(action, "unlocked") || str_eq(
        action,
        "transferred",
    ) {
        let mut phrase = String::from_str(" ");
        phrase.append(action);
        phrase.append(" issue ");
        message.write_str(phrase.as_str());
    } else if str_eq(action, "edited") {
        let changes = event.changes.as_ref().unwrap();
        message.write_str(" edited");
        if changes.title.is_some() && changes.body.is_some() {
            message.write_str(" title and body of issue ");
        } else if changes.title.is_some() {
            message.write_str(" title of issue ");
        } else if changes.body.is_some() {
            message.write_str(" body of issue ");
        } else {
            // An edit that reports no change is unrecognized.
            return None;
        }
        proof {
            crate::message_builder::lemma_written_merge(
                MessageModel::empty().tagged(event.repository.name@, Some("🔧"@)).written(
                    " "@ + event.sender.login@,
                ),
                " edited"@,
                if changes.title is Some && changes.body is Some {
                    " title and body of issue "@
                } else if changes.title is Some {
                    " title of issue "@
                } else {
                    " body of issue "@
                },
            );
        }
    } else if str_eq(action, "milestoned") {
        let milestone = event.issue.milestone.as_ref().unwrap();
        let mut phrase = String::from_str(" added milestone ");
        phrase.append(milestone.title.as_str());
        phrase.append(" to ");
        message.write_str(phrase.as_str());
    } else if str_eq(action, "demilestoned") {
        message.write_str(" removed the milestone from ");
    } else {
        // Unrecognized sub-action: no message, never an error.
        return None;
    }

    message.main_link(event.issue.summary().as_str(), event.issue.html_url.as_str());

    Some(Response { message, repo: Some(event.repository.full_name) })
}

/// What a team-membership event announces: nothing for a secret team, and
/// nothing for an unrecognized sub-action.
pub open spec fn membership_response(event: MembershipEvent) -> Option<ResponseModel> {
    if event.team.privacy@ == "secret"@ {
        None
    } else {
        let preposition: Seq<char> = if event.action@ == "added"@ {
            "to"@
        } else {
            "from"@
        };
        if event.action@ == "added"@ || event.action@ == "removed"@ {
            Some(
                ResponseModel {
                    message: MessageModel::empty().tagged(event.team.name@, Some("🧑"@)).written(
                        " "@ + event.sender.login@ + " "@ + event.action@ + " "@,
                    ).linked(event.member.login@, event.member.html_url@).written(
                        " "@ + preposition + " the team"@,
                    ),
                    repo: None,
                },
            )
        } else {
            None
        }
    }
}

/// Announces a change to a team's membership.
pub fn handle_membership(event: MembershipEvent) -> (r: Option<Response>)
    ensures
        response_view(r) == membership_response(event),
{
    let mut message = MessageBuilder::new();
    message.tag(event.team.name.as_str(), Some("🧑"));

    // Do not leak secret teams.
    if str_eq(event.team.privacy.as_str(), "secret") {
        return None;
    }

    let preposition: &str = if str_eq(event.action.as_str(), "added") {
        "to"
    } else if str_eq(event.action.as_str(), "removed") {
        "from"
    } else {
        // Unrecognized sub-action: no message.
        return None;
    };

    let mut seg = String::from_str(" ");
    seg.append(event.sender.login.as_str());
    seg.append(" ");
    seg.append(event.action.as_str());
    seg.append(" ");
    message.write_str(seg.as_str());

    message.link(event.member.login.as_str(), event.member.html_url.as_str());

    let mut tail = String::from_str(" ");
    tail.append(preposition);
    tail.append(" the team");
    message.write_str(tail.as_str());

    Some(Response { message, repo: None })
}

/// When an organization event must carry an invitation, a user, or a
/// membership for its sub-action.
pub open spec fn organization_event_wf(event: OrganizationEvent) -> bool {
    &&& event.action@ == "member_invited"@ ==> event.invitation is Some && event.user is Some
    &&& (event.action@ == "member_added"@ || event.action@ == "member_removed"@)
        ==> event.membership is Some
}

/// What an organization event announces.
pub open spec fn organization_response(event: OrganizationEvent) -> Option<ResponseModel> {
    let action = event.action@;
    if action == "member_invited"@ || action == "member_added"@ || action == "member_removed"@ {
        let verb: Seq<char> = if action == "member_invited"@ {
            "invited"@
        } else if action == "member_added"@ {
            "added"@
        } else {
            "removed"@
        };
        let user = if action == "member_invited"@ {
            event.user->0
        } else {
            event.membership->0.user
        };
        let preposition: Seq<char> = if action == "member_removed"@ {
            "from"@
        } else {
            "to"@
        };
        let role = if action == "member_invited"@ {
            event.invitation->0.role@
        } else {
            event.membership->0.role@
        };
        let role_phrase: Seq<char> = if action == "member_removed"@ {
            " (was "@ + role + ")"@
        } else {
            " as "@ + role
        };
        Some(
            ResponseModel {
                message: MessageModel::empty().written(
                    event.sender.login@ + " "@ + verb + " "@,
                ).linked(user.login@, user.html_url@).written(
                    " "@ + preposition + " organization"@,
                ).written(role_phrase),
                repo: None,
            },
        )
    } else {
        None
    }
}

/// Announces a change to an organization's membership.
pub fn handle_organization(event: OrganizationEvent) -> (r: Option<Response>)
    requires
        organization_event_wf(event),
    ensures
        response_view(r) == organization_response(event),
{
    let action = event.action.as_str();
    let invited = str_eq(action, "member_invited");
    let added = str_eq(action, "member_added");
    let removed = str_eq(action, "member_removed");
    if !(invited || added || removed) {
        // Unrecognized sub-action: no message.
        return None;
    }

    let verb: &str = if invited {
        "invited"
    } else if added {
        "added"
    } else {
        "removed"
    };
    let user: &GitHubUser = if invited {
        event.user.as_ref().unwrap()
    } else {
        &event.membership.as_ref().unwrap().user
    };
    let preposition: &str = if removed {
        "from"
    } else {
        "to"
    };
    let role: &String = if invited {
        &event.invitation.as_ref().unwrap().role
    } else {
        &event.membership.as_ref().unwrap().role
    };

    let mut message = MessageBuilder::new();

    let mut seg = String::from_str("");
    seg.append(event.sender.login.as_str());
    seg.append(" ");
    seg.append(verb);
    seg.append(" ");
    message.write_str(seg.as_str());
    proof {
        reveal_strlit("");
        assert(seg@ =~= event.sender.login@ + " "@ + verb@ + " "@);
    }

    message.link(user.login.as_str(), user.html_url.as_str());

    let mut mid = String::from_str(" ");
    mid.append(preposition);
    mid.append(" organization");
    message.write_str(mid.as_str());

    if removed {
        let mut tail = String::from_str(" (was ");
        tail.append(role.as_str());
        tail.append(")");
        message.write_str(tail.as_str());
    } else {
        let mut tail = String::from_str(" as ");
        tail.append(role.as_str());
        message.write_str(tail.as_str());
    }

    Some(Response { message, repo: None })
}

/// What a ping event announces: webhook setup completed, with the zen line.
pub open spec fn ping_response(event: PingEvent) -> Option<ResponseModel> {
    let prefix = match event.repository {
        Some(repo) => MessageModel::empty().tagged(repo.name@, Some("🏓"@)).written(" "@),
        None => MessageModel::empty(),
    };
    Some(
        ResponseModel {
            message: prefix.written(
                event.sender.login@ + " completed webhook setup! "@ + event.zen@,
            ),
            repo: match event.repository {
                Some(repo) => Some(repo.full_name@),
                None => None,
            },
        },
    )
}

/// Announces a completed webhook setup.
pub fn handle_ping(event: PingEvent) -> (r: Option<Response>)
    ensures
        response_view(r) == ping_response(event),
{
    let mut message = MessageBuilder::new();

    match &event.repository {
        Some(repo) => {
            message.tag(repo.name.as_str(), Some("🏓"));
            message.write_str(" ");
        },
        None => {},
    }

    let mut seg = String::from_str("");
    seg.append(event.sender.login.as_str());
    seg.append(" completed webhook setup! ");
    seg.append(event.zen.as_str());
    message.write_str(seg.as_str());
    proof {
        reveal_strlit("");
        assert(seg@ =~= event.sender.login@ + " completed webhook setup! "@ + event.zen@);
    }

    let repo = match event.repository {
        Some(repo) => Some(repo.full_name),
        None => None,
    };
    Some(Response { message, repo })
}

/// The logins of the users asked for review, as one comma-separated text.
pub open spec fn joined_logins(users: Seq<GitHubUser>) -> Seq<char>
    decreases users.len(),
{
    if users.len() == 0 {
        Seq::empty()
    } else if users.len() == 1 {
        users[0].login@
    } else {
        joined_logins(users.drop_last()) + ", "@ + users.last().login@
    }
}

/// Renders the logins of `users` as one comma-separated text.
pub fn join_logins(users: &Vec<GitHubUser>) -> (r: String)
    ensures
        r@ == joined_logins(users@),
{
    let mut out = String::new();
    let mut i: usize = 0;
    while i < users.len()
        invariant
            i <= users@.len(),
            out@ == joined_logins(users@.subrange(0, i as int)),
        decreases users@.len() - i,
    {
        if i > 0 {
            out.append(", ");
        }
        out.append(users[i].login.as_str());
        proof {
            assert(users@.subrange(0, i + 1 as int).drop_last() =~= users@.subrange(0, i as int));
            assert(out@ =~= joined_logins(users@.subrange(0, i + 1 as int)));
        }
        i += 1;
    }
    proof {
        assert(users@.subrange(0, users@.len() as int) =~= users@);
    }
    out
}

/// When a pull-request event must carry an assignee or a merge decision for
/// its sub-action.
pub open spec fn pull_request_event_wf(event: PullRequestEvent) -> bool {
    &&& (event.action@ == "assigned"@ || event.action@ == "unassigned"@)
        ==> event.assignee is Some
    &&& event.action@ == "closed"@ ==> event.pull_request.merged is Some
}

/// What a pull-request event announces.
pub open spec fn pull_request_response(event: PullRequestEvent) -> Option<ResponseModel> {
    let action = event.action@;
    let pr = event.pull_request;
    let prefix = MessageModel::empty().tagged(event.repository.name@, Some("📤"@)).written(
        " "@ + event.sender.login@,
    );
    let message: Option<MessageModel> = if action == "assigned"@ || action == "unassigned"@ {
        let assignee = event.assignee->0;
        let phrase: Seq<char> = if assignee.id == event.sender.id {
            " self-"@ + action + " to "@
        } else {
            " "@ + action + " "@ + assignee.login@ + " to "@
        };
        Some(prefix.written(phrase).main_linked(pull_request_summary(pr), pr.html_url@))
    } else if action == "review_requested"@ {
        Some(
            prefix.written(
                " requested "@ + joined_logins(pr.requested_reviewers@) + " to review "@,
            ).main_linked(pull_request_summary(pr), pr.html_url@),
        )
    } else if action == "labeled"@ || action == "unlabeled"@ || action
        == "review_requested_removed"@ {
        None
    } else if action == "opened"@ || action == "edited"@ || action == "reopened"@ {
        Some(
            prefix.written(" "@ + action + " "@).main_linked(
                pull_request_summary(pr),
                pr.html_url@,
            ).written(" ("@ + pr.base.ref_name@ + "..."@ + pr.head.ref_name@ + ")"@),
        )
    } else if action == "closed"@ {
        let decision: Seq<char> = if pr.merged->0 {
            "merged"@
        } else {
            "closed"@
        };
        Some(
            prefix.written(" "@ + decision + " "@).main_linked(
                pull_request_summary(pr),
                pr.html_url@,
            ),
        )
    } else {
        None
    };
    match message {
        Some(m) => Some(ResponseModel { message: m, repo: Some(event.repository.full_name@) }),
        None => None,
    }
}

/// Announces a change to a pull request.
pub fn handle_pull_request(event: PullRequestEvent) -> (r: Option<Response>)
    requires
        pull_request_event_wf(event),
    ensures
        response_view(r) == pull_request_response(event),
{
    let action = event.action.as_str();
    let pr = &event.pull_request;

    let mut message = MessageBuilder::new();
    message.tag(event.repository.name.as_str(), Some("📤"));

    let mut seg = String::from_str(" ");
    seg.append(event.sender.login.as_str());
    message.write_str(seg.as_str());

    if str_eq(action, "assigned") || str_eq(action, "unassigned") {
        let assignee = event.assignee.as_ref().unwrap();
        if assignee.id == event.sender.id {
            let mut phrase = String::from_str(" self-");
            phrase.append(action);
            phrase.append(" to ");
            message.write_str(phrase.as_str());
        } else {
            let mut phrase = String::from_str(" ");
            phrase.append(action);
            phrase.append(" ");
            phrase.append(assignee.login.as_str());
            phrase.append(" to ");
            message.write_str(phrase.as_str());
        }
        message.main_link(pr.summary().as_str(), pr.html_url.as_str());
    } else if str_eq(action, "review_requested") {
        let reviewers = join_logins(&pr.requested_reviewers);
        let mut phrase = String::from_str(" requested ");
        phrase.append(reviewers.as_str());
        phrase.append(" to review ");
        message.write_str(phrase.as_str());
        message.main_link(pr.summary().as_str(), pr.html_url.as_str());
    } else if str_eq(action, "labeled") || str_eq(action, "unlabeled") || str_eq(
        action,
        "review_requested_removed",
    ) {
        // Too verbose to announce.
        return None;
    } else if str_eq(action, "opened") || str_eq(action, "edited") || str_eq(action, "reopened") {
        let mut phrase = String::from_str(" ");
        phrase.append(action);
        phrase.append(" ");
        message.write_str(phrase.as_str());
        message.main_link(pr.summary().as_str(), pr.html_url.as_str());
        let mut refs = String::from_str(" (");
        refs.append(pr.base.ref_name.as_str());
        refs.append("...");
        refs.append(pr.head.ref_name.as_str());
        refs.append(")");
        message.write_str(refs.as_str());
    } else if str_eq(action, "closed") {
        let decision: &str = if *pr.merged.as_ref().unwrap() {
            "merged"
        } else {
            "closed"
        };
        let mut phrase = String::from_str(" ");
        phrase.append(decision);
        phrase.append(" ");
        message.write_str(phrase.as_str());
        message.main_link(pr.summary().as_str(), pr.html_url.as_str());
    } else {
        // Unrecognized sub-action: no message.
        return None;
    }

    Some(Response { message, repo: Some(event.repository.full_name) })
}

/// The phrasing of a review decision, from the lower-cased review state;
/// nothing for an unrecognized state.
pub open spec fn review_decision(state_lower: Seq<char>) -> Option<Seq<char>> {
    if state_lower == "approved"@ {
        Some("approved"@)
    } else if state_lower == "changes_requested"@ {
        Some("requested changes on"@)
    } else if state_lower == "commented"@ {
        Some("commented on"@)
    } else {
        None
    }
}

/// What a pull-request-review event announces.
pub open spec fn pull_request_review_response(event: PullRequestReviewEvent) -> Option<
    ResponseModel,
> {
    let action = event.action@;
    let pr = event.pull_request;
    let reviewer = event.review.user.login@;
    match review_decision(crate::strings::lower_of(event.review.state@)) {
        None => None,
        Some(decision) => {
            let prefix = MessageModel::empty().tagged(
                event.repository.name@,
                Some("📤"@),
            ).written(" "@ + event.sender.login@);
            if action == "submitted"@ {
                Some(
                    ResponseModel {
                        message: prefix.written(" "@ + decision + " "@).main_linked(
                            pull_request_summary(pr),
                            pr.html_url@,
                        ),
                        repo: Some(event.repository.full_name@),
                    },
                )
            } else if action == "edited"@ {
                None
            } else if action == "dismissed"@ {
                let whose: Seq<char> = if event.sender.login@ == reviewer {
                    "their"@
                } else {
                    reviewer + "'s"@
                };
                Some(
                    ResponseModel {
                        message: prefix.written(" dismissed "@).main_linked(
                            whose + " review"@,
                            event.review.html_url@,
                        ).written(" for "@).linked(pull_request_summary(pr), pr.html_url@).written(
                            " (they "@ + decision + " the PR)"@,
                        ),
                        repo: Some(event.repository.full_name@),
                    },
                )
            } else {
                None
            }
        },
    }
}

/// Announces a review of a pull request.
pub fn handle_pull_request_review(event: PullRequestReviewEvent) -> (r: Option<Response>)
    ensures
        response_view(r) == pull_request_review_response(event),
{
    let action = event.action.as_str();
    let pr = &event.pull_request;
    let reviewer = &event.review.user.login;

    let state_lower = crate::strings::lowercase(event.review.state.as_str());
    let decision: &str = if str_eq(state_lower.as_str(), "approved") {
        "approved"
    } else if str_eq(state_lower.as_str(), "changes_requested") {
        "requested changes on"
    } else if str_eq(state_lower.as_str(), "commented") {
        "commented on"
    } else {
        // Unrecognized review state: no message.
        return None;
    };

    let mut message = MessageBuilder::new();
    message.tag(event.repository.name.as_str(), Some("📤"));

    let mut seg = String::from_str(" ");
    seg.append(event.sender.login.as_str());
    message.write_str(seg.as_str());

    if str_eq(action, "submitted") {
        let mut phrase = String::from_str(" ");
        phrase.append(decision);
        phrase.append(" ");
        message.write_str(phrase.as_str());
        message.main_link(pr.summary().as_str(), pr.html_url.as_str());
    } else if str_eq(action, "edited") {
        // Too verbose to announce.
        return None;
    } else if str_eq(action, "dismissed") {
        message.write_str(" dismissed ");

        let mut whose = String::new();
        if str_eq(event.sender.login.as_str(), reviewer.as_str()) {
            whose.append("their");
            proof {
                assert(whose@ =~= "their"@);
            }
        } else {
            whose.append(reviewer.as_str());
            whose.append("'s");
        }
        let mut link_text = whose;
        link_text.append(" review");
        message.main_link(link_text.as_str(), event.review.html_url.as_str());

        message.write_str(" for ");
        message.link(pr.summary().as_str(), pr.html_url.as_str());

        let mut tail = String::from_str(" (they ");
        tail.append(decision);
        tail.append(" the PR)");
        message.write_str(tail.as_str());
    } else {
        // Unrecognized sub-action: no message.
        return None;
    }

    Some(Response { message, repo: Some(event.repository.full_name) })
}

/// What an inline review comment announces: nothing while it belongs to a
/// still-pending review (the review event itself will be announced), and
/// nothing for the suppressed or unrecognized sub-actions.
pub open spec fn pull_request_review_comment_response(event: PullRequestReviewCommentEvent)
    -> Option<ResponseModel> {
    let pr = event.pull_request;
    if event.comment.pull_request_review_id is Some {
        None
    } else if event.action@ == "created"@ {
        let base = MessageModel::empty().tagged(event.repository.name@, Some("💬"@)).written(
            " "@ + event.sender.login@ + " "@,
        ).main_linked("commented"@, event.comment.html_url@).written(" on "@).linked(
            pull_request_summary(pr),
            pr.html_url@,
        );
        let message = match event.comment.path {
            Some(p) => base.written(
                " "@ + crate::github_events::comment_location(
                    p@,
                    event.comment.position->0 as int,
                ),
            ),
            None => base,
        };
        Some(ResponseModel { message, repo: Some(event.repository.full_name@) })
    } else {
        None
    }
}

/// Announces an inline review comment that does not belong to a review.
pub fn handle_pull_request_review_comment(event: PullRequestReviewCommentEvent) -> (r: Option<
    Response,
>)
    requires
        event.comment.path is Some ==> event.comment.position is Some,
    ensures
        response_view(r) == pull_request_review_comment_response(event),
{
    let pr = &event.pull_request;

    if event.comment.pull_request_review_id.is_some() {
        // An inline comment linked to a review is announced with the review.
        return None;
    }

    if str_eq(event.action.as_str(), "created") {
        let mut message = MessageBuilder::new();
        message.tag(event.repository.name.as_str(), Some("💬"));

        let mut seg = String::from_str(" ");
        seg.append(event.sender.login.as_str());
        seg.append(" ");
        message.write_str(seg.as_str());

        message.main_link("commented", event.comment.html_url.as_str());
        message.write_str(" on ");
        message.link(pr.summary().as_str(), pr.html_url.as_str());

        match event.comment.location() {
            Some(location) => {
                let mut tail = String::from_str(" ");
                tail.append(location.as_str());
                message.write_str(tail.as_str());
            },
            None => {},
        }

        Some(Response { message, repo: Some(event.repository.full_name) })
    } else {
        // "edited" and "deleted" are too verbose; anything else is
        // unrecognized. Either way: no message.
        None
    }
}

/// How many commits of a push are distinct.
pub open spec fn distinct_count(commits: Seq<Commit>) -> int
    decreases commits.len(),
{
    if commits.len() == 0 {
        0
    } else {
        distinct_count(commits.drop_last()) + if commits.last().distinct {
            1int
        } else {
            0int
        }
    }
}

/// Counts the distinct commits of a push.
pub fn count_distinct(commits: &Vec<Commit>) -> (r: usize)
    ensures
        r == distinct_count(commits@),
        r <= commits@.len(),
{
    let mut count: usize = 0;
    let mut i: usize = 0;
    while i < commits.len()
        invariant
            i <= commits@.len(),
            count == distinct_count(commits@.subrange(0, i as int)),
            count <= i,
        decreases commits@.len() - i,
    {
        if commits[i].distinct {
            count += 1;
        }
        proof {
            assert(commits@.subrange(0, i + 1 as int).drop_last() =~= commits@.subrange(
                0,
                i as int,
            ));
        }
        i += 1;
    }
    proof {
        assert(commits@.subrange(0, commits@.len() as int) =~= commits@);
    }
    count
}

/// When a push event carries everything its message needs: a head commit
/// with a long-enough hash, and a branch reference.
pub open spec fn push_event_wf(event: PushEvent) -> bool {
    event.commits@.len() > 0 ==> {
        &&& event.head_commit is Some
        &&& event.head_commit->0.id@.len() >= SHORT_HASH_LENGTH
        &&& event.ref_name@.len() >= 11
        &&& event.ref_name@.subrange(0, 11) == "refs/heads/"@
    }
}

/// What a push event announces: nothing for an empty push (a pushed tag is
/// announced by the create event).
pub open spec fn push_response(event: PushEvent) -> Option<ResponseModel> {
    if event.commits@.len() == 0 {
        None
    } else {
        let head = event.head_commit->0;
        let hash = head.id@.subrange(0, SHORT_HASH_LENGTH as int);
        let force: Seq<char> = if event.forced {
            "force-"@
        } else {
            ""@
        };
        let branch = event.ref_name@.skip(11);
        let link_text: Seq<char> = if event.commits@.len() == 1 {
            hash
        } else {
            let counted = dec_str(event.commits@.len() as int) + " commits"@;
            let with_distinct: Seq<char> = if distinct_count(event.commits@) != event.commits@.len() {
                counted + " ("@ + dec_str(distinct_count(event.commits@)) + " distinct)"@
            } else {
                counted
            };
            with_distinct + " including "@ + hash
        };
        let link_url: Seq<char> = if event.commits@.len() == 1 {
            head.url@
        } else {
            event.compare@
        };
        let new_marker: Seq<char> = if event.created {
            "new "@
        } else {
            ""@
        };
        Some(
            ResponseModel {
                message: MessageModel::empty().tagged(event.repository.name@, None).written(
                    " "@ + event.sender.login@ + " "@ + force + "pushed "@,
                ).main_linked(link_text, link_url).written(" on "@ + new_marker).linked(
                    "⊶"@ + branch,
                    ref_url_spec(event.repository, branch),
                ).written(": "@ + shortened(commit_title(head.message@), SHORT_CONTENT_BUDGET as int)),
                repo: Some(event.repository.full_name@),
            },
        )
    }
}

/// Announces pushed commits.
pub fn handle_push(event: PushEvent) -> (r: Option<Response>)
    requires
        push_event_wf(event),
    ensures
        response_view(r) == push_response(event),
{
    if event.commits.len() == 0 {
        // No commits: a tag was pushed, announced by the create event.
        return None;
    }

    let head = event.head_commit.as_ref().unwrap();
    let hash = head.id.as_str().substring_char(0, SHORT_HASH_LENGTH);

    let mut message = MessageBuilder::new();
    message.tag(event.repository.name.as_str(), None);

    let mut seg = String::from_str(" ");
    seg.append(event.sender.login.as_str());
    seg.append(" ");
    if event.forced {
        seg.append("force-");
    }
    seg.append("pushed ");
    message.write_str(seg.as_str());
    proof {
        reveal_strlit("");
        if !event.forced {
            assert(" "@ + event.sender.login@ + " "@ + ""@ =~= " "@ + event.sender.login@ + " "@);
        }
    }

    let mut text = String::new();
    if event.commits.len() == 1 {
        text.append(hash);
        proof {
            assert(text@ =~= head.id@.subrange(0, SHORT_HASH_LENGTH as int));
        }
        message.main_link(text.as_str(), head.url.as_str());
    } else {
        text.append(u64_to_dec(event.commits.len() as u64).as_str());
        text.append(" commits");
        proof {
            assert(text@ =~= crate::strings::dec_str(event.commits@.len() as int) + " commits"@);
        }
        let distinct = count_distinct(&event.commits);
        if distinct != event.commits.len() {
            text.append(" (");
            text.append(u64_to_dec(distinct as u64).as_str());
            text.append(" distinct)");
        }
        text.append(" including ");
        text.append(hash);
        message.main_link(text.as_str(), event.compare.as_str());
    }

    let ghost m_on = message@;
    message.write_str(" on ");
    if event.created {
        message.write_str("new ");
    }
    proof {
        reveal_strlit("");
        if event.created {
            crate::message_builder::lemma_written_merge(m_on, " on "@, "new "@);
        } else {
            assert(" on "@ + ""@ =~= " on "@);
        }
    }

    let branch = event.ref_name.as_str().substring_char(11, event.ref_name.as_str().unicode_len());
    proof {
        assert(branch@ =~= event.ref_name@.skip(11));
    }
    let ref_url = event.repository.ref_url(branch);
    let mut branch_text = String::from_str("⊶");
    branch_text.append(branch);
    message.link(branch_text.as_str(), ref_url.as_str());

    let mut tail = String::from_str(": ");
    tail.append(shorten_content(head.title().as_str()).as_str());
    message.write_str(tail.as_str());

    Some(Response { message, repo: Some(event.repository.full_name) })
}

/// When a repository event must carry its change set.
pub open spec fn repository_event_wf(event: RepositoryEvent) -> bool {
    event.action@ == "renamed"@ ==> event.changes is Some
}

/// What a repository event announces: lifecycle changes and renames; edits
/// and unrecognized sub-actions are suppressed.
pub open spec fn repository_response(event: RepositoryEvent) -> Option<ResponseModel> {
    let action = event.action@;
    if action == "created"@ || action == "deleted"@ || action == "archived"@ || action
        == "unarchived"@ || action == "transferred"@ || action == "publicized"@ || action
        == "privatized"@ {
        Some(
            ResponseModel {
                message: MessageModel::empty().tagged(event.repository.name@, Some("📦"@)).written(
                    " "@ + event.sender.login@ + " "@ + action + " repository"@,
                ),
                repo: Some(event.repository.full_name@),
            },
        )
    } else if action == "renamed"@ {
        Some(
            ResponseModel {
                message: MessageModel::empty().tagged(
                    event.changes->0.repository.name.from@,
                    Some("📦"@),
                ).written(
                    " "@ + event.sender.login@ + " renamed repository to "@
                        + event.repository.name@,
                ),
                repo: Some(event.repository.full_name@),
            },
        )
    } else {
        None
    }
}

/// Announces a change to a repository.
pub fn handle_repository(event: RepositoryEvent) -> (r: Option<Response>)
    requires
        repository_event_wf(event),
    ensures
        response_view(r) == repository_response(event),
{
    let action = event.action.as_str();

    let mut message = MessageBuilder::new();

    if str_eq(action, "created") || str_eq(action, "deleted") || str_eq(action, "archived")
        || str_eq(action, "unarchived") || str_eq(action, "transferred") || str_eq(
        action,
        "publicized",
    ) || str_eq(action, "privatized") {
        message.tag(event.repository.name.as_str(), Some("📦"));

        let mut seg = String::from_str(" ");
        seg.append(event.sender.login.as_str());
        seg.append(" ");
        seg.append(action);
        seg.append(" repository");
        message.write_str(seg.as_str());
    } else if str_eq(action, "renamed") {
        let old_repo_name = &event.changes.as_ref().unwrap().repository.name.from;
        message.tag(old_repo_name.as_str(), Some("📦"));

        let mut seg = String::from_str(" ");
        seg.append(event.sender.login.as_str());
        seg.append(" renamed repository to ");
        seg.append(event.repository.name.as_str());
        message.write_str(seg.as_str());
    } else {
        // "edited" is too verbose; anything else is unrecognized. Either
        // way: no message.
        return None;
    }

    Some(Response { message, repo: Some(event.repository.full_name) })
}

/// When an event carries everything its handler needs.
pub open spec fn github_event_wf(event: GitHubEvent) -> bool {
    match event {
        GitHubEvent::CommitComment(e) => e.comment.commit_id is Some
            && e.comment.commit_id->0@.len() >= SHORT_HASH_LENGTH,
        GitHubEvent::Issues(e) => issues_event_wf(e),
        GitHubEvent::Organization(e) => organization_event_wf(e),
        GitHubEvent::PullRequest(e) => pull_request_event_wf(e),
        GitHubEvent::PullRequestReviewComment(e) => e.comment.path is Some
            ==> e.comment.position is Some,
        GitHubEvent::Push(e) => push_event_wf(e),
        GitHubEvent::Repository(e) => repository_event_wf(e),
        _ => true,
    }
}

/// Checks [`github_event_wf`] at run time, for callers outside the library
/// that receive events from parsed payloads.
pub fn github_event_is_wf(event: &GitHubEvent) -> (r: bool)
    ensures
        r == github_event_wf(*event),
{
    match event {
        GitHubEvent::CommitComment(e) => match &e.comment.commit_id {
            Some(id) => id.as_str().unicode_len() >= SHORT_HASH_LENGTH,
            None => false,
        },
        GitHubEvent::Issues(e) => {
            let action = e.action.as_str();
            let assigned_ok = !(str_eq(action, "assigned") || str_eq(action, "unassigned"))
                || e.assignee.is_some();
            let edited_ok = !str_eq(action, "edited") || e.changes.is_some();
            let milestoned_ok = !str_eq(action, "milestoned") || e.issue.milestone.is_some();
            assigned_ok && edited_ok && milestoned_ok
        },
        GitHubEvent::Organization(e) => {
            let action = e.action.as_str();
            let invited_ok = !str_eq(action, "member_invited") || (e.invitation.is_some()
                && e.user.is_some());
            let membership_ok = !(str_eq(action, "member_added") || str_eq(
                action,
                "member_removed",
            )) || e.membership.is_some();
            invited_ok && membership_ok
        },
        GitHubEvent::PullRequest(e) => {
            let action = e.action.as_str();
            let assigned_ok = !(str_eq(action, "assigned") || str_eq(action, "unassigned"))
                || e.assignee.is_some();
            let closed_ok = !str_eq(action, "closed") || e.pull_request.merged.is_some();
            assigned_ok && closed_ok
        },
        GitHubEvent::PullRequestReviewComment(e) => e.comment.path.is_none()
            || e.comment.position.is_some(),
        GitHubEvent::Push(e) => {
            if e.commits.len() == 0 {
                true
            } else {
                let head_ok = match &e.head_commit {
                    Some(head) => head.id.as_str().unicode_len() >= SHORT_HASH_LENGTH,
                    None => false,
                };
                let name = e.ref_name.as_str();
                let ref_ok = if name.unicode_len() >= 11 {
                    let prefix = name.substring_char(0, 11);
                    str_eq(prefix, "refs/heads/")
                } else {
                    false
                };
                head_ok && ref_ok
            }
        },
        GitHubEvent::Repository(e) => !str_eq(e.action.as_str(), "renamed")
            || e.changes.is_some(),
        _ => true,
    }
}

/// What any version-control event announces: the variant's handler decides.
pub open spec fn github_response(event: GitHubEvent) -> Option<ResponseModel> {
    match event {
        GitHubEvent::CommitComment(e) => commit_comment_response(e),
        GitHubEvent::Create(e) => create_response(e),
        GitHubEvent::Fork(e) => fork_response(e),
        GitHubEvent::IssueComment(e) => issue_comment_response(e),
        GitHubEvent::Issues(e) => issues_response(e),
        GitHubEvent::Membership(e) => membership_response(e),
        GitHubEvent::Organization(e) => organization_response(e),
        GitHubEvent::Ping(e) => ping_response(e),
        GitHubEvent::PullRequest(e) => pull_request_response(e),
        GitHubEvent::PullRequestReview(e) => pull_request_review_response(e),
        GitHubEvent::PullRequestReviewComment(e) => pull_request_review_comment_response(e),
        GitHubEvent::Push(e) => push_response(e),
        GitHubEvent::Repository(e) => repository_response(e),
    }
}

/// Dispatches an event to the handler of its variant.
pub fn handle_github_event(event: GitHubEvent) -> (r: Option<Response>)
    requires
        github_event_wf(event),
    ensures
        response_view(r) == github_response(event),
{
    match event {
        GitHubEvent::CommitComment(e) => handle_commit_comment(e),
        GitHubEvent::Create(e) => handle_create(e),
        GitHubEvent::Fork(e) => handle_fork(e),
        GitHubEvent::IssueComment(e) => handle_issue_comment(e),
        GitHubEvent::Issues(e) => handle_issues(e),
        GitHubEvent::Membership(e) => handle_membership(e),
        GitHubEvent::Organization(e) => handle_organization(e),
        GitHubEvent::Ping(e) => handle_ping(e),
        GitHubEvent::PullRequest(e) => handle_pull_request(e),
        GitHubEvent::PullRequestReview(e) => handle_pull_request_review(e),
        GitHubEvent::PullRequestReviewComment(e) => handle_pull_request_review_comment(e),
        GitHubEvent::Push(e) => handle_push(e),
        GitHubEvent::Repository(e) => handle_repository(e),
    }
}

} // verus!

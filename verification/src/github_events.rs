//! The closed taxonomy of version-control webhook events, as plain data:
//! every field the handlers read is a string, an integer, a boolean, or an
//! option or vector of those.

use vstd::prelude::*;
use vstd::string::StrSliceExecFns;
use vstd::string::StringExecFns;

use crate::strings::dec_str;
use crate::strings::prefix_until_len;
use crate::strings::str_eq;
use crate::strings::take_until;
use crate::strings::u64_to_dec;
use crate::urls::parse_url;
use crate::urls::parsed_url;
use crate::utils::shorten_content;
use crate::utils::shortened;
use crate::utils::SHORT_CONTENT_BUDGET;

verus! {

/// What a `create` event created.
#[derive(Clone, Copy, Debug, PartialEq, Eq, Structural)]
pub enum RefType {
    Branch,
    Tag,
}

/// The account that triggered or is targeted by an event.
pub struct GitHubUser {
    pub login: String,
    pub id: u64,
    pub html_url: String,
}

/// The repository an event belongs to.
pub struct Repository {
    pub name: String,
    pub full_name: String,
    pub html_url: String,
}

/// The address of the tree view for a branch or tag of `repo`.
pub open spec fn tree_url_text(repo: Repository, name: Seq<char>) -> Seq<char> {
    "https://github.com/"@ + repo.full_name@ + "/tree/"@ + name
}

/// Where a link for a branch or tag points: the parsed tree address, or the
/// repository page when that address does not parse.
pub open spec fn ref_url_spec(repo: Repository, name: Seq<char>) -> Seq<char> {
    match parsed_url(tree_url_text(repo, name)) {
        Some(u) => u,
        None => repo.html_url@,
    }
}

impl Repository {
    /// The URL of the tree view for the branch or tag `name`, falling back
    /// to the repository page when the built address does not parse.
    pub fn ref_url(&self, name: &str) -> (r: String)
        ensures
            r@ == ref_url_spec(*self, name@),
    {
        let mut text = String::from_str("https://github.com/");
        text.append(self.full_name.as_str());
        text.append("/tree/");
        text.append(name);
        match parse_url(text.as_str()) {
            Some(u) => u,
            None => self.html_url.clone(),
        }
    }
}

/// A milestone attached to an issue.
pub struct Milestone {
    pub title: String,
}

/// Links carried by an issue that is really a pull request.
pub struct PullRequestLinks {
    pub html_url: String,
}

/// An issue, possibly standing for a pull request.
pub struct Issue {
    pub number: u64,
    pub html_url: String,
    pub title: String,
    pub milestone: Option<Milestone>,
    pub pull_request: Option<PullRequestLinks>,
}

/// How an issue is referred to in messages: its number and truncated title.
pub open spec fn issue_summary(i: Issue) -> Seq<char> {
    "#"@ + dec_str(i.number as int) + " ("@ + shortened(i.title@, SHORT_CONTENT_BUDGET as int)
        + ")"@
}

impl Issue {
    /// Renders [`issue_summary`].
    pub fn summary(&self) -> (r: String)
        ensures
            r@ == issue_summary(*self),
    {
        let mut out = String::from_str("#");
        out.append(u64_to_dec(self.number).as_str());
        out.append(" (");
        out.append(shorten_content(self.title.as_str()).as_str());
        out.append(")");
        out
    }
}

/// A comment on a commit, issue, or pull request.
pub struct Comment {
    pub html_url: String,
    pub body: String,
    pub commit_id: Option<String>,
    pub pull_request_review_id: Option<u64>,
    pub path: Option<String>,
    pub position: Option<u64>,
}

/// The in-file location phrase of a comment that carries a path.
pub open spec fn comment_location(path: Seq<char>, position: int) -> Seq<char> {
    "on file "@ + path + " @ "@ + dec_str(position)
}

impl Comment {
    /// The location phrase, when the comment points into a file. A comment
    /// on a file always carries a position.
    pub fn location(&self) -> (r: Option<String>)
        requires
            self.path is Some ==> self.position is Some,
        ensures
            match r {
                Some(l) => self.path is Some && l@ == comment_location(
                    self.path->0@,
                    self.position->0 as int,
                ),
                None => self.path is None,
            },
    {
        match &self.path {
            Some(path) => {
                let position = self.position.unwrap();
                let mut out = String::from_str("on file ");
                out.append(path.as_str());
                out.append(" @ ");
                out.append(u64_to_dec(position).as_str());
                Some(out)
            },
            None => None,
        }
    }
}

/// One side of a pull request (its base or head).
pub struct PrRef {
    pub ref_name: String,
}

/// A pull request.
pub struct PullRequest {
    pub number: u64,
    pub html_url: String,
    pub title: String,
    pub user: GitHubUser,
    pub requested_reviewers: Vec<GitHubUser>,
    pub base: PrRef,
    pub head: PrRef,
    pub merged: Option<bool>,
}

/// How a pull request is referred to in messages: number, truncated title,
/// and author.
pub open spec fn pull_request_summary(pr: PullRequest) -> Seq<char> {
    "PR #"@ + dec_str(pr.number as int) + ": "@ + shortened(
        pr.title@,
        SHORT_CONTENT_BUDGET as int,
    ) + " by "@ + pr.user.login@
}

impl PullRequest {
    /// Renders [`pull_request_summary`].
    pub fn summary(&self) -> (r: String)
        ensures
            r@ == pull_request_summary(*self),
    {
        let mut out = String::from_str("PR #");
        out.append(u64_to_dec(self.number).as_str());
        out.append(": ");
        out.append(shorten_content(self.title.as_str()).as_str());
        out.append(" by ");
        out.append(self.user.login.as_str());
        out
    }
}

/// A team within an organization.
pub struct Team {
    pub name: String,
    pub id: u64,
    pub description: String,
    pub privacy: String,
    pub permission: String,
    pub html_url: String,
}

/// A review of a pull request.
pub struct Review {
    pub state: String,
    pub user: GitHubUser,
    pub html_url: String,
}

/// An inline review comment on a pull request.
pub struct ReviewComment {
    pub pull_request_review_id: Option<u64>,
    pub html_url: String,
    pub path: Option<String>,
    pub position: Option<u64>,
}

impl ReviewComment {
    /// The location phrase of the comment, empty when it names no file. A
    /// comment on a file always carries a position.
    pub fn location(&self) -> (r: String)
        requires
            self.path is Some ==> self.position is Some,
        ensures
            match self.path {
                Some(p) => r@ == comment_location(p@, self.position->0 as int),
                None => r@ == Seq::<char>::empty(),
            },
    {
        match &self.path {
            Some(path) => {
                let position = self.position.unwrap();
                let mut out = String::from_str("on file ");
                out.append(path.as_str());
                out.append(" @ ");
                out.append(u64_to_dec(position).as_str());
                out
            },
            None => String::new(),
        }
    }
}

/// One commit of a push.
pub struct Commit {
    pub id: String,
    pub url: String,
    pub distinct: bool,
    pub message: String,
}

/// The first line of a commit message, without a trailing carriage return.
pub open spec fn commit_title(message: Seq<char>) -> Seq<char> {
    let line = message.subrange(0, prefix_until_len(message, '\n'));
    if line.len() > 0 && line.last() == '\r' {
        line.drop_last()
    } else {
        line
    }
}

impl Commit {
    /// The title of the commit: the first line of its message.
    pub fn title(&self) -> (r: String)
        ensures
            r@ == commit_title(self.message@),
    {
        let line = take_until(self.message.as_str(), '\n');
        let len = line.unicode_len();
        if len > 0 && line.get_char(len - 1) == '\r' {
            let r = line.substring_char(0, len - 1).to_owned();
            proof {
                assert(r@ =~= commit_title(self.message@));
            }
            r
        } else {
            line.to_owned()
        }
    }
}

/// A comment on a commit.
pub struct CommitCommentEvent {
    pub sender: GitHubUser,
    pub repository: Repository,
    pub comment: Comment,
}

/// A branch or tag was created.
pub struct CreateEvent {
    pub ref_name: String,
    pub ref_type: RefType,
    pub repository: Repository,
    pub sender: GitHubUser,
}

/// A repository was forked.
pub struct ForkEvent {
    pub forkee: Repository,
    pub repository: Repository,
    pub sender: GitHubUser,
}

/// A comment on an issue or pull request.
pub struct IssueCommentEvent {
    pub sender: GitHubUser,
    pub repository: Repository,
    pub issue: Issue,
    pub action: String,
    pub comment: Comment,
}

/// What changed in an edited issue.
pub struct IssueChangesFrom {
    pub from: String,
}

/// Which parts of an issue were edited.
pub struct IssueChanges {
    pub title: Option<IssueChangesFrom>,
    pub body: Option<IssueChangesFrom>,
}

/// An issue changed state.
pub struct IssuesEvent {
    pub repository: Repository,
    pub sender: GitHubUser,
    pub issue: Issue,
    pub changes: Option<IssueChanges>,
    pub assignee: Option<GitHubUser>,
    pub action: String,
}

/// A team's membership changed.
pub struct MembershipEvent {
    pub action: String,
    pub member: GitHubUser,
    pub team: Team,
    pub sender: GitHubUser,
}

/// The invitation of an organization event.
pub struct OrganizationInvitation {
    pub role: String,
}

/// The membership of an organization event.
pub struct OrganizationMembership {
    pub role: String,
    pub user: GitHubUser,
}

/// An organization's membership changed.
pub struct OrganizationEvent {
    pub action: String,
    pub sender: GitHubUser,
    pub invitation: Option<OrganizationInvitation>,
    pub user: Option<GitHubUser>,
    pub membership: Option<OrganizationMembership>,
}

/// A webhook was set up.
pub struct PingEvent {
    pub zen: String,
    pub repository: Option<Repository>,
    pub sender: GitHubUser,
}

/// A pull request changed state.
pub struct PullRequestEvent {
    pub repository: Repository,
    pub sender: GitHubUser,
    pub pull_request: PullRequest,
    pub assignee: Option<GitHubUser>,
    pub action: String,
}

/// A review of a pull request changed state.
pub struct PullRequestReviewEvent {
    pub repository: Repository,
    pub sender: GitHubUser,
    pub pull_request: PullRequest,
    pub review: Review,
    pub action: String,
}

/// An inline review comment changed state.
pub struct PullRequestReviewCommentEvent {
    pub repository: Repository,
    pub sender: GitHubUser,
    pub pull_request: PullRequest,
    pub action: String,
    pub comment: Comment,
}

/// Commits were pushed.
pub struct PushEvent {
    pub repository: Repository,
    pub sender: GitHubUser,
    pub commits: Vec<Commit>,
    pub head_commit: Option<Commit>,
    pub forced: bool,
    pub created: bool,
    pub ref_name: String,
    pub compare: String,
}

/// A repository changed state.
pub struct RepositoryEvent {
    pub action: String,
    pub repository: Repository,
    pub sender: GitHubUser,
    pub changes: Option<RepositoryChanges>,
}

/// The previous name of a renamed repository.
pub struct RepositoryChangesNameFrom {
    pub from: String,
}

/// The name change of a renamed repository.
pub struct RepositoryChangesName {
    pub name: RepositoryChangesNameFrom,
}

/// What changed in a repository event.
pub struct RepositoryChanges {
    pub repository: RepositoryChangesName,
}

/// One normalized version-control event.
pub enum GitHubEvent {
    CommitComment(CommitCommentEvent),
    Create(CreateEvent),
    Fork(ForkEvent),
    IssueComment(IssueCommentEvent),
    Issues(IssuesEvent),
    Membership(MembershipEvent),
    Organization(OrganizationEvent),
    Ping(PingEvent),
    PullRequest(PullRequestEvent),
    PullRequestReview(PullRequestReviewEvent),
    PullRequestReviewComment(PullRequestReviewCommentEvent),
    Push(PushEvent),
    Repository(RepositoryEvent),
}

/// The event type declared by the request header. An unrecognized name maps
/// to `Unknown`, which is acknowledged but produces no event.
#[derive(Clone, Copy, Debug, PartialEq, Eq, Structural)]
pub enum GitHubEventType {
    CommitComment,
    Create,
    Fork,
    IssueComment,
    Issues,
    Membership,
    Organization,
    Ping,
    PullRequest,
    PullRequestReview,
    PullRequestReviewComment,
    Push,
    Repository,
    Unknown,
}

/// Which event type each header value names.
pub open spec fn event_type_of(s: Seq<char>) -> GitHubEventType {
    if s == "commit_comment"@ {
        GitHubEventType::CommitComment
    } else if s == "create"@ {
        GitHubEventType::Create
    } else if s == "fork"@ {
        GitHubEventType::Fork
    } else if s == "issue_comment"@ {
        GitHubEventType::IssueComment
    } else if s == "issues"@ {
        GitHubEventType::Issues
    } else if s == "membership"@ {
        GitHubEventType::Membership
    } else if s == "organization"@ {
        GitHubEventType::Organization
    } else if s == "ping"@ {
        GitHubEventType::Ping
    } else if s == "pull_request"@ {
        GitHubEventType::PullRequest
    } else if s == "pull_request_review"@ {
        GitHubEventType::PullRequestReview
    } else if s == "pull_request_review_comment"@ {
        GitHubEventType::PullRequestReviewComment
    } else if s == "push"@ {
        GitHubEventType::Push
    } else if s == "repository"@ {
        GitHubEventType::Repository
    } else {
        GitHubEventType::Unknown
    }
}

impl GitHubEventType {
    /// Maps the request header value to an event type, `Unknown` for any
    /// unrecognized name.
    pub fn from_header(s: &str) -> (r: GitHubEventType)
        ensures
            r == event_type_of(s@),
    {
        if str_eq(s, "commit_comment") {
            GitHubEventType::CommitComment
        } else if str_eq(s, "create") {
            GitHubEventType::Create
        } else if str_eq(s, "fork") {
            GitHubEventType::Fork
        } else if str_eq(s, "issue_comment") {
            GitHubEventType::IssueComment
        } else if str_eq(s, "issues") {
            GitHubEventType::Issues
        } else if str_eq(s, "membership") {
            GitHubEventType::Membership
        } else if str_eq(s, "organization") {
            GitHubEventType::Organization
        } else if str_eq(s, "ping") {
            GitHubEventType::Ping
        } else if str_eq(s, "pull_request") {
            GitHubEventType::PullRequest
        } else if str_eq(s, "pull_request_review") {
            GitHubEventType::PullRequestReview
        } else if str_eq(s, "pull_request_review_comment") {
            GitHubEventType::PullRequestReviewComment
        } else if str_eq(s, "push") {
            GitHubEventType::Push
        } else if str_eq(s, "repository") {
            GitHubEventType::Repository
        } else {
            GitHubEventType::Unknown
        }
    }
}

} // verus!

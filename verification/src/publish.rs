//! Publication: one branch, one commit and one pull request per candidate.
//!
//! The publisher decides and the caller acts. It names the next operation to
//! ask of the hosting platform, is told how that went, and moves on. The
//! candidates are taken strictly one after the other; the first operation
//! that does not succeed ends the run, and nothing that was already published
//! is taken back.

use crate::error::AdelieError;
use crate::pipeline::UpdateCandidate;
use vstd::prelude::*;

verus! {

/// The state of the repository that every change of a run is based on,
/// captured once before the run.
#[derive(Clone, Debug)]
pub struct BaseState {
    /// The branch that changes are proposed against.
    pub base_branch: String,
    /// The commit that this branch pointed at.
    pub base_commit: String,
    /// The identity of the inventory file's content on that branch.
    pub content_token: String,
}

/// One file of a directory listing of the repository.
#[derive(Clone, Debug)]
pub struct ContentItem {
    pub name: String,
    /// The identity of the file's content.
    pub sha: String,
}

/// Whether `i` is the place of the first file called `name` in a listing.
pub open spec fn is_first_named(items: Seq<ContentItem>, name: Seq<char>, i: int) -> bool {
    &&& 0 <= i < items.len()
    &&& items[i].name@ == name
    &&& forall|j: int| 0 <= j < i ==> (#[trigger] items[j]).name@ != name
}

/// Finds the content identity of the file called `name` in a listing: that of
/// the first file of this name. A listing without such a file means that the
/// file could not be retrieved.
pub fn content_token(items: &Vec<ContentItem>, name: &str) -> (r: Result<String, AdelieError>)
    ensures
        match r {
            Ok(token) => exists|i: int| #[trigger]
                is_first_named(items@, name@, i) && token@ == items[i].sha@,
            Err(e) => e == AdelieError::Fetch && forall|i: int|
                0 <= i < items.len() ==> (#[trigger] items[i]).name@ != name@,
        },
{
    let wanted = String::from_str(name);
    let mut i: usize = 0;
    while i < items.len()
        invariant
            i <= items.len(),
            wanted@ == name@,
            forall|j: int| 0 <= j < i ==> (#[trigger] items[j]).name@ != name@,
        decreases items.len() - i,
    {
        if items[i].name == wanted {
            assert(is_first_named(items@, name@, i as int));
            return Ok(items[i].sha.clone());
        }
        i = i + 1;
    }
    Err(AdelieError::Fetch)
}

impl BaseState {
    /// Captures the base state from what the hosting platform reported: the
    /// commit that `base_branch` points at, and the listing that holds the
    /// inventory file under the name `file_name`.
    pub fn capture(
        base_branch: String,
        base_commit: String,
        listing: &Vec<ContentItem>,
        file_name: &str,
    ) -> (r: Result<BaseState, AdelieError>)
        ensures
            match r {
                Ok(state) => {
                    &&& state.base_branch == base_branch
                    &&& state.base_commit == base_commit
                    &&& exists|i: int| #[trigger]
                        is_first_named(listing@, file_name@, i) && state.content_token@
                            == listing[i].sha@
                },
                Err(e) => e == AdelieError::Fetch && forall|i: int|
                    0 <= i < listing.len() ==> (#[trigger] listing[i]).name@ != file_name@,
            },
    {
        match content_token(listing, file_name) {
            Ok(content_token) => Ok(BaseState { base_branch, base_commit, content_token }),
            Err(e) => Err(e),
        }
    }
}

/// A pull request that was opened.
#[derive(Clone, Copy, Debug, PartialEq, Eq, Structural)]
pub struct PullRequestHandle {
    pub number: u64,
}

/// The operation that is due next for the current candidate.
#[derive(Clone, Copy, Debug, PartialEq, Eq, Structural)]
pub enum Stage {
    Branch,
    Commit,
    PullRequest,
}

/// How the hosting platform answered the operation that was asked of it.
#[derive(Clone, Copy, Debug, PartialEq, Eq, Structural)]
pub enum Event {
    /// The branch was created, or the file was committed.
    Completed,
    /// The pull request was opened.
    Opened(PullRequestHandle),
    /// The platform turned the operation down because of the state it found:
    /// the branch name is taken, or the file is no longer what it was.
    Refused,
    /// The operation failed for any other reason.
    Failed,
}

/// What the publisher asks for next.
#[derive(Clone, Debug)]
pub enum Action {
    /// Create the branch `branch` at the commit `commit`.
    CreateBranch { branch: String, commit: String },
    /// Commit `content` as the inventory file on `branch`, provided the
    /// file's content is still the one that `token` identifies.
    CommitFile { branch: String, message: String, content: String, token: String },
    /// Open a pull request from `head` into `base`.
    OpenPullRequest { title: String, head: String, base: String, body: String },
    /// Every candidate is published.
    Finish,
    /// The run has failed; nothing more is to be done.
    Abort(AdelieError),
}

/// An action as plain text.
pub enum ActionView {
    CreateBranch { branch: Seq<char>, commit: Seq<char> },
    CommitFile { branch: Seq<char>, message: Seq<char>, content: Seq<char>, token: Seq<char> },
    OpenPullRequest { title: Seq<char>, head: Seq<char>, base: Seq<char>, body: Seq<char> },
    Finish,
    Abort(AdelieError),
}

impl View for Action {
    type V = ActionView;

    open spec fn view(&self) -> ActionView {
        match *self {
            Action::CreateBranch { branch, commit } => ActionView::CreateBranch {
                branch: branch@,
                commit: commit@,
            },
            Action::CommitFile { branch, message, content, token } => ActionView::CommitFile {
                branch: branch@,
                message: message@,
                content: content@,
                token: token@,
            },
            Action::OpenPullRequest { title, head, base, body } => ActionView::OpenPullRequest {
                title: title@,
                head: head@,
                base: base@,
                body: body@,
            },
            Action::Finish => ActionView::Finish,
            Action::Abort(e) => ActionView::Abort(e),
        }
    }
}

/// How far a run has come.
pub struct Progress {
    /// The pull requests opened so far, one per published candidate, in order.
    pub opened: Seq<PullRequestHandle>,
    /// The operation that is due for the candidate after those.
    pub stage: Stage,
    /// Why the run has ended, if it has failed.
    pub failure: Option<AdelieError>,
}

/// The branch that a change is published on.
pub open spec fn branch_name(package: Seq<char>, version: Seq<char>) -> Seq<char> {
    "u-"@ + package + "-"@ + version
}

/// The title of a change's pull request, which is its commit message too.
pub open spec fn pull_request_title(package: Seq<char>, version: Seq<char>) -> Seq<char> {
    "feat: update "@ + package + " -> v"@ + version
}

/// The text that every pull request carries.
pub open spec fn pull_request_body() -> Seq<char> {
    "Please be sure to test this change before merging!"@
}

/// The progress of a run that has not started.
pub open spec fn initial_progress() -> Progress {
    Progress { opened: Seq::empty(), stage: Stage::Branch, failure: None }
}

/// The progress after `event` answered the operation that was due.
///
/// A success moves on to the next operation, and from the pull request to the
/// next candidate. Anything else fails the run: a refused branch because the
/// name is taken, a refused commit because the file has changed, and every
/// other answer, one that does not fit the operation included, as a failure
/// of the platform. A run that has failed or finished does not move.
pub open spec fn after_event(total: nat, before: Progress, event: Event) -> Progress {
    if before.failure is Some || before.opened.len() >= total {
        before
    } else {
        match (before.stage, event) {
            (Stage::Branch, Event::Completed) => Progress { stage: Stage::Commit, ..before },
            (Stage::Commit, Event::Completed) => Progress { stage: Stage::PullRequest, ..before },
            (Stage::PullRequest, Event::Opened(handle)) => Progress {
                opened: before.opened.push(handle),
                stage: Stage::Branch,
                failure: None,
            },
            (Stage::Branch, Event::Refused) => Progress {
                failure: Some(AdelieError::RefExists),
                ..before
            },
            (Stage::Commit, Event::Refused) => Progress {
                failure: Some(AdelieError::Conflict),
                ..before
            },
            _ => Progress { failure: Some(AdelieError::HostingApi), ..before },
        }
    }
}

/// The progress after a whole sequence of answers.
pub open spec fn after_events(total: nat, before: Progress, events: Seq<Event>) -> Progress
    decreases events.len(),
{
    if events.len() == 0 {
        before
    } else {
        after_event(total, after_events(total, before, events.drop_last()), events.last())
    }
}

/// The operation that is due at `progress`.
pub open spec fn action_at(
    candidates: Seq<UpdateCandidate>,
    base: BaseState,
    progress: Progress,
) -> ActionView {
    if let Some(e) = progress.failure {
        ActionView::Abort(e)
    } else if progress.opened.len() >= candidates.len() {
        ActionView::Finish
    } else {
        let candidate = candidates[progress.opened.len() as int];
        let branch = branch_name(candidate.package_name@, candidate.new_version@);
        let title = pull_request_title(candidate.package_name@, candidate.new_version@);
        match progress.stage {
            Stage::Branch => ActionView::CreateBranch { branch, commit: base.base_commit@ },
            Stage::Commit => ActionView::CommitFile {
                branch,
                message: title,
                content: candidate.patched_document@,
                token: base.content_token@,
            },
            Stage::PullRequest => ActionView::OpenPullRequest {
                title,
                head: branch,
                base: base.base_branch@,
                body: pull_request_body(),
            },
        }
    }
}

/// Names the branch that a change is published on.
pub fn branch_name_for(package: &str, version: &str) -> (name: String)
    ensures
        name@ == branch_name(package@, version@),
{
    let mut name = String::from_str("u-");
    name.append(package);
    name.append("-");
    name.append(version);
    name
}

/// Writes the title of a change's pull request.
pub fn pull_request_title_for(package: &str, version: &str) -> (title: String)
    ensures
        title@ == pull_request_title(package@, version@),
{
    let mut title = String::from_str("feat: update ");
    title.append(package);
    title.append(" -> v");
    title.append(version);
    title
}

/// The publisher of one run.
pub struct Publisher {
    candidates: Vec<UpdateCandidate>,
    base: BaseState,
    opened: Vec<PullRequestHandle>,
    stage: Stage,
    failure: Option<AdelieError>,
}

impl Publisher {
    /// The candidates of the run, in the order in which they are published.
    pub closed spec fn candidates(&self) -> Seq<UpdateCandidate> {
        self.candidates@
    }

    /// The base state of the run.
    pub closed spec fn base(&self) -> BaseState {
        self.base
    }

    /// How far the run has come.
    pub closed spec fn progress(&self) -> Progress {
        Progress { opened: self.opened@, stage: self.stage, failure: self.failure }
    }

    /// The operation that is due.
    pub open spec fn due(&self) -> ActionView {
        action_at(self.candidates(), self.base(), self.progress())
    }

    /// Whether the run is over, one way or the other.
    pub open spec fn is_over(&self) -> bool {
        self.progress().failure is Some || self.progress().opened.len() >= self.candidates().len()
    }

    /// Starts a run on `candidates` against `base`.
    pub fn new(candidates: Vec<UpdateCandidate>, base: BaseState) -> (publisher: Publisher)
        ensures
            publisher.candidates() == candidates@,
            publisher.base() == base,
            publisher.progress() == initial_progress(),
    {
        Publisher { candidates, base, opened: Vec::new(), stage: Stage::Branch, failure: None }
    }

    /// Names the operation that is due.
    pub fn next_action(&self) -> (action: Action)
        ensures
            action@ == self.due(),
    {
        if let Some(e) = self.failure {
            return Action::Abort(e);
        }
        let position = self.opened.len();
        if position >= self.candidates.len() {
            return Action::Finish;
        }
        let candidate = &self.candidates[position];
        let branch = branch_name_for(
            candidate.package_name.as_str(),
            candidate.new_version.as_str(),
        );
        match self.stage {
            Stage::Branch => Action::CreateBranch { branch, commit: self.base.base_commit.clone() },
            Stage::Commit => Action::CommitFile {
                branch,
                message: pull_request_title_for(
                    candidate.package_name.as_str(),
                    candidate.new_version.as_str(),
                ),
                content: candidate.patched_document.clone(),
                token: self.base.content_token.clone(),
            },
            Stage::PullRequest => Action::OpenPullRequest {
                title: pull_request_title_for(
                    candidate.package_name.as_str(),
                    candidate.new_version.as_str(),
                ),
                head: branch,
                base: self.base.base_branch.clone(),
                body: String::from_str("Please be sure to test this change before merging!"),
            },
        }
    }

    /// Takes note of how the operation that was due went.
    pub fn record(&mut self, event: Event)
        ensures
            final(self).candidates() == old(self).candidates(),
            final(self).base() == old(self).base(),
            final(self).progress() == after_event(
                old(self).candidates().len(),
                old(self).progress(),
                event,
            ),
    {
        if self.failure.is_some() || self.opened.len() >= self.candidates.len() {
            return ;
        }
        match (self.stage, event) {
            (Stage::Branch, Event::Completed) => {
                self.stage = Stage::Commit;
            },
            (Stage::Commit, Event::Completed) => {
                self.stage = Stage::PullRequest;
            },
            (Stage::PullRequest, Event::Opened(handle)) => {
                self.opened.push(handle);
                self.stage = Stage::Branch;
            },
            (Stage::Branch, Event::Refused) => {
                self.failure = Some(AdelieError::RefExists);
            },
            (Stage::Commit, Event::Refused) => {
                self.failure = Some(AdelieError::Conflict);
            },
            _ => {
                self.failure = Some(AdelieError::HostingApi);
            },
        }
    }

    /// Tells whether the run is over.
    pub fn finished(&self) -> (over: bool)
        ensures
            over == self.is_over(),
    {
        self.failure.is_some() || self.opened.len() >= self.candidates.len()
    }

    /// The pull requests opened so far, or the failure that ended the run.
    pub fn outcome(&self) -> (r: Result<Vec<PullRequestHandle>, AdelieError>)
        ensures
            match r {
                Ok(opened) => self.progress().failure is None && opened@
                    == self.progress().opened,
                Err(e) => self.progress().failure == Some(e),
            },
    {
        match self.failure {
            Some(e) => Err(e),
            None => Ok(self.opened.clone()),
        }
    }
}

/// Once a run has failed it stays as it is, whatever is reported to it
/// afterwards, and asks for nothing more: no candidate after the failure is
/// ever attempted.
pub proof fn law_failure_ends_run(
    candidates: Seq<UpdateCandidate>,
    base: BaseState,
    progress: Progress,
    events: Seq<Event>,
)
    requires
        progress.failure is Some,
    ensures
        after_events(candidates.len(), progress, events) == progress,
        action_at(candidates, base, progress) == ActionView::Abort(progress.failure->Some_0),
    decreases events.len(),
{
    if events.len() > 0 {
        law_failure_ends_run(candidates, base, progress, events.drop_last());
    }
}

/// A commit that is refused, because the file is no longer the one that was
/// captured, fails the run with `Conflict`. No pull request is opened for the
/// candidate, and those opened before it stay.
pub proof fn law_refused_commit_is_conflict(total: nat, progress: Progress)
    requires
        progress.failure is None,
        progress.opened.len() < total,
        progress.stage == Stage::Commit,
    ensures
        after_event(total, progress, Event::Refused).failure == Some(AdelieError::Conflict),
        after_event(total, progress, Event::Refused).opened == progress.opened,
{
}

/// A branch that is refused, because its name is taken, fails the run with
/// `RefExists`.
pub proof fn law_refused_branch_is_ref_exists(total: nat, progress: Progress)
    requires
        progress.failure is None,
        progress.opened.len() < total,
        progress.stage == Stage::Branch,
    ensures
        after_event(total, progress, Event::Refused).failure == Some(AdelieError::RefExists),
        after_event(total, progress, Event::Refused).opened == progress.opened,
{
}

/// A run never holds more pull requests than it has candidates, and each
/// answer adds at most one.
pub proof fn law_one_pull_request_per_candidate(total: nat, events: Seq<Event>)
    ensures
        after_events(total, initial_progress(), events).opened.len() <= total,
        after_events(total, initial_progress(), events).opened.len() <= events.len(),
    decreases events.len(),
{
    if events.len() > 0 {
        law_one_pull_request_per_candidate(total, events.drop_last());
    }
}

/// The answers of a run in which every operation succeeds and the pull
/// requests come out as `handles`.
pub open spec fn successful_events(handles: Seq<PullRequestHandle>) -> Seq<Event>
    decreases handles.len(),
{
    if handles.len() == 0 {
        Seq::empty()
    } else {
        successful_events(handles.drop_last()).push(Event::Completed).push(Event::Completed).push(
            Event::Opened(handles.last()),
        )
    }
}

/// A run in which every operation succeeds publishes the candidates one after
/// the other: after the three operations of each of the first `n` candidates
/// it holds their `n` pull requests, in order, and is about to create the
/// branch of the next.
pub proof fn law_successful_run_publishes_in_order(total: nat, handles: Seq<PullRequestHandle>)
    requires
        handles.len() <= total,
    ensures
        after_events(total, initial_progress(), successful_events(handles)) == (Progress {
            opened: handles,
            stage: Stage::Branch,
            failure: None,
        }),
    decreases handles.len(),
{
    if handles.len() == 0 {
        assert(handles =~= Seq::<PullRequestHandle>::empty());
    } else {
        let before = handles.drop_last();
        law_successful_run_publishes_in_order(total, before);
        let start = initial_progress();
        let none = successful_events(before);
        let one = none.push(Event::Completed);
        let two = one.push(Event::Completed);
        let all = two.push(Event::Opened(handles.last()));
        assert(all == successful_events(handles));
        assert(one.drop_last() =~= none && two.drop_last() =~= one && all.drop_last() =~= two);
        assert(after_events(total, start, one).stage == Stage::Commit);
        assert(after_events(total, start, two).stage == Stage::PullRequest);
        assert(after_events(total, start, all).opened == before.push(handles.last()));
        assert(before.push(handles.last()) =~= handles);
    }
}

} // verus!

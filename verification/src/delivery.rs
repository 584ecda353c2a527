//! Getting what was rendered to a merge request: where to send it, and in
//! what order to send the comments.
//!
//! The sending itself is the caller's business. This module says what the
//! caller needs before it can send anything, and after each attempt tells it
//! what to do next.

use vstd::prelude::*;

verus! {

/// One of the values without which nothing can be sent.
#[derive(Clone, Copy, Debug, PartialEq, Eq, Structural)]
pub enum Setting {
    ApiUrl,
    ProjectId,
    MergeRequestId,
    UserToken,
}

impl Setting {
    /// The name of the environment variable that holds the value.
    pub open spec fn variable(self) -> Seq<char> {
        match self {
            Setting::ApiUrl => "CI_API_V4_URL"@,
            Setting::ProjectId => "CI_PROJECT_ID"@,
            Setting::MergeRequestId => "CI_MERGE_REQUEST_IID"@,
            Setting::UserToken => "GITLAB_USER_TOKEN"@,
        }
    }

    /// The name of the environment variable that holds the value.
    pub fn variable_name(&self) -> (r: &'static str)
        ensures
            r@ == self.variable(),
    {
        match self {
            Setting::ApiUrl => "CI_API_V4_URL",
            Setting::ProjectId => "CI_PROJECT_ID",
            Setting::MergeRequestId => "CI_MERGE_REQUEST_IID",
            Setting::UserToken => "GITLAB_USER_TOKEN",
        }
    }
}

/// A value without which nothing can be sent is not there.
#[derive(Clone, Copy, Debug, PartialEq, Eq, Structural)]
pub struct ConfigurationError {
    pub missing: Setting,
}

impl ConfigurationError {
    /// A sentence that names the missing value.
    pub fn to_text(&self) -> (r: String)
        ensures
            r@ == "missing configuration value: "@ + self.missing.variable(),
    {
        "missing configuration value: ".to_owned().concat(self.missing.variable_name())
    }
}

/// Where to send, and in whose name.
#[derive(Debug, PartialEq, Eq)]
pub struct GitlabConfig {
    pub base_url: String,
    pub project_id: String,
    pub merge_request_id: String,
    pub token: String,
}

/// What a [`GitlabConfig`] says.
pub ghost struct GitlabConfigModel {
    pub base_url: Seq<char>,
    pub project_id: Seq<char>,
    pub merge_request_id: Seq<char>,
    pub token: Seq<char>,
}

impl View for GitlabConfig {
    type V = GitlabConfigModel;

    open spec fn view(&self) -> GitlabConfigModel {
        GitlabConfigModel {
            base_url: self.base_url@,
            project_id: self.project_id@,
            merge_request_id: self.merge_request_id@,
            token: self.token@,
        }
    }
}

/// A text that may be absent, as what it says.
pub open spec fn said(text: Option<String>) -> Option<Seq<char>> {
    match text {
        Some(text) => Some(text@),
        None => None,
    }
}

impl GitlabConfigModel {
    /// The configuration that four values make, or the first of them that
    /// is missing, in the order in which they are given.
    pub open spec fn of(
        base_url: Option<Seq<char>>,
        project_id: Option<Seq<char>>,
        merge_request_id: Option<Seq<char>>,
        token: Option<Seq<char>>,
    ) -> Result<GitlabConfigModel, ConfigurationError> {
        if base_url is None {
            Err(ConfigurationError { missing: Setting::ApiUrl })
        } else if project_id is None {
            Err(ConfigurationError { missing: Setting::ProjectId })
        } else if merge_request_id is None {
            Err(ConfigurationError { missing: Setting::MergeRequestId })
        } else if token is None {
            Err(ConfigurationError { missing: Setting::UserToken })
        } else {
            Ok(
                GitlabConfigModel {
                    base_url: base_url->0,
                    project_id: project_id->0,
                    merge_request_id: merge_request_id->0,
                    token: token->0,
                },
            )
        }
    }

    /// The address of a resource of the merge request.
    pub open spec fn endpoint(self, resource: Seq<char>) -> Seq<char> {
        self.base_url + "/projects/"@ + self.project_id + "/merge_requests/"@
            + self.merge_request_id + "/"@ + resource
    }
}

impl GitlabConfig {
    /// Makes a configuration of the four values it needs, each as it was
    /// found or not found.
    pub fn from_values(
        base_url: Option<String>,
        project_id: Option<String>,
        merge_request_id: Option<String>,
        token: Option<String>,
    ) -> (r: Result<GitlabConfig, ConfigurationError>)
        ensures
            match r {
                Ok(config) => GitlabConfigModel::of(
                    said(base_url),
                    said(project_id),
                    said(merge_request_id),
                    said(token),
                ) == Ok::<GitlabConfigModel, ConfigurationError>(config@),
                Err(fault) => GitlabConfigModel::of(
                    said(base_url),
                    said(project_id),
                    said(merge_request_id),
                    said(token),
                ) == Err::<GitlabConfigModel, ConfigurationError>(fault),
            },
    {
        let base_url = match base_url {
            Some(value) => value,
            None => { return Err(ConfigurationError { missing: Setting::ApiUrl }); },
        };
        let project_id = match project_id {
            Some(value) => value,
            None => { return Err(ConfigurationError { missing: Setting::ProjectId }); },
        };
        let merge_request_id = match merge_request_id {
            Some(value) => value,
            None => { return Err(ConfigurationError { missing: Setting::MergeRequestId }); },
        };
        let token = match token {
            Some(value) => value,
            None => { return Err(ConfigurationError { missing: Setting::UserToken }); },
        };
        Ok(GitlabConfig { base_url, project_id, merge_request_id, token })
    }

    /// The address of a resource of the merge request, such as its `notes`.
    pub fn endpoint(&self, resource: &str) -> (r: String)
        ensures
            r@ == self@.endpoint(resource@),
    {
        let mut address = self.base_url.clone();
        address.append("/projects/");
        address.append(self.project_id.as_str());
        address.append("/merge_requests/");
        address.append(self.merge_request_id.as_str());
        address.append("/");
        address.append(resource);
        address
    }
}

/// How the last attempt to send a comment ended.
#[derive(Clone, Copy, Debug, PartialEq, Eq, Structural)]
pub enum Delivery {
    Delivered,
    Failed,
}

/// What to do next.
#[derive(Clone, Copy, Debug, PartialEq, Eq, Structural)]
pub enum Step {
    /// Send the comment at this place of the list.
    Send(usize),
    /// Every comment has been sent.
    Finished,
    /// Sending the comment at this place failed; nothing more is sent.
    Aborted(usize),
}

/// The progress of sending a list of comments one by one, in order, and
/// giving up at the first that fails.
#[derive(Clone, Copy, Debug, PartialEq, Eq, Structural)]
pub struct Submission {
    pub total: usize,
    pub sent: usize,
    pub failed: bool,
}

impl Submission {
    /// A submission is in order while it has sent no more than there is,
    /// and, where it has failed, has not sent all.
    pub open spec fn wf(self) -> bool {
        self.sent <= self.total && (self.failed ==> self.sent < self.total)
    }

    /// What to do next.
    pub open spec fn next(self) -> Step {
        if self.failed {
            Step::Aborted(self.sent)
        } else if self.sent < self.total {
            Step::Send(self.sent)
        } else {
            Step::Finished
        }
    }

    /// The submission after an attempt to send ended as `outcome`. A
    /// submission that has nothing to send is left as it is.
    pub open spec fn after(self, outcome: Delivery) -> Submission {
        match self.next() {
            Step::Send(_) => match outcome {
                Delivery::Delivered => Submission { sent: (self.sent + 1) as usize, ..self },
                Delivery::Failed => Submission { failed: true, ..self },
            },
            _ => self,
        }
    }

    /// The submission after a run of attempts, the first of them first.
    pub open spec fn after_all(self, outcomes: Seq<Delivery>) -> Submission
        decreases outcomes.len(),
    {
        if outcomes.len() == 0 {
            self
        } else {
            self.after_all(outcomes.drop_last()).after(outcomes.last())
        }
    }

    /// Starts on a list of `total` comments.
    pub fn start(total: usize) -> (r: Submission)
        ensures
            r == (Submission { total, sent: 0, failed: false }),
            r.wf(),
    {
        Submission { total, sent: 0, failed: false }
    }

    /// Tells what to do next.
    pub fn next_step(&self) -> (r: Step)
        ensures
            r == self.next(),
    {
        if self.failed {
            Step::Aborted(self.sent)
        } else if self.sent < self.total {
            Step::Send(self.sent)
        } else {
            Step::Finished
        }
    }

    /// Takes note of how the attempt ended that [`Submission::next_step`]
    /// asked for.
    pub fn record(&mut self, outcome: Delivery)
        ensures
            *final(self) == old(self).after(outcome),
            old(self).wf() ==> final(self).wf(),
    {
        if !self.failed && self.sent < self.total {
            match outcome {
                Delivery::Delivered => {
                    self.sent = self.sent + 1;
                },
                Delivery::Failed => {
                    self.failed = true;
                },
            }
        }
    }
}

/// However the attempts end, a submission stays in order, sends the
/// comments in the order of the list without leaving one out or sending one
/// twice, and sends nothing after a failure: before the first failure among
/// the outcomes it has sent as many as were delivered, and from the first
/// failure on it stands still at the comment that failed.
pub proof fn lemma_submission_is_sequential_and_fail_fast(total: usize, outcomes: Seq<Delivery>)
    ensures
        ({
            let start = Submission { total, sent: 0, failed: false };
            let end = start.after_all(outcomes);
            &&& end.wf()
            &&& end.total == total
            &&& end.sent <= outcomes.len()
            &&& (forall|i: int| 0 <= i < outcomes.len() ==> outcomes[i] == Delivery::Delivered)
                ==> !end.failed && end.sent == if outcomes.len() <= total {
                outcomes.len()
            } else {
                total as nat
            }
            &&& forall|i: int|
                0 <= i < outcomes.len() && i < total && outcomes[i] == Delivery::Failed && (forall|
                    j: int,
                | 0 <= j < i ==> outcomes[j] == Delivery::Delivered) ==> end.failed && end.sent == i
                    && end.next() == Step::Aborted(i as usize)
        }),
    decreases outcomes.len(),
{
    if outcomes.len() > 0 {
        let front = outcomes.drop_last();
        lemma_submission_is_sequential_and_fail_fast(total, front);
        let start = Submission { total, sent: 0, failed: false };
        let before = start.after_all(front);
        let end = start.after_all(outcomes);
        assert(end == before.after(outcomes.last()));
        if forall|i: int| 0 <= i < outcomes.len() ==> outcomes[i] == Delivery::Delivered {
            assert forall|i: int| 0 <= i < front.len() implies front[i] == Delivery::Delivered by {
                assert(front[i] == outcomes[i]);
            }
        }
        assert forall|i: int|
            0 <= i < outcomes.len() && i < total && outcomes[i] == Delivery::Failed && (forall|
                j: int,
            | 0 <= j < i ==> outcomes[j] == Delivery::Delivered) implies end.failed && end.sent == i
            && end.next() == Step::Aborted(i as usize) by {
            if i < front.len() {
                assert(front[i] == outcomes[i]);
                assert forall|j: int| 0 <= j < i implies front[j] == Delivery::Delivered by {
                    assert(front[j] == outcomes[j]);
                }
            } else {
                assert forall|j: int| 0 <= j < front.len() implies front[j]
                    == Delivery::Delivered by {
                    assert(front[j] == outcomes[j]);
                }
            }
        }
    }
}

} // verus!

use vstd::prelude::*;
use vstd::string::*;
use crate::error::{EngineError, EngineErrorCause};
use crate::readiness::{poll_decision, JobStatus, PollDecision, RetryPolicy};
use crate::service::{copy_variables, name_with_id, release_name, EngineContext, EnvironmentVariable, ExternalService, Timeout};
use crate::target::{Cluster, DeploymentTarget, Environment};
use crate::template_context::{
    context_records, context_text, env_records, image_reference, no_registry_warning,
    short_commit_message, ChartValues, VERSION_TAG_LEN,
};

verus! {

/// The latest entry of a release's deployment history.
#[derive(Clone, Copy, Debug, PartialEq, Eq)]
pub struct HistoryRecord {
    pub successfully_deployed: bool,
}

/// Whether two strings hold the same characters.
fn same_text(a: &str, b: &str) -> (r: bool)
    ensures
        r == (a@ == b@),
{
    let n = a.unicode_len();
    if n != b.unicode_len() {
        return false;
    }
    let mut i: usize = 0;
    while i < n
        invariant
            n == a@.len(),
            n == b@.len(),
            i <= n,
            a@.subrange(0, i as int) == b@.subrange(0, i as int),
        decreases n - i,
    {
        if a.get_char(i) != b.get_char(i) {
            return false;
        }
        assert(a@.subrange(0, i + 1) =~= a@.subrange(0, i as int).push(a@[i as int]));
        assert(b@.subrange(0, i + 1) =~= b@.subrange(0, i as int).push(b@[i as int]));
        i = i + 1;
    }
    assert(a@ =~= a@.subrange(0, n as int));
    assert(b@ =~= b@.subrange(0, n as int));
    true
}

impl HistoryRecord {
    /// The record of a revision from the status the chart manager gives it:
    /// only `deployed` is a successful deployment.
    pub fn from_status(status: &str) -> (r: HistoryRecord)
        ensures
            r.successfully_deployed == (status@ == "deployed"@),
    {
        HistoryRecord { successfully_deployed: same_text(status, "deployed") }
    }

    pub fn is_successfully_deployed(&self) -> (r: bool)
        ensures
            r == self.successfully_deployed,
    {
        self.successfully_deployed
    }
}

/// A chart apply succeeded when its latest history record exists and says so.
pub open spec fn chart_deployed(history: Option<HistoryRecord>) -> bool {
    history matches Some(h) && h.successfully_deployed
}

/// Render the chart templates of `from_dir` into `workspace_dir` with `values`.
pub struct RenderRequest {
    pub from_dir: String,
    pub workspace_dir: String,
    pub values: ChartValues,
}

/// Install or upgrade `release_name` from the rendered chart, then read its history.
#[derive(Clone, Debug, PartialEq, Eq)]
pub struct ChartRequest {
    pub kubernetes_config_file_path: String,
    pub namespace: String,
    pub release_name: String,
    pub chart_dir: String,
    pub timeout: Timeout,
    pub credentials: Vec<EnvironmentVariable>,
}

/// Ask the cluster whether the job `job_name` completed.
#[derive(Clone, Debug, PartialEq, Eq)]
pub struct JobRequest {
    pub kubernetes_config_file_path: String,
    pub namespace: String,
    pub job_name: String,
    pub credentials: Vec<EnvironmentVariable>,
}

/// Remove the release of a stateless service. `is_error` only makes the
/// reporting more verbose.
#[derive(Clone, Debug, PartialEq, Eq)]
pub struct RemovalRequest {
    pub kubernetes_config_file_path: String,
    pub namespace: String,
    pub release_name: String,
    pub credentials: Vec<EnvironmentVariable>,
    pub is_error: bool,
}

/// How a removal ended.
#[derive(Clone, Debug, PartialEq, Eq)]
pub enum RemovalOutcome {
    Removed,
    AlreadyAbsent,
    Failed(String),
}

/// Where a create operation stands.
#[derive(Clone, Copy, Debug, PartialEq, Eq)]
pub enum CreateState {
    Start,
    Rendering,
    Applying,
    /// The job has been queried `attempts` times.
    Polling { attempts: u32 },
    Finished,
}

/// What the caller reports back.
#[derive(Debug, PartialEq, Eq)]
pub enum CreateEvent {
    Begin,
    Rendered(Result<(), String>),
    ChartApplied(Result<Option<HistoryRecord>, String>),
    JobPolled(JobStatus),
}

/// What the caller does next.
pub enum CreateAction {
    Render(RenderRequest),
    ApplyChart(ChartRequest),
    PollJob { request: JobRequest, delay_secs: u64 },
    Finish(Result<(), EngineError>),
}

pub open spec fn start_failure_hint() -> Seq<char> {
    "Your External Service didn't start for some reason. Are you sure your External Service is correctly running? You can give a try by running locally `docker run`. You can also check the External Service log from the web interface or the CLI with `qovery log`"@
}

pub open spec fn failed_to_start_message(name: Seq<char>, id: Seq<char>) -> Seq<char> {
    "External Service "@ + name_with_id(name, id) + " has failed to start ⤬"@
}

pub open spec fn retries_message(name: Seq<char>, id: Seq<char>) -> Seq<char> {
    "External Service "@ + name + " with id "@ + id + " failed to start after several retries"@
}

pub open spec fn unexpected_event_message() -> Seq<char> {
    "unexpected event for the current step of the create operation"@
}

/// Directory of the chart templates of a job.
pub open spec fn job_template_dir(ctx: EngineContext) -> Seq<char> {
    ctx.lib_root_dir@ + "/common/services/q-job"@
}

/// Directory this execution renders the service's chart into.
pub open spec fn workspace_directory(ctx: EngineContext, name: Seq<char>) -> Seq<char> {
    ctx.workspace_root_dir@ + "/"@ + ctx.execution_id@ + "/external-service/"@ + name
}

/// A removal that found nothing to remove succeeds as one that removed the release.
pub open spec fn removal_succeeds(outcome: RemovalOutcome) -> bool {
    !(outcome is Failed)
}

impl ExternalService {
    /// `e` is an error of this service with this cause and message.
    pub open spec fn is_error(&self, e: EngineError, cause: EngineErrorCause, message: Seq<char>) -> bool {
        &&& e.cause == cause
        &&& e.scope.names(self.spec_id(), self.spec_name())
        &&& e.execution_id@ == self.spec_context().execution_id@
        &&& e.message matches Some(m) && m@ == message
    }

    pub open spec fn are_chart_values(&self, target: DeploymentTarget, v: ChartValues) -> bool {
        &&& context_text(v.context) == self.spec_chart_text(
            target.spec_cluster(),
            target.spec_environment(),
            target.spec_mode(),
        )
        &&& context_records(v.context) == map![
            "environment_variables"@ => env_records(self.spec_environment_variables()),
        ]
        &&& self.spec_image().registry_url is None ==> v.warnings@.len() == 1
            && v.warnings@[0]@ == no_registry_warning(self.spec_image())
        &&& self.spec_image().registry_url is Some ==> v.warnings@.len() == 0
    }

    pub open spec fn is_chart_request(&self, target: DeploymentTarget, r: ChartRequest) -> bool {
        &&& r.kubernetes_config_file_path == target.spec_cluster().config_file_path
        &&& r.namespace == target.spec_environment().namespace
        &&& r.release_name@ == release_name(self.spec_name(), self.spec_id())
        &&& r.chart_dir@ == workspace_directory(self.spec_context(), self.spec_name())
        &&& r.timeout == Timeout::Default
        &&& r.credentials@ == target.spec_cluster().credentials@
    }

    pub open spec fn is_job_request(&self, target: DeploymentTarget, r: JobRequest) -> bool {
        &&& r.kubernetes_config_file_path == target.spec_cluster().config_file_path
        &&& r.namespace == target.spec_environment().namespace
        &&& r.job_name@ == self.spec_name()
        &&& r.credentials@ == target.spec_cluster().credentials@
    }

    pub open spec fn is_removal_request(
        &self,
        target: DeploymentTarget,
        r: RemovalRequest,
        is_error: bool,
    ) -> bool {
        &&& r.kubernetes_config_file_path == target.spec_cluster().config_file_path
        &&& r.namespace == target.spec_environment().namespace
        &&& r.release_name@ == release_name(self.spec_name(), self.spec_id())
        &&& r.credentials@ == target.spec_cluster().credentials@
        &&& r.is_error == is_error
    }

    pub fn workspace_directory(&self) -> (r: String)
        ensures
            r@ == workspace_directory(self.spec_context(), self.spec_name()),
    {
        let ctx = self.context();
        let mut r = ctx.workspace_root_dir.clone();
        r.append("/");
        r.append(ctx.execution_id.as_str());
        r.append("/external-service/");
        r.append(self.name());
        r
    }

    /// The create operation ended with an error of this service.
    pub open spec fn finishes_with_error(
        &self,
        r: (CreateState, CreateAction),
        cause: EngineErrorCause,
        message: Seq<char>,
    ) -> bool {
        &&& r.0 is Finished
        &&& r.1 matches CreateAction::Finish(Err(e)) && self.is_error(e, cause, message)
    }

    /// The create operation ended with a user-caused error carrying the start hint.
    pub open spec fn finishes_with_start_failure(&self, r: (CreateState, CreateAction)) -> bool {
        &&& r.0 is Finished
        &&& r.1 matches CreateAction::Finish(Err(e)) && {
            &&& e.cause matches EngineErrorCause::User(h) && h@ == start_failure_hint()
            &&& e.scope.names(self.spec_id(), self.spec_name())
            &&& e.execution_id@ == self.spec_context().execution_id@
            &&& e.message matches Some(m) && m@ == failed_to_start_message(
                self.spec_name(),
                self.spec_id(),
            )
        }
    }

    pub open spec fn polls_job(
        &self,
        target: DeploymentTarget,
        r: (CreateState, CreateAction),
        attempts: int,
        delay: u64,
    ) -> bool {
        &&& r.0 == CreateState::Polling { attempts: attempts as u32 }
        &&& r.1 matches CreateAction::PollJob { request, delay_secs } && delay_secs == delay
            && self.is_job_request(target, request)
    }

    fn chart_request(&self, target: &DeploymentTarget) -> (r: ChartRequest)
        ensures
            self.is_chart_request(*target, r),
    {
        let (cluster, environment, _) = target.resolve();
        ChartRequest {
            kubernetes_config_file_path: cluster.config_file_path.clone(),
            namespace: environment.namespace.clone(),
            release_name: self.helm_release_name(),
            chart_dir: self.workspace_directory(),
            timeout: Timeout::Default,
            credentials: copy_variables(&cluster.credentials),
        }
    }

    fn job_request(&self, target: &DeploymentTarget) -> (r: JobRequest)
        ensures
            self.is_job_request(*target, r),
    {
        let (cluster, environment, _) = target.resolve();
        JobRequest {
            kubernetes_config_file_path: cluster.config_file_path.clone(),
            namespace: environment.namespace.clone(),
            job_name: String::from_str(self.name()),
            credentials: copy_variables(&cluster.credentials),
        }
    }

    fn removal_request(&self, target: &DeploymentTarget, is_error: bool) -> (r: RemovalRequest)
        ensures
            self.is_removal_request(*target, r, is_error),
    {
        let (cluster, environment, _) = target.resolve();
        RemovalRequest {
            kubernetes_config_file_path: cluster.config_file_path.clone(),
            namespace: environment.namespace.clone(),
            release_name: self.helm_release_name(),
            credentials: copy_variables(&cluster.credentials),
            is_error,
        }
    }

    fn internal_failure(&self, message: String) -> (r: (CreateState, CreateAction))
        ensures
            self.finishes_with_error(r, EngineErrorCause::Internal, message@),
    {
        (CreateState::Finished, CreateAction::Finish(Err(self.engine_error(EngineErrorCause::Internal, message))))
    }

    fn unexpected_event(&self) -> (r: (CreateState, CreateAction))
        ensures
            self.finishes_with_error(r, EngineErrorCause::Internal, unexpected_event_message()),
    {
        self.internal_failure(
            String::from_str("unexpected event for the current step of the create operation"),
        )
    }

    /// One step of the create operation: from where it stands and what the
    /// caller reports, where it goes and what the caller does next.
    ///
    /// `Begin` builds the chart values and asks for a render; a rendered
    /// chart is applied; an applied chart whose latest history record says it
    /// deployed leads to polling the job, as `policy` allows; the operation
    /// succeeds only on a ready job. A chart that did not deploy is the
    /// user's failure; a short commit id, a failed render or tool run, and a
    /// job that never became ready are internal ones. An event that does not
    /// belong to the current step ends the operation with an internal error.
    pub fn on_create_step(
        &self,
        target: &DeploymentTarget,
        policy: &RetryPolicy,
        state: CreateState,
        event: CreateEvent,
    ) -> (r: (CreateState, CreateAction))
        ensures
            match (state, event) {
                (CreateState::Start, CreateEvent::Begin) => if self.spec_image().commit_id@.len()
                    < VERSION_TAG_LEN {
                    self.finishes_with_error(
                        r,
                        EngineErrorCause::Internal,
                        short_commit_message(self.spec_image().commit_id@),
                    )
                } else {
                    &&& r.0 is Rendering
                    &&& r.1 matches CreateAction::Render(req) && {
                        &&& req.from_dir@ == job_template_dir(self.spec_context())
                        &&& req.workspace_dir@ == workspace_directory(
                            self.spec_context(),
                            self.spec_name(),
                        )
                        &&& self.are_chart_values(*target, req.values)
                    }
                },
                (CreateState::Rendering, CreateEvent::Rendered(Ok(()))) => {
                    &&& r.0 is Applying
                    &&& r.1 matches CreateAction::ApplyChart(req) && self.is_chart_request(
                        *target,
                        req,
                    )
                },
                (CreateState::Rendering, CreateEvent::Rendered(Err(m))) => self.finishes_with_error(
                    r,
                    EngineErrorCause::Internal,
                    m@,
                ),
                (CreateState::Applying, CreateEvent::ChartApplied(Err(m))) => self.finishes_with_error(
                    r,
                    EngineErrorCause::Internal,
                    m@,
                ),
                (CreateState::Applying, CreateEvent::ChartApplied(Ok(h))) => if chart_deployed(h) {
                    self.polls_job(*target, r, 1, 0)
                } else {
                    self.finishes_with_start_failure(r)
                },
                (CreateState::Polling { attempts }, CreateEvent::JobPolled(status)) => match poll_decision(
                    *policy,
                    attempts,
                    status,
                ) {
                    PollDecision::Ready => r.0 is Finished && r.1 matches CreateAction::Finish(Ok(())),
                    PollDecision::RetryAfter(d) => self.polls_job(*target, r, attempts + 1, d),
                    PollDecision::GiveUp => self.finishes_with_error(
                        r,
                        EngineErrorCause::Internal,
                        retries_message(self.spec_name(), self.spec_id()),
                    ),
                },
                _ => self.finishes_with_error(
                    r,
                    EngineErrorCause::Internal,
                    unexpected_event_message(),
                ),
            },
    {
        match state {
            CreateState::Start => match event {
                CreateEvent::Begin => {
                    let (cluster, environment, mode) = target.resolve();
                    match self.chart_context(cluster, environment, mode) {
                        Err(e) => (CreateState::Finished, CreateAction::Finish(Err(e))),
                        Ok(values) => {
                            let mut from_dir = self.context().lib_root_dir.clone();
                            from_dir.append("/common/services/q-job");
                            let workspace_dir = self.workspace_directory();
                            (
                                CreateState::Rendering,
                                CreateAction::Render(RenderRequest { from_dir, workspace_dir, values }),
                            )
                        },
                    }
                },
                _ => self.unexpected_event(),
            },
            CreateState::Rendering => match event {
                CreateEvent::Rendered(Ok(())) => (
                    CreateState::Applying,
                    CreateAction::ApplyChart(self.chart_request(target)),
                ),
                CreateEvent::Rendered(Err(m)) => self.internal_failure(m),
                _ => self.unexpected_event(),
            },
            CreateState::Applying => match event {
                CreateEvent::ChartApplied(Err(m)) => self.internal_failure(m),
                CreateEvent::ChartApplied(Ok(history)) => {
                    let deployed = match &history {
                        Some(h) => h.is_successfully_deployed(),
                        None => false,
                    };
                    if deployed {
                        (
                            CreateState::Polling { attempts: 1 },
                            CreateAction::PollJob { request: self.job_request(target), delay_secs: 0 },
                        )
                    } else {
                        let mut message = String::from_str("External Service ");
                        let nid = self.name_with_id();
                        message.append(nid.as_str());
                        message.append(" has failed to start ⤬");
                        let hint = String::from_str(
                            "Your External Service didn't start for some reason. Are you sure your External Service is correctly running? You can give a try by running locally `docker run`. You can also check the External Service log from the web interface or the CLI with `qovery log`",
                        );
                        (
                            CreateState::Finished,
                            CreateAction::Finish(
                                Err(self.engine_error(EngineErrorCause::User(hint), message)),
                            ),
                        )
                    }
                },
                _ => self.unexpected_event(),
            },
            CreateState::Polling { attempts } => match event {
                CreateEvent::JobPolled(status) => match policy.next(attempts, &status) {
                    PollDecision::Ready => (CreateState::Finished, CreateAction::Finish(Ok(()))),
                    PollDecision::RetryAfter(d) => (
                        CreateState::Polling { attempts: attempts + 1 },
                        CreateAction::PollJob { request: self.job_request(target), delay_secs: d },
                    ),
                    PollDecision::GiveUp => {
                        let mut message = String::from_str("External Service ");
                        message.append(self.name());
                        message.append(" with id ");
                        message.append(self.id());
                        message.append(" failed to start after several retries");
                        self.internal_failure(message)
                    },
                },
                _ => self.unexpected_event(),
            },
            CreateState::Finished => self.unexpected_event(),
        }
    }

    /// No extra validation before a create.
    pub fn on_create_check(&self) -> (r: Result<(), EngineError>)
        ensures
            r is Ok,
    {
        Ok(())
    }

    /// Cleanup after a failed create: the release is removed, verbosely.
    pub fn on_create_error(&self, target: &DeploymentTarget) -> (r: RemovalRequest)
        ensures
            self.is_removal_request(*target, r, true),
    {
        self.removal_request(target, true)
    }

    /// A pause removes the release; the image it came from is kept elsewhere.
    pub fn on_pause(&self, target: &DeploymentTarget) -> (r: RemovalRequest)
        ensures
            self.is_removal_request(*target, r, false),
    {
        self.removal_request(target, false)
    }

    pub fn on_pause_check(&self) -> (r: Result<(), EngineError>)
        ensures
            r is Ok,
    {
        Ok(())
    }

    pub fn on_pause_error(&self, target: &DeploymentTarget) -> (r: RemovalRequest)
        ensures
            self.is_removal_request(*target, r, true),
    {
        self.removal_request(target, true)
    }

    pub fn on_delete(&self, target: &DeploymentTarget) -> (r: RemovalRequest)
        ensures
            self.is_removal_request(*target, r, false),
    {
        self.removal_request(target, false)
    }

    pub fn on_delete_check(&self) -> (r: Result<(), EngineError>)
        ensures
            r is Ok,
    {
        Ok(())
    }

    pub fn on_delete_error(&self, target: &DeploymentTarget) -> (r: RemovalRequest)
        ensures
            self.is_removal_request(*target, r, true),
    {
        self.removal_request(target, true)
    }

    /// The result of a removal: a release that was already gone counts as
    /// removed; a failed removal is an internal error with the tool's message.
    pub fn on_removed(&self, outcome: RemovalOutcome) -> (r: Result<(), EngineError>)
        ensures
            r is Ok <==> removal_succeeds(outcome),
            outcome matches RemovalOutcome::Failed(m) ==> r matches Err(e) && self.is_error(
                e,
                EngineErrorCause::Internal,
                m@,
            ),
    {
        match outcome {
            RemovalOutcome::Removed => Ok(()),
            RemovalOutcome::AlreadyAbsent => Ok(()),
            RemovalOutcome::Failed(m) => Err(self.engine_error(EngineErrorCause::Internal, m)),
        }
    }
}

/// Deleting twice: every removal request of a service on a target addresses
/// the same release, whatever hook issued it, and the second removal, which
/// finds nothing, succeeds as the first did when it removed the release.
pub proof fn lemma_removal_idempotent(
    svc: ExternalService,
    target: DeploymentTarget,
    first: RemovalRequest,
    first_is_error: bool,
    second: RemovalRequest,
    second_is_error: bool,
)
    requires
        svc.is_removal_request(target, first, first_is_error),
        svc.is_removal_request(target, second, second_is_error),
    ensures
        removal_succeeds(RemovalOutcome::AlreadyAbsent) == removal_succeeds(RemovalOutcome::Removed),
        removal_succeeds(RemovalOutcome::AlreadyAbsent),
        first.release_name@ == second.release_name@,
        first.namespace == second.namespace,
        first.kubernetes_config_file_path == second.kubernetes_config_file_path,
{
}

} // verus!

use vstd::prelude::*;

use crate::locator::{file_name_of, ImportJob, ImportSource};
use crate::status::ImportJobStatus;
use crate::store::{spec_apply, ApplyError, JobStore, StatusUpdate};

verus! {

/// Category of a registered model.
#[derive(Debug, Clone, Copy, PartialEq, Eq, Structural)]
pub enum ModelType {
    Completion,
}

/// Runtime a registered model is built for.
#[derive(Debug, Clone, Copy, PartialEq, Eq, Structural)]
pub enum Runtime {
    Ggml,
}

impl ModelType {
    /// The name the registry stores.
    pub fn as_str(&self) -> (r: String)
        ensures
            r@ == "completion"@,
    {
        match self {
            ModelType::Completion => "completion".to_owned(),
        }
    }

    /// Reads a stored name; an unknown name gives `None`.
    pub fn parse(s: &str) -> (r: Option<ModelType>)
        ensures
            s@ == "completion"@ ==> r == Some(ModelType::Completion),
            s@ != "completion"@ ==> r is None,
    {
        if s.to_owned() == "completion".to_owned() {
            Some(ModelType::Completion)
        } else {
            None
        }
    }
}

impl Runtime {
    /// The name the registry stores.
    pub fn as_str(&self) -> (r: String)
        ensures
            r@ == "ggml"@,
    {
        match self {
            Runtime::Ggml => "ggml".to_owned(),
        }
    }

    /// Reads a stored name; an unknown name gives `None`.
    pub fn parse(s: &str) -> (r: Option<Runtime>)
        ensures
            s@ == "ggml"@ ==> r == Some(Runtime::Ggml),
            s@ != "ggml"@ ==> r is None,
    {
        if s.to_owned() == "ggml".to_owned() {
            Some(Runtime::Ggml)
        } else {
            None
        }
    }
}

/// A `major.minor.patch` version number.
#[derive(Debug, Clone, Copy, PartialEq, Eq, Structural)]
pub struct SemanticVersion {
    pub major: u64,
    pub minor: u64,
    pub patch: u64,
}

/// The version under which a freshly imported model is registered.
pub open spec fn initial_version() -> SemanticVersion {
    SemanticVersion { major: 0, minor: 1, patch: 0 }
}

/// Parameters of a completion model: where its weights are.
#[derive(Debug, PartialEq, Eq)]
pub struct CompletionModelParams {
    pub model_path: String,
}

/// Runtime parameters stored with a model version.
#[derive(Debug, PartialEq, Eq)]
pub enum ModelParams {
    COMPLETION(CompletionModelParams),
}

/// Where and when a model version was imported from.
#[derive(Debug, PartialEq, Eq)]
pub struct ImportMetadata {
    /// Nanoseconds since the Unix epoch, UTC.
    pub imported_at_unix_nanos: i128,
    pub source: ImportSource,
}

/// A request to record a model version in the registry.
#[derive(Debug, PartialEq, Eq)]
pub struct RegisterModelRequest {
    pub model: String,
    pub version: SemanticVersion,
    pub model_type: ModelType,
    pub runtime: Runtime,
    pub import_metadata: ImportMetadata,
    pub internal_params: ModelParams,
}

/// Relies on `time::OffsetDateTime::now_utc` and
/// `OffsetDateTime::unix_timestamp_nanos`: the current time in nanoseconds since
/// the Unix epoch.
#[verifier::external_body]
fn now_unix_nanos() -> (r: i128) {
    time::OffsetDateTime::now_utc().unix_timestamp_nanos()
}

/// The path a `Completed` status reports, if any.
pub open spec fn completed_path(status: ImportJobStatus) -> Option<Seq<char>> {
    match status {
        ImportJobStatus::Completed { info: Some(path) } => Some(path@),
        _ => None,
    }
}

/// `req` registers the artifact of `task` found at `path`: named by the file
/// name of the task's artifact path, version 0.1.0, a GGML completion model.
pub open spec fn is_registration(req: RegisterModelRequest, task: ImportJob, path: Seq<char>) -> bool {
    &&& file_name_of(task.artifact_path()) == Some(req.model@)
    &&& req.version == initial_version()
    &&& req.model_type == ModelType::Completion
    &&& req.runtime == Runtime::Ggml
    &&& req.import_metadata.source == task.spec_source()
    &&& req.internal_params matches ModelParams::COMPLETION(p) && p.model_path@ == path
}

/// The registration of the artifact of `task`, fetched to `path`, under the
/// model name `name`, stamped `imported_at_unix_nanos`.
pub fn build_registration(
    task: &ImportJob,
    name: String,
    path: String,
    imported_at_unix_nanos: i128,
) -> (r: RegisterModelRequest)
    ensures
        r.model == name,
        r.version == initial_version(),
        r.model_type == ModelType::Completion,
        r.runtime == Runtime::Ggml,
        r.import_metadata == (ImportMetadata { imported_at_unix_nanos, source: task.spec_source() }),
        r.internal_params == ModelParams::COMPLETION(CompletionModelParams { model_path: path }),
{
    RegisterModelRequest {
        model: name,
        version: SemanticVersion { major: 0, minor: 1, patch: 0 },
        model_type: ModelType::Completion,
        runtime: Runtime::Ggml,
        import_metadata: ImportMetadata { imported_at_unix_nanos, source: task.source() },
        internal_params: ModelParams::COMPLETION(CompletionModelParams { model_path: path }),
    }
}

/// Builds the registration of a fetched artifact, named by the file name of the
/// job's artifact path. There is none without a path or without a file name.
pub fn registration_request(task: &ImportJob, info: &Option<String>, imported_at_unix_nanos: i128) -> (r:
    Option<RegisterModelRequest>)
    ensures
        match r {
            Some(req) => {
                &&& info matches Some(path) && is_registration(req, *task, path@)
                &&& req.import_metadata.imported_at_unix_nanos == imported_at_unix_nanos
            },
            None => info is None || !task.is_valid(),
        },
{
    let path = match info {
        Some(path) => path.clone(),
        None => {
            return None;
        },
    };
    match task.model_name() {
        Ok(name) => Some(build_registration(task, name, path, imported_at_unix_nanos)),
        Err(_) => None,
    }
}

/// One step of the status-apply loop: applies a worker's report to the table
/// and, when it completes a job, gives the registration to hand to the registry.
pub fn apply_update(store: &mut JobStore, update: StatusUpdate) -> (r: Result<
    Option<RegisterModelRequest>,
    ApplyError,
>)
    requires
        old(store).wf(),
    ensures
        final(store).wf(),
        final(store)@ == spec_apply(old(store)@, update),
        !old(store)@.contains_key(update.job) ==> r == Err::<Option<RegisterModelRequest>, ApplyError>(
            ApplyError::UnknownJob,
        ),
        old(store)@.contains_key(update.job) && !old(store)@[update.job].status.spec_can_become(
            update.status,
        ) ==> r == Err::<Option<RegisterModelRequest>, ApplyError>(ApplyError::IllegalTransition),
        old(store)@.contains_key(update.job) && old(store)@[update.job].status.spec_can_become(
            update.status,
        ) ==> r is Ok,
        r matches Ok(Some(req)) ==> completed_path(update.status) matches Some(path) && is_registration(
            req,
            old(store)@[update.job].task,
            path,
        ),
        r == Ok::<Option<RegisterModelRequest>, ApplyError>(None) ==> completed_path(update.status) is None
            || !old(store)@[update.job].task.is_valid(),
{
    let completed = match &update.status {
        ImportJobStatus::Completed { info } => Some(info.clone()),
        _ => None,
    };
    let task = store.apply(update)?;
    match completed {
        Some(info) => {
            let at = now_unix_nanos();
            Ok(registration_request(&task, &info, at))
        },
        None => Ok(None),
    }
}

} // verus!

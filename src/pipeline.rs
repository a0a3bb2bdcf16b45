//! The backup run: its stages, how their failures compose, the isolation of
//! crashes, and the report sent afterwards.

use vstd::prelude::*;

use crate::settings::Notify;
use crate::timer::{format_hhmmss, hhmmss};

verus! {

/// Why a run failed.
#[derive(Clone, Debug)]
pub enum PipelineError {
    /// A pre-backup command could not be launched or exited unsuccessfully.
    CommandFailed { command: String, cause: String },
    /// The archive could not be built.
    ArchiveFailed { cause: String },
    /// The session with the remote store could not be set up.
    RemoteConnectFailed { cause: String },
    /// Every remote name that may be tried was taken.
    TooManyCollisions,
    /// The archive could not be transferred.
    UploadFailed { cause: String },
    /// The run ended abnormally instead of reporting a result.
    PipelineCrashed,
}

impl PipelineError {
    /// The text of the error, as reported.
    pub open spec fn message_spec(&self) -> Seq<char> {
        match self {
            PipelineError::CommandFailed { command, cause } => "Command '"@ + command@ + "' failed: "@ + cause@,
            PipelineError::ArchiveFailed { cause } => "Archive failed: "@ + cause@,
            PipelineError::RemoteConnectFailed { cause } => "Remote connection failed: "@ + cause@,
            PipelineError::TooManyCollisions => "Too many backup files with the same name exist"@,
            PipelineError::UploadFailed { cause } => "Upload failed: "@ + cause@,
            PipelineError::PipelineCrashed => "Backup process crashed"@,
        }
    }

    /// The text of the error.
    pub fn message(&self) -> (r: String)
        ensures
            r@ == self.message_spec(),
    {
        match self {
            PipelineError::CommandFailed { command, cause } => {
                let mut s = String::from_str("Command '");
                s.append(command.as_str());
                s.append("' failed: ");
                s.append(cause.as_str());
                s
            },
            PipelineError::ArchiveFailed { cause } => {
                let mut s = String::from_str("Archive failed: ");
                s.append(cause.as_str());
                s
            },
            PipelineError::RemoteConnectFailed { cause } => {
                let mut s = String::from_str("Remote connection failed: ");
                s.append(cause.as_str());
                s
            },
            PipelineError::TooManyCollisions => String::from_str("Too many backup files with the same name exist"),
            PipelineError::UploadFailed { cause } => {
                let mut s = String::from_str("Upload failed: ");
                s.append(cause.as_str());
                s
            },
            PipelineError::PipelineCrashed => String::from_str("Backup process crashed"),
        }
    }
}

/// Where a run stands. The stages run in the order `RunCommands`,
/// `BuildArchive`, `Upload`; `Succeeded` and `Failed` are final.
#[derive(Clone, Debug)]
pub enum Stage {
    RunCommands,
    BuildArchive,
    Upload,
    Succeeded,
    Failed(PipelineError),
}

impl Stage {
    pub open spec fn is_final(&self) -> bool {
        self is Succeeded || self is Failed
    }

    /// The stage after the current one ended with `result`: the next stage on
    /// success, `Failed` on failure; a final stage stays as it is.
    pub open spec fn after(self, result: Result<(), PipelineError>) -> Stage {
        match self {
            Stage::RunCommands => match result {
                Ok(_) => Stage::BuildArchive,
                Err(e) => Stage::Failed(e),
            },
            Stage::BuildArchive => match result {
                Ok(_) => Stage::Upload,
                Err(e) => Stage::Failed(e),
            },
            Stage::Upload => match result {
                Ok(_) => Stage::Succeeded,
                Err(e) => Stage::Failed(e),
            },
            _ => self,
        }
    }

    /// Moves on after the current stage ended with `result`.
    pub fn advance(self, result: Result<(), PipelineError>) -> (r: Stage)
        ensures
            r == self.after(result),
    {
        match self {
            Stage::RunCommands => match result {
                Ok(_) => Stage::BuildArchive,
                Err(e) => Stage::Failed(e),
            },
            Stage::BuildArchive => match result {
                Ok(_) => Stage::Upload,
                Err(e) => Stage::Failed(e),
            },
            Stage::Upload => match result {
                Ok(_) => Stage::Succeeded,
                Err(e) => Stage::Failed(e),
            },
            _ => self,
        }
    }

    /// The result of a run that reached this stage, once it is final.
    pub fn finished(self) -> (r: Option<Result<(), PipelineError>>)
        ensures
            r is None <==> !self.is_final(),
            self is Succeeded ==> r == Some(Ok::<(), PipelineError>(())),
            self matches Stage::Failed(e) ==> r == Some(Err::<(), PipelineError>(e)),
    {
        match self {
            Stage::Succeeded => Some(Ok(())),
            Stage::Failed(e) => Some(Err(e)),
            _ => None,
        }
    }
}

/// The final stage of a run whose three stages end with `commands`, `archive`
/// and `upload`, each tried only when the ones before it succeeded.
pub open spec fn run_stages(
    commands: Result<(), PipelineError>,
    archive: Result<(), PipelineError>,
    upload: Result<(), PipelineError>,
) -> Stage {
    Stage::RunCommands.after(commands).after(archive).after(upload)
}

/// A run succeeds exactly when all three stages succeed; otherwise it fails
/// with the error of the first stage that failed, and the later stages'
/// results do not matter.
pub proof fn lemma_run_fails_at_first_error(
    commands: Result<(), PipelineError>,
    archive: Result<(), PipelineError>,
    upload: Result<(), PipelineError>,
)
    ensures
        (run_stages(commands, archive, upload) is Succeeded) <==> (commands is Ok && archive is Ok
            && upload is Ok),
        commands matches Err(e) ==> run_stages(commands, archive, upload) == Stage::Failed(e),
        commands is Ok ==> (archive matches Err(e) ==> run_stages(commands, archive, upload)
            == Stage::Failed(e)),
        commands is Ok && archive is Ok ==> (upload matches Err(e) ==> run_stages(
            commands,
            archive,
            upload,
        ) == Stage::Failed(e)),
{
}

/// The result of a run as seen from outside its isolation boundary: `None`
/// when the run ended abnormally, which becomes a `PipelineCrashed` failure.
pub fn isolate(joined: Option<Result<(), PipelineError>>) -> (r: Result<(), PipelineError>)
    ensures
        joined is None ==> r == Err::<(), PipelineError>(PipelineError::PipelineCrashed),
        joined matches Some(res) ==> r == res,
{
    match joined {
        Some(res) => res,
        None => Err(PipelineError::PipelineCrashed),
    }
}

/// The outcome of one run and how long it took.
#[derive(Clone, Debug)]
pub struct PipelineResult {
    /// `None` when the run succeeded, else why it failed.
    pub error: Option<PipelineError>,
    pub elapsed_secs: u64,
}

impl PipelineResult {
    /// The result of a run that ended with `run` after `elapsed_secs` seconds.
    pub fn new(run: Result<(), PipelineError>, elapsed_secs: u64) -> (r: PipelineResult)
        ensures
            r.elapsed_secs == elapsed_secs,
            run is Ok ==> r.error is None,
            run matches Err(e) ==> r.error == Some(e),
    {
        match run {
            Ok(_) => PipelineResult { error: None, elapsed_secs },
            Err(e) => PipelineResult { error: Some(e), elapsed_secs },
        }
    }

    pub fn succeeded(&self) -> (r: bool)
        ensures
            r == self.error is None,
    {
        self.error.is_none()
    }
}

} // verus!

verus! {

/// A report to send.
#[derive(Clone, Debug)]
pub struct Message {
    pub recipients: Vec<String>,
    pub subject: String,
    pub body: String,
}

/// The subject of the report on `result`.
pub open spec fn report_subject(result: PipelineResult) -> Seq<char> {
    match result.error {
        None => "Backup finished"@,
        Some(_) => "Error backup"@,
    }
}

/// The body of the report on `result`: the error, if any, and the elapsed time.
pub open spec fn report_body(result: PipelineResult) -> Seq<char> {
    match result.error {
        None => "Backup finished\nExecution time: "@ + hhmmss(result.elapsed_secs as nat),
        Some(e) => "Error in backup process: "@ + e.message_spec() + "\nExecution time: "@ + hhmmss(
            result.elapsed_secs as nat,
        ),
    }
}

/// Who is told about `result`: the success list or the error list.
pub open spec fn report_recipients(notify: Notify, result: PipelineResult) -> Seq<Seq<char>> {
    match result.error {
        None => notify.success_address.deep_view(),
        Some(_) => notify.error_address.deep_view(),
    }
}

/// The report on `result`, or `None` when its recipient list is empty and
/// nothing is to be sent.
pub fn notification(notify: &Notify, result: &PipelineResult) -> (r: Option<Message>)
    ensures
        r is None <==> report_recipients(*notify, *result).len() == 0,
        r matches Some(m) ==> {
            &&& m.recipients.deep_view() == report_recipients(*notify, *result)
            &&& m.subject@ == report_subject(*result)
            &&& m.body@ == report_body(*result)
        },
{
    broadcast use vstd::std_specs::vec::vec_clone_deep_view_proof;

    let time = format_hhmmss(result.elapsed_secs);
    match &result.error {
        None => {
            if notify.success_address.len() == 0 {
                return None;
            }
            let mut body = String::from_str("Backup finished\nExecution time: ");
            body.append(time.as_str());
            Some(
                Message {
                    recipients: notify.success_address.clone(),
                    subject: String::from_str("Backup finished"),
                    body,
                },
            )
        },
        Some(e) => {
            if notify.error_address.len() == 0 {
                return None;
            }
            let mut body = String::from_str("Error in backup process: ");
            let text = e.message();
            body.append(text.as_str());
            body.append("\nExecution time: ");
            body.append(time.as_str());
            Some(
                Message {
                    recipients: notify.error_address.clone(),
                    subject: String::from_str("Error backup"),
                    body,
                },
            )
        },
    }
}

} // verus!

//! The service managers of Linux: what to run, and what its outcome means.

use vstd::prelude::*;

use crate::text::{join2, join3, owned, trim, trimmed};

verus! {

pub const SYSTEMD_SERVICE_NAME: &'static str = "playit";

pub const OPENRC_SERVICE_NAME: &'static str = "playit";

/// Why a service manager did not do what it was asked.
#[derive(Debug)]
pub enum ServiceManagerError {
    NotAvailable(String),
    StartFailed(String),
    StopFailed(String),
}

/// What a command is for.
#[derive(Clone, Copy, Debug, PartialEq, Eq, Structural)]
pub enum Purpose {
    Query,
    Start,
    Stop,
}

/// The model of a [`ServiceManagerError`]: what failed, and the message.
impl View for ServiceManagerError {
    type V = (Purpose, Seq<char>);

    open spec fn view(&self) -> (Purpose, Seq<char>) {
        match *self {
            ServiceManagerError::NotAvailable(message) => (Purpose::Query, message@),
            ServiceManagerError::StartFailed(message) => (Purpose::Start, message@),
            ServiceManagerError::StopFailed(message) => (Purpose::Stop, message@),
        }
    }
}

fn failed(purpose: Purpose, message: String) -> (r: ServiceManagerError)
    ensures
        r@ == (purpose, message@),
{
    match purpose {
        Purpose::Query => ServiceManagerError::NotAvailable(message),
        Purpose::Start => ServiceManagerError::StartFailed(message),
        Purpose::Stop => ServiceManagerError::StopFailed(message),
    }
}

/// What a command left behind: its exit code if it ended by itself, its status in words,
/// and its output.
#[derive(Debug)]
pub struct CommandOutput {
    pub code: Option<i32>,
    pub status: String,
    pub stdout: String,
    pub stderr: String,
}

impl CommandOutput {
    /// The command succeeded.
    pub open spec fn succeeded(self) -> bool {
        self.code == Some(0i32)
    }

    /// Whether the command succeeded.
    pub fn success(&self) -> (r: bool)
        ensures
            r == self.succeeded(),
    {
        match self.code {
            Some(code) => code == 0,
            None => false,
        }
    }
}

/// What a failed command says about it: its errors, else its output, else its status.
pub open spec fn detail_of(output: CommandOutput) -> Seq<char> {
    if trimmed(output.stderr@).len() > 0 {
        trimmed(output.stderr@)
    } else if trimmed(output.stdout@).len() > 0 {
        trimmed(output.stdout@)
    } else {
        "exit status "@ + output.status@
    }
}

fn detail(output: &CommandOutput) -> (r: String)
    ensures
        r@ == detail_of(*output),
{
    let stderr = trim(output.stderr.as_str());
    let stdout = trim(output.stdout.as_str());
    if !stderr.is_empty() {
        owned(stderr)
    } else if !stdout.is_empty() {
        owned(stdout)
    } else {
        join2("exit status ", output.status.as_str())
    }
}

// ---------------------------------------------------------------------------
// Arguments
// ---------------------------------------------------------------------------

pub fn systemd_start_args() -> (r: [&'static str; 2])
    ensures
        r@[0]@ == "start"@,
        r@[1]@ == SYSTEMD_SERVICE_NAME@,
{
    ["start", SYSTEMD_SERVICE_NAME]
}

pub fn systemd_is_active_args() -> (r: [&'static str; 3])
    ensures
        r@[0]@ == "is-active"@,
        r@[1]@ == "--quiet"@,
        r@[2]@ == SYSTEMD_SERVICE_NAME@,
{
    ["is-active", "--quiet", SYSTEMD_SERVICE_NAME]
}

pub fn systemd_stop_args() -> (r: [&'static str; 2])
    ensures
        r@[0]@ == "stop"@,
        r@[1]@ == SYSTEMD_SERVICE_NAME@,
{
    ["stop", SYSTEMD_SERVICE_NAME]
}

pub fn openrc_start_args() -> (r: [&'static str; 2])
    ensures
        r@[0]@ == OPENRC_SERVICE_NAME@,
        r@[1]@ == "start"@,
{
    [OPENRC_SERVICE_NAME, "start"]
}

pub fn openrc_status_args() -> (r: [&'static str; 2])
    ensures
        r@[0]@ == OPENRC_SERVICE_NAME@,
        r@[1]@ == "status"@,
{
    [OPENRC_SERVICE_NAME, "status"]
}

pub fn openrc_stop_args() -> (r: [&'static str; 2])
    ensures
        r@[0]@ == OPENRC_SERVICE_NAME@,
        r@[1]@ == "stop"@,
{
    [OPENRC_SERVICE_NAME, "stop"]
}

// ---------------------------------------------------------------------------
// Outcomes
// ---------------------------------------------------------------------------

/// What running `systemctl` came to; the text is why it could not be run.
pub open spec fn systemctl_error(
    purpose: Purpose,
    args: Seq<char>,
    run: Result<CommandOutput, String>,
) -> Option<(Purpose, Seq<char>)> {
    match run {
        Err(error) => Some((purpose, "Failed to run systemctl: "@ + error@)),
        Ok(output) => if output.succeeded() {
            None
        } else {
            Some((purpose, "systemctl "@ + args + " failed: "@ + trimmed(output.stderr@)))
        },
    }
}

fn run_systemctl(purpose: Purpose, args: &str, run: Result<CommandOutput, String>) -> (r: Result<
    (),
    ServiceManagerError,
>)
    ensures
        match systemctl_error(purpose, args@, run) {
            Some(error) => r is Err && r->Err_0@ == error,
            None => r is Ok,
        },
{
    match run {
        Err(error) => Err(failed(purpose, join2("Failed to run systemctl: ", error.as_str()))),
        Ok(output) => if output.success() {
            Ok(())
        } else {
            let mut message = join3("systemctl ", args, " failed: ");
            message.append(trim(output.stderr.as_str()));
            Err(failed(purpose, message))
        },
    }
}

/// What running `rc-service` came to; the text is why it could not be run.
pub open spec fn rc_service_error(
    purpose: Purpose,
    args: Seq<char>,
    run: Result<CommandOutput, String>,
) -> Option<(Purpose, Seq<char>)> {
    match run {
        Err(error) => Some((purpose, "Failed to run rc-service: "@ + error@)),
        Ok(output) => if output.succeeded() {
            None
        } else {
            Some((purpose, "rc-service "@ + args + " failed: "@ + detail_of(output)))
        },
    }
}

fn run_rc_service(purpose: Purpose, args: &str, run: Result<CommandOutput, String>) -> (r: Result<
    (),
    ServiceManagerError,
>)
    ensures
        match rc_service_error(purpose, args@, run) {
            Some(error) => r is Err && r->Err_0@ == error,
            None => r is Ok,
        },
{
    match run {
        Err(error) => Err(failed(purpose, join2("Failed to run rc-service: ", error.as_str()))),
        Ok(output) => if output.success() {
            Ok(())
        } else {
            let text = detail(&output);
            let mut message = join3("rc-service ", args, " failed: ");
            message.append(text.as_str());
            Err(failed(purpose, message))
        },
    }
}

/// What running `systemctl` with [`systemd_start_args`] came to.
pub fn start_systemd_service(run: Result<CommandOutput, String>) -> (r: Result<
    (),
    ServiceManagerError,
>)
    ensures
        match systemctl_error(Purpose::Start, "start playit"@, run) {
            Some(error) => r is Err && r->Err_0@ == error,
            None => r is Ok,
        },
{
    run_systemctl(Purpose::Start, "start playit", run)
}

/// What running `systemctl` with [`systemd_stop_args`] came to.
pub fn stop_systemd_service(run: Result<CommandOutput, String>) -> (r: Result<
    (),
    ServiceManagerError,
>)
    ensures
        match systemctl_error(Purpose::Stop, "stop playit"@, run) {
            Some(error) => r is Err && r->Err_0@ == error,
            None => r is Ok,
        },
{
    run_systemctl(Purpose::Stop, "stop playit", run)
}

/// What running `rc-service` with [`openrc_start_args`] came to.
pub fn start_openrc_service(run: Result<CommandOutput, String>) -> (r: Result<
    (),
    ServiceManagerError,
>)
    ensures
        match rc_service_error(Purpose::Start, "playit start"@, run) {
            Some(error) => r is Err && r->Err_0@ == error,
            None => r is Ok,
        },
{
    run_rc_service(Purpose::Start, "playit start", run)
}

/// What running `rc-service` with [`openrc_stop_args`] came to.
pub fn stop_openrc_service(run: Result<CommandOutput, String>) -> (r: Result<
    (),
    ServiceManagerError,
>)
    ensures
        match rc_service_error(Purpose::Stop, "playit stop"@, run) {
            Some(error) => r is Err && r->Err_0@ == error,
            None => r is Ok,
        },
{
    run_rc_service(Purpose::Stop, "playit stop", run)
}

/// Whether the service is active, given what running `systemctl` with
/// [`systemd_is_active_args`] came to: exit code 0 says yes, 3 and 4 say no.
pub fn is_systemd_service_active(run: Result<CommandOutput, String>) -> (r: Result<
    bool,
    ServiceManagerError,
>)
    ensures
        match run {
            Err(error) => r is Err && r->Err_0@ == (
                Purpose::Query,
                "Failed to run systemctl: "@ + error@,
            ),
            Ok(output) => if output.succeeded() {
                r == Ok::<bool, ServiceManagerError>(true)
            } else if output.code == Some(3i32) || output.code == Some(4i32) {
                r == Ok::<bool, ServiceManagerError>(false)
            } else {
                r is Err && r->Err_0@ == (
                    Purpose::Query,
                    "systemctl "@ + "is-active --quiet playit"@ + " failed: "@ + detail_of(output),
                )
            },
        },
{
    match run {
        Err(error) => Err(
            failed(Purpose::Query, join2("Failed to run systemctl: ", error.as_str())),
        ),
        Ok(output) => {
            match output.code {
                Some(code) => {
                    if code == 0 {
                        return Ok(true);
                    }
                    if code == 3 || code == 4 {
                        return Ok(false);
                    }
                },
                None => {},
            }
            let text = detail(&output);
            let mut message = join3("systemctl ", "is-active --quiet playit", " failed: ");
            message.append(text.as_str());
            Err(failed(Purpose::Query, message))
        },
    }
}

/// Whether the service is active, given what running `rc-service` with
/// [`openrc_status_args`] came to.
pub fn is_openrc_service_active(run: Result<CommandOutput, String>) -> (r: Result<
    bool,
    ServiceManagerError,
>)
    ensures
        match run {
            Err(error) => r is Err && r->Err_0@ == (
                Purpose::Query,
                "Failed to run rc-service: "@ + error@,
            ),
            Ok(output) => r == Ok::<bool, ServiceManagerError>(output.succeeded()),
        },
{
    match run {
        Err(error) => Err(
            failed(Purpose::Query, join2("Failed to run rc-service: ", error.as_str())),
        ),
        Ok(output) => Ok(output.success()),
    }
}

/// A command of a service manager succeeded exactly if it ran and ended with 0; else its purpose
/// failed, and what is told ends with what the command said about it.
pub proof fn commands_succeed_with_zero(
    purpose: Purpose,
    args: Seq<char>,
    run: Result<CommandOutput, String>,
)
    ensures
        systemctl_error(purpose, args, run) is None <==> (run matches Ok(output) && output.code
            == Some(0i32)),
        rc_service_error(purpose, args, run) is None <==> (run matches Ok(output) && output.code
            == Some(0i32)),
        systemctl_error(purpose, args, run) matches Some(error) ==> error.0 == purpose && error.1
            == match run {
            Ok(output) => "systemctl "@ + args + " failed: "@ + trimmed(output.stderr@),
            Err(reason) => "Failed to run systemctl: "@ + reason@,
        },
        rc_service_error(purpose, args, run) matches Some(error) ==> error.0 == purpose && error.1
            == match run {
            Ok(output) => "rc-service "@ + args + " failed: "@ + detail_of(output),
            Err(reason) => "Failed to run rc-service: "@ + reason@,
        },
{
}

/// Of a failed command its errors are told, else its output, else its status.
pub proof fn failed_commands_say_why(output: CommandOutput)
    ensures
        trimmed(output.stderr@).len() > 0 ==> detail_of(output) == trimmed(output.stderr@),
        trimmed(output.stderr@).len() == 0 && trimmed(output.stdout@).len() > 0 ==> detail_of(
            output,
        ) == trimmed(output.stdout@),
        trimmed(output.stderr@).len() == 0 && trimmed(output.stdout@).len() == 0 ==> detail_of(
            output,
        ) == "exit status "@ + output.status@,
        SYSTEMD_SERVICE_NAME@ == "playit"@,
        OPENRC_SERVICE_NAME@ == "playit"@,
{
}

} // verus!

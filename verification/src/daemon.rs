//! The daemon around a runtime: its options, its end, and its files.

use vstd::prelude::*;

use crate::api::Platform;
use crate::error::{RuntimeError, RuntimeErrorView};
use crate::ipc::{IpcError, IpcErrorView};
use crate::options::{RuntimeOptions, RuntimeOptionsView, VersionDetails, VersionOverrideFile};
use crate::outside::{path_extension, path_file_name, path_parent};
use crate::paths::{
    is_extension_of, is_file_name_of, is_parent_of, nothing_is_above_the_root,
};
use crate::text::{copy_opt, join2, join3, opt_text, owned};

verus! {

/// What a daemon is started with.
pub struct DaemonOptions {
    pub secret: Option<String>,
    pub secret_path: Option<String>,
    pub socket_path: Option<String>,
    pub log_path: Option<String>,
    pub platform_docker: bool,
    pub version: VersionDetails,
}

impl DaemonOptions {
    /// The options of a daemon that nothing is said about, on a system with a default path
    /// for the secret.
    pub fn with_secret_path(default_secret_path: String) -> (r: Self)
        ensures
            r.secret is None,
            r.secret_path == Some(default_secret_path),
            r.socket_path is None,
            r.log_path is None,
            !r.platform_docker,
            r.version@ == (crate::options::VersionDetailsView {
                variant_id: crate::options::DEFAULT_VARIANT_ID@,
                major: 1,
                minor: 0,
                patch: 0,
            }),
    {
        let options = RuntimeOptions::default();
        DaemonOptions {
            secret: None,
            secret_path: Some(default_secret_path),
            socket_path: None,
            log_path: None,
            platform_docker: false,
            version: options.version,
        }
    }

    /// The options of the runtime that the daemon runs.
    pub fn runtime_options(&self, default_secret_path: &str, api_base: String) -> (r:
        RuntimeOptions)
        ensures
            r@ == (RuntimeOptionsView {
                secret_path: match self.secret_path {
                    Some(path) => path@,
                    None => default_secret_path@,
                },
                secret: opt_text(self.secret),
                version: self.version@,
                platform_docker: self.platform_docker,
                api_base: api_base@,
            }),
    {
        RuntimeOptions {
            secret_path: match &self.secret_path {
                Some(path) => path.clone(),
                None => owned(default_secret_path),
            },
            secret: copy_opt(&self.secret),
            version: self.version.clone(),
            platform_docker: self.platform_docker,
            api_base,
        }
    }

    /// Whether the log may be coloured: on Linux and in a container.
    pub fn use_ansi(&self, current: Platform) -> (r: bool)
        ensures
            r == (self.platform_docker || current == Platform::Linux || current
                == Platform::Docker),
    {
        self.platform_docker || current == Platform::Linux || current == Platform::Docker
    }
}

/// The address of the API: what the environment says, else the public one.
pub fn api_base(configured: Option<String>) -> (r: String)
    ensures
        r@ == match configured {
            Some(base) => base@,
            None => "https://api.playit.gg"@,
        },
{
    match configured {
        Some(base) => base,
        None => owned("https://api.playit.gg"),
    }
}

/// Why a daemon ended.
#[derive(Debug)]
pub enum DaemonError {
    Ipc(IpcError),
    Runtime(RuntimeError),
    SetupError(String),
}

/// The model of a [`DaemonError`].
#[verifier::ext_equal]
pub enum DaemonErrorView {
    Ipc(IpcErrorView),
    Runtime(RuntimeErrorView),
    SetupError(Seq<char>),
}

impl View for DaemonError {
    type V = DaemonErrorView;

    open spec fn view(&self) -> DaemonErrorView {
        match *self {
            DaemonError::Ipc(error) => DaemonErrorView::Ipc(error@),
            DaemonError::Runtime(error) => DaemonErrorView::Runtime(error@),
            DaemonError::SetupError(error) => DaemonErrorView::SetupError(error@),
        }
    }
}

impl DaemonErrorView {
    /// The error in words.
    pub open spec fn shown(self) -> Seq<char> {
        match self {
            DaemonErrorView::Ipc(error) => "IPC error: "@ + error.shown(),
            DaemonErrorView::Runtime(error) => "Runtime error: "@ + error.shown(),
            DaemonErrorView::SetupError(error) => "Setup error: "@ + error,
        }
    }
}

impl DaemonError {
    /// The error in words.
    pub fn to_text(&self) -> (r: String)
        ensures
            r@ == self@.shown(),
    {
        match self {
            DaemonError::Ipc(error) => {
                let text = error.to_text();
                join2("IPC error: ", text.as_str())
            },
            DaemonError::Runtime(error) => {
                let text = error.to_text();
                join2("Runtime error: ", text.as_str())
            },
            DaemonError::SetupError(error) => join2("Setup error: ", error.as_str()),
        }
    }
}

// ---------------------------------------------------------------------------
// The end of the daemon
// ---------------------------------------------------------------------------

/// What ends a daemon.
pub enum DaemonEvent {
    /// The user interrupts it.
    Interrupted,
    /// A client asks it to stop.
    StopRequested,
    /// Its runtime ended.
    RuntimeEnded(Result<(), RuntimeError>),
    /// Its server ended; the outer error is that of the task itself.
    ServerEnded(Result<Result<(), IpcError>, String>),
}

/// What follows the event that ends a daemon.
pub enum DaemonStep {
    /// Stop the server and the runtime; this is the result so far.
    ShutDown(Result<(), DaemonError>),
    /// End at once.
    End(DaemonError),
}

/// What follows the event that ends a daemon.
pub fn daemon_ends(event: DaemonEvent) -> (r: DaemonStep)
    ensures
        match event {
            DaemonEvent::Interrupted => r == DaemonStep::ShutDown(Ok(())),
            DaemonEvent::StopRequested => r == DaemonStep::ShutDown(Ok(())),
            DaemonEvent::RuntimeEnded(Ok(_)) => r == DaemonStep::ShutDown(Ok(())),
            DaemonEvent::RuntimeEnded(Err(error)) => r == DaemonStep::ShutDown(
                Err(DaemonError::Runtime(error)),
            ),
            DaemonEvent::ServerEnded(Ok(Ok(_))) => r == DaemonStep::ShutDown(Ok(())),
            DaemonEvent::ServerEnded(Ok(Err(error))) => r == DaemonStep::ShutDown(
                Err(DaemonError::Ipc(error)),
            ),
            DaemonEvent::ServerEnded(Err(error)) => r matches DaemonStep::End(e) && e@
                == DaemonErrorView::SetupError("IPC task failed: "@ + error@),
        },
{
    match event {
        DaemonEvent::Interrupted => DaemonStep::ShutDown(Ok(())),
        DaemonEvent::StopRequested => DaemonStep::ShutDown(Ok(())),
        DaemonEvent::RuntimeEnded(result) => match result {
            Ok(_) => DaemonStep::ShutDown(Ok(())),
            Err(error) => DaemonStep::ShutDown(Err(DaemonError::Runtime(error))),
        },
        DaemonEvent::ServerEnded(result) => match result {
            Ok(Ok(_)) => DaemonStep::ShutDown(Ok(())),
            Ok(Err(error)) => DaemonStep::ShutDown(Err(DaemonError::Ipc(error))),
            Err(error) => DaemonStep::End(
                DaemonError::SetupError(join2("IPC task failed: ", error.as_str())),
            ),
        },
    }
}

/// The result of a daemon: the first thing that failed, its shutdown counting last.
pub fn run_daemon_result(
    result: Result<(), DaemonError>,
    shutdown: Result<(), RuntimeError>,
) -> (r: Result<(), DaemonError>)
    ensures
        match (result, shutdown) {
            (Err(error), _) => r == Err::<(), DaemonError>(error),
            (Ok(_), Err(error)) => r == Err::<(), DaemonError>(DaemonError::Runtime(error)),
            (Ok(_), Ok(_)) => r is Ok,
        },
{
    match result {
        Err(error) => Err(error),
        Ok(_) => match shutdown {
            Err(error) => Err(DaemonError::Runtime(error)),
            Ok(_) => Ok(()),
        },
    }
}

// ---------------------------------------------------------------------------
// Files
// ---------------------------------------------------------------------------

/// The lower-case form of an ASCII letter; any other character itself.
pub open spec fn ascii_lower(c: char) -> char {
    if 'A' <= c && c <= 'Z' {
        ((c as u32 + 32) as u8) as char
    } else {
        c
    }
}

/// A text with its ASCII letters in lower case.
pub open spec fn lower(s: Seq<char>) -> Seq<char> {
    s.map_values(|c: char| ascii_lower(c))
}

fn is_ignoring_case(s: &str, lower_case: &str) -> (r: bool)
    ensures
        r == (lower(s@) == lower_case@),
{
    let n: usize = s.unicode_len();
    if lower_case.unicode_len() != n {
        assert(lower(s@).len() == s@.len());
        return false;
    }
    let mut i: usize = 0;
    while i < n
        invariant
            i <= n,
            n == s@.len(),
            n == lower_case@.len(),
            forall|k: int| 0 <= k < i ==> ascii_lower(#[trigger] s@[k]) == lower_case@[k],
        decreases n - i,
    {
        let c = s.get_char(i);
        let low = if 'A' <= c && c <= 'Z' {
            let code: u8 = c as u8;
            assert(c as u32 <= 0x5a);
            (code + 32) as char
        } else {
            c
        };
        if low != lower_case.get_char(i) {
            assert(lower(s@)[i as int] == ascii_lower(s@[i as int]));
            return false;
        }
        i = i + 1;
    }
    assert(lower(s@) =~= lower_case@);
    true
}

/// How a file with overrides of the version is written.
#[derive(Clone, Copy, Debug, PartialEq, Eq, Structural)]
pub enum OverrideFormat {
    Json,
    Yaml,
}

/// How a file is written, by its extension.
pub open spec fn format_of(extension: Option<Seq<char>>) -> Option<OverrideFormat> {
    match extension {
        Some(extension) => if lower(extension) == "json"@ {
            Some(OverrideFormat::Json)
        } else if lower(extension) == "yaml"@ || lower(extension) == "yml"@ {
            Some(OverrideFormat::Yaml)
        } else {
            None
        },
        None => None,
    }
}

/// The content of a file with overrides of the version, and how it is written, given what
/// reading the file gave.
pub open spec fn overrides_read(
    r: Result<(String, OverrideFormat), String>,
    path: Seq<char>,
    format: Option<OverrideFormat>,
    read: Result<String, String>,
) -> bool {
    match read {
        Err(error) => r is Err && r->Err_0@ == "Failed to read version override file "@ + path
            + ": "@ + error@,
        Ok(content) => match format {
            Some(format) => r == Ok::<(String, OverrideFormat), String>((content, format)),
            None => r is Err && r->Err_0@ == "Unsupported version override file format for "@
                + path + ". Use .json, .yaml, or .yml"@,
        },
    }
}

/// The content of the file `path` with overrides of the version, and how it is written, given
/// what reading the file gave.
pub fn load_version_overrides(path: &str, read: Result<String, String>) -> (r: Result<
    (String, OverrideFormat),
    String,
>)
    ensures
        exists|extension: Option<Seq<char>>| #[trigger]
            is_extension_of(path@, extension) && overrides_read(
                r,
                path@,
                format_of(extension),
                read,
            ),
{
    let extension = path_extension(path);
    let ghost found = opt_text(extension);
    let r = match &extension {
        Some(extension) => load_overrides_by_extension(path, Some(extension.as_str()), read),
        None => load_overrides_by_extension(path, None, read),
    };
    assert(is_extension_of(path@, found) && overrides_read(r, path@, format_of(found), read));
    r
}

/// The content of a file with overrides of the version, and how it is written, given its
/// extension and what reading the file gave.
pub fn load_overrides_by_extension(
    path: &str,
    extension: Option<&str>,
    read: Result<String, String>,
) -> (r: Result<(String, OverrideFormat), String>)
    ensures
        overrides_read(
            r,
            path@,
            format_of(
                match extension {
                    Some(e) => Some(e@),
                    None => None,
                },
            ),
            read,
        ),
{
    let content = match read {
        Ok(content) => content,
        Err(error) => {
            let mut message = join3("Failed to read version override file ", path, ": ");
            message.append(error.as_str());
            return Err(message);
        },
    };
    match extension {
        Some(extension) => {
            if is_ignoring_case(extension, "json") {
                return Ok((content, OverrideFormat::Json));
            }
            if is_ignoring_case(extension, "yaml") || is_ignoring_case(extension, "yml") {
                return Ok((content, OverrideFormat::Yaml));
            }
        },
        None => {},
    }
    Err(
        join3(
            "Unsupported version override file format for ",
            path,
            ". Use .json, .yaml, or .yml",
        ),
    )
}

/// The overrides, given what reading the content gave.
pub fn parsed_version_overrides(
    path: &str,
    format: OverrideFormat,
    parsed: Result<VersionOverrideFile, String>,
) -> (r: Result<VersionOverrideFile, String>)
    ensures
        match parsed {
            Ok(overrides) => r == Ok::<VersionOverrideFile, String>(overrides),
            Err(error) => r is Err && r->Err_0@ == (match format {
                OverrideFormat::Json => "Invalid JSON in "@,
                OverrideFormat::Yaml => "Invalid YAML in "@,
            }) + path@ + ": "@ + error@,
        },
{
    match parsed {
        Ok(overrides) => Ok(overrides),
        Err(error) => {
            let mut message = match format {
                OverrideFormat::Json => join3("Invalid JSON in ", path, ": "),
                OverrideFormat::Yaml => join3("Invalid YAML in ", path, ": "),
            };
            message.append(error.as_str());
            Err(message)
        },
    }
}

/// The most bytes of one log file on Windows.
pub const WINDOWS_LOG_MAX_FILE_SIZE_BYTES: u64 = 5_242_880;

/// The most log files on Windows.
pub const WINDOWS_LOG_MAX_TOTAL_FILES: usize = 3;

/// The most log files on Windows beside the one that is written.
pub const WINDOWS_LOG_MAX_ROTATED_FILES: usize = WINDOWS_LOG_MAX_TOTAL_FILES - 1;

/// The directory of the log `path`: the one above it, or the current one where nothing is.
pub fn log_directory(path: &str) -> (r: String)
    ensures
        exists|parent: Option<Seq<char>>| #[trigger]
            is_parent_of(path@, parent) && r@ == match parent {
                Some(directory) => directory,
                None => "."@,
            },
        path@.len() == 0 || path@ == seq!['/'] ==> r@ == "."@,
{
    let parent = path_parent(path);
    let ghost above = opt_text(parent);
    proof {
        assert(is_parent_of(path@, above));
        if path@.len() == 0 || path@ == seq!['/'] {
            nothing_is_above_the_root(path@, above);
        }
    }
    match parent {
        Some(parent) => parent,
        None => owned("."),
    }
}

/// The name of the file of the log `path`, given what making its directory came to. The
/// directory comes first, and the name must be text.
pub open spec fn log_named(
    r: Result<String, String>,
    path: Seq<char>,
    directory: Seq<char>,
    created: Result<(), String>,
    file_name: Option<Seq<char>>,
) -> bool {
    match created {
        Ok(_) => match file_name {
            Some(name) => r is Ok && r->Ok_0@ == name,
            None => r is Err && r->Err_0@ == "Invalid --log-path "@ + path,
        },
        Err(error) => r is Err && r->Err_0@ == "Failed to create log directory "@ + directory
            + ": "@ + error@,
    }
}

/// The name of the file of the log `path`, given what making its directory came to.
pub fn log_file_name(path: &str, directory: &str, created: Result<(), String>) -> (r: Result<
    String,
    String,
>)
    ensures
        exists|file_name: Option<Seq<char>>| #[trigger]
            is_file_name_of(path@, file_name) && log_named(
                r,
                path@,
                directory@,
                created,
                file_name,
            ),
{
    let file_name = path_file_name(path);
    let ghost name = opt_text(file_name);
    let r = log_file_target(path, directory, created, file_name);
    assert(is_file_name_of(path@, name) && log_named(r, path@, directory@, created, name));
    r
}

/// The name of the file of a log, given what making its directory came to and the last name
/// of its path, where that is text.
pub fn log_file_target(
    path: &str,
    directory: &str,
    created: Result<(), String>,
    file_name: Option<String>,
) -> (r: Result<String, String>)
    ensures
        log_named(r, path@, directory@, created, opt_text(file_name)),
{
    match log_directory_created(directory, created) {
        Ok(_) => match file_name {
            Some(name) => Ok(name),
            None => Err(join2("Invalid --log-path ", path)),
        },
        Err(message) => Err(message),
    }
}

/// What making the directory of a log came to.
pub fn log_directory_created(directory: &str, result: Result<(), String>) -> (r: Result<(), String>)
    ensures
        match result {
            Ok(_) => r is Ok,
            Err(error) => r is Err && r->Err_0@ == "Failed to create log directory "@ + directory@
                + ": "@ + error@,
        },
{
    match result {
        Ok(_) => Ok(()),
        Err(error) => {
            let mut message = join3("Failed to create log directory ", directory, ": ");
            message.append(error.as_str());
            Err(message)
        },
    }
}

/// A file with overrides is known by its extension, whatever the case of its letters: JSON by one,
/// YAML by two, and nothing else.
pub proof fn override_formats_have_extensions(extension: Option<Seq<char>>)
    ensures
        format_of(extension) == Some(OverrideFormat::Json) <==> extension is Some && lower(
            extension->0,
        ) == "json"@,
        format_of(extension) == Some(OverrideFormat::Yaml) <==> extension is Some && (lower(
            extension->0,
        ) == "yaml"@ || lower(extension->0) == "yml"@),
{
    reveal_strlit("json");
    reveal_strlit("yaml");
    reveal_strlit("yml");
    if extension is Some && lower(extension->0) == "json"@ {
        assert("json"@[0] == 'j' && "yaml"@[0] == 'y' && "yml"@[0] == 'y');
    }
}

/// Lower case changes the 26 capital letters and nothing else.
pub proof fn capitals_become_small_letters(s: Seq<char>, i: int)
    requires
        0 <= i < s.len(),
    ensures
        lower(s).len() == s.len(),
        'A' <= s[i] <= 'Z' ==> lower(s)[i] as u32 == s[i] as u32 + 32,
        !('A' <= s[i] <= 'Z') ==> lower(s)[i] == s[i],
{
}

/// A file with overrides that was read is handed on with its format, and as it is; one that could
/// not be read, or is of no known format, is an error that names it.
pub proof fn overrides_are_read_as_they_are(
    r: Result<(String, OverrideFormat), String>,
    path: Seq<char>,
    format: Option<OverrideFormat>,
    read: Result<String, String>,
)
    requires
        overrides_read(r, path, format, read),
    ensures
        r is Ok <==> read is Ok && format is Some,
        r is Ok ==> r->Ok_0.0 == read->Ok_0 && r->Ok_0.1 == format->0,
        read matches Err(error) ==> r is Err && r->Err_0@ == "Failed to read version override file "@
            + path + ": "@ + error@,
        read is Ok && format is None ==> r is Err && r->Err_0@
            == "Unsupported version override file format for "@ + path
            + ". Use .json, .yaml, or .yml"@,
{
}

/// A log gets its file name once its directory is there; else the error names the directory, or
/// the path that has no name.
pub proof fn logs_need_a_directory_and_a_name(
    r: Result<String, String>,
    path: Seq<char>,
    directory: Seq<char>,
    created: Result<(), String>,
    file_name: Option<Seq<char>>,
)
    requires
        log_named(r, path, directory, created, file_name),
    ensures
        r is Ok <==> created is Ok && file_name is Some,
        r is Ok ==> r->Ok_0@ == file_name->0,
        created matches Err(error) ==> r is Err && r->Err_0@ == "Failed to create log directory "@
            + directory + ": "@ + error@,
        created is Ok && file_name is None ==> r is Err && r->Err_0@ == "Invalid --log-path "@
            + path,
        WINDOWS_LOG_MAX_FILE_SIZE_BYTES == 5 * 1024 * 1024,
        WINDOWS_LOG_MAX_TOTAL_FILES == 3,
        WINDOWS_LOG_MAX_ROTATED_FILES == 2,
{
}

/// What ended a daemon is told with the part of it that failed.
pub proof fn daemon_errors_are_told(error: DaemonErrorView)
    ensures
        error matches DaemonErrorView::Ipc(e) ==> error.shown() == "IPC error: "@ + e.shown(),
        error matches DaemonErrorView::Runtime(e) ==> error.shown() == "Runtime error: "@
            + e.shown(),
        error matches DaemonErrorView::SetupError(e) ==> error.shown() == "Setup error: "@ + e,
{
}

} // verus!

//! The agent secret: where it comes from, what is valid, and how it is stored.

use vstd::prelude::*;

use crate::error::{plain_error, ErrorArea, IoErrorKind, IoFailure, IoFailureView, RuntimeError, RuntimeErrorView};
use crate::model::{ServiceErrorCode, ServiceErrorView};
use crate::options::{RuntimeOptions, DEFAULT_VARIANT_ID};
use crate::outside::{
    decode_hex, encode_hex, hex_digit, hex_text, is_hex_digit, is_hex_text, path_extension,
    path_file_name, path_parent, random_bytes, read_toml_string, toml_string, write_toml_string,
};
use crate::paths::{
    is_extension_of, is_file_name_of, is_parent_of, is_slash_path, nothing_is_above_the_root,
    parents_have_shorter_paths, path_parts,
};
use crate::text::{
    decimal, decimal_text, join2, join3, opt_text, owned, same, texts, trim, trimmed, trimmed_end,
    trimmed_start, whitespace,
};

verus! {

// ---------------------------------------------------------------------------
// Models
// ---------------------------------------------------------------------------

/// A text that can be an agent secret: hexadecimal digits, at least a pair of them.
pub open spec fn valid_secret(secret: Seq<char>) -> bool {
    secret.len() > 0 && is_hex_text(secret)
}

/// The secret that a secret file holds: the whole file, or the entry `secret_key` of
/// a TOML file, without surrounding whitespace.
pub open spec fn secret_in_file(content: Seq<char>) -> Option<Seq<char>> {
    if valid_secret(trimmed(content)) {
        Some(trimmed(content))
    } else {
        match toml_string(content, "secret_key"@) {
            Some(value) => if valid_secret(trimmed(value)) {
                Some(trimmed(value))
            } else {
                None
            },
            None => None,
        }
    }
}

/// What a secret file holds for a secret.
pub open spec fn file_content(is_toml: bool, secret: Seq<char>) -> Seq<char> {
    if is_toml {
        "secret_key"@ + " = \""@ + secret + "\"\n"@
    } else {
        secret
    }
}

/// A failure to store the secret, which may be tried again.
pub open spec fn write_failure(message: Seq<char>) -> RuntimeErrorView {
    RuntimeErrorView::Failure(
        ErrorArea::Secret,
        plain_error(ServiceErrorCode::SecretWriteFailed, message, true),
    )
}

fn write_failed(message: String) -> (r: RuntimeError)
    ensures
        r@ == write_failure(message@),
{
    RuntimeError::secret(ServiceErrorCode::SecretWriteFailed, message, true)
}

// ---------------------------------------------------------------------------
// Validation
// ---------------------------------------------------------------------------

/// Why a text is no secret.
pub open spec fn secret_complaint(secret: Seq<char>) -> Seq<char> {
    if secret.len() == 0 {
        "The secret is empty. It should be the key generated by playit setup."@
    } else {
        "The secret is not valid. It should be the key generated by playit setup."@
    }
}

/// The secret itself, where it is valid.
pub fn validate_secret(secret: &str) -> (r: Result<String, String>)
    ensures
        match r {
            Ok(s) => valid_secret(secret@) && s@ == secret@,
            Err(message) => !valid_secret(secret@) && message@ == secret_complaint(secret@),
        },
        r is Ok <==> secret@.len() > 0 && is_hex_text(secret@),
{
    if secret.is_empty() {
        return Err(owned("The secret is empty. It should be the key generated by playit setup."));
    }
    match decode_hex(secret) {
        Some(_) => Ok(owned(secret)),
        None => Err(
            owned("The secret is not valid. It should be the key generated by playit setup."),
        ),
    }
}

/// The secret that a secret file holds.
pub fn parse_secret_file(content: &str) -> (r: Result<String, ()>)
    ensures
        match r {
            Ok(secret) => secret_in_file(content@) == Some(secret@),
            Err(_) => secret_in_file(content@) is None,
        },
{
    let entry = read_toml_string(content, "secret_key");
    parse_secret_entry(content, entry)
}

/// The secret that a secret file holds, given the string that the file has under
/// `secret_key` if it is a TOML file.
pub fn parse_secret_entry(content: &str, entry: Option<String>) -> (r: Result<String, ()>)
    ensures
        match r {
            Ok(secret) => if valid_secret(trimmed(content@)) {
                secret@ == trimmed(content@)
            } else {
                entry matches Some(value) && valid_secret(trimmed(value@)) && secret@ == trimmed(
                    value@,
                )
            },
            Err(_) => !valid_secret(trimmed(content@)) && (entry matches Some(value)
                ==> !valid_secret(trimmed(value@))),
        },
{
    match validate_secret(trim(content)) {
        Ok(secret) => return Ok(secret),
        Err(_) => {},
    }
    match entry {
        Some(value) => match validate_secret(trim(value.as_str())) {
            Ok(secret) => Ok(secret),
            Err(_) => Err(()),
        },
        None => Err(()),
    }
}

// ---------------------------------------------------------------------------
// Sources
// ---------------------------------------------------------------------------

/// Where the secret comes from.
pub enum SecretSource {
    Inline { secret: String },
    File { path: String },
}

/// The model of a [`SecretSource`].
#[verifier::ext_equal]
pub enum SecretSourceView {
    Inline { secret: Seq<char> },
    File { path: Seq<char> },
}

impl View for SecretSource {
    type V = SecretSourceView;

    open spec fn view(&self) -> SecretSourceView {
        match *self {
            SecretSource::Inline { secret } => SecretSourceView::Inline { secret: secret@ },
            SecretSource::File { path } => SecretSourceView::File { path: path@ },
        }
    }
}

/// What became of loading the secret.
#[derive(Debug)]
pub enum LoadedSecret {
    Ready(String),
    Missing,
    Invalid(String),
}

/// The model of a [`LoadedSecret`].
#[verifier::ext_equal]
pub enum LoadedSecretView {
    Ready(Seq<char>),
    Missing,
    Invalid(Seq<char>),
}

impl View for LoadedSecret {
    type V = LoadedSecretView;

    open spec fn view(&self) -> LoadedSecretView {
        match *self {
            LoadedSecret::Ready(secret) => LoadedSecretView::Ready(secret@),
            LoadedSecret::Missing => LoadedSecretView::Missing,
            LoadedSecret::Invalid(message) => LoadedSecretView::Invalid(message@),
        }
    }
}

/// What reading a file gave.
pub open spec fn read_view(read: Result<String, IoFailure>) -> Result<Seq<char>, IoFailureView> {
    match read {
        Ok(content) => Ok(content@),
        Err(failure) => Err(failure@),
    }
}

/// What becomes of the secret in a file, given what reading the file gave.
pub open spec fn loaded_from_file(
    path: Seq<char>,
    read: Result<Seq<char>, IoFailureView>,
) -> LoadedSecretView {
    match read {
        Err(failure) => if failure.kind == IoErrorKind::NotFound {
            LoadedSecretView::Missing
        } else {
            LoadedSecretView::Invalid(
                "Failed to read secret file "@ + path + ": "@ + failure.message,
            )
        },
        Ok(content) => match secret_in_file(content) {
            Some(secret) => LoadedSecretView::Ready(secret),
            None => LoadedSecretView::Invalid(
                "Invalid secret file at "@ + path
                    + ". Remove or replace it with a valid secret."@,
            ),
        },
    }
}

impl SecretSourceView {
    /// Two sources that differ in nothing but an inline secret.
    pub open spec fn same_but_secret(self, other: SecretSourceView) -> bool {
        self == other || (self is Inline && other is Inline)
    }

    /// What becomes of loading the secret; `read` is what reading the file gave, where
    /// the source is a file.
    pub open spec fn loaded(self, read: Result<Seq<char>, IoFailureView>) -> LoadedSecretView {
        match self {
            SecretSourceView::Inline { secret } => if valid_secret(trimmed(secret)) {
                LoadedSecretView::Ready(trimmed(secret))
            } else {
                LoadedSecretView::Invalid(
                    "Invalid secret passed via inline configuration: "@ + secret_complaint(
                        trimmed(secret),
                    ),
                )
            },
            SecretSourceView::File { path } => loaded_from_file(path, read),
        }
    }

    pub open spec fn provisioning_error(self) -> RuntimeErrorView {
        match self {
            SecretSourceView::Inline { .. } => RuntimeErrorView::Failure(
                ErrorArea::Secret,
                plain_error(
                    ServiceErrorCode::SecretPinned,
                    "Secret provisioning is unavailable because the runtime was started with an inline secret."@,
                    false,
                ),
            ),
            SecretSourceView::File { .. } => RuntimeErrorView::Failure(
                ErrorArea::Secret,
                plain_error(
                    ServiceErrorCode::ProvisioningUnavailable,
                    "Secret provisioning is unavailable."@,
                    true,
                ),
            ),
        }
    }

    pub open spec fn reset_error(self) -> RuntimeErrorView {
        match self {
            SecretSourceView::Inline { .. } => RuntimeErrorView::Failure(
                ErrorArea::Secret,
                plain_error(
                    ServiceErrorCode::SecretPinned,
                    "Secret reset is unavailable because the runtime was started with an inline secret."@,
                    false,
                ),
            ),
            SecretSourceView::File { path } => write_failure(
                "Failed to access secret file "@ + path,
            ),
        }
    }
}

/// What becomes of the secret in a file, given what reading the file gave.
pub fn load_secret_from_path(path: &str, read: Result<String, IoFailure>) -> (r: LoadedSecret)
    ensures
        r@ == loaded_from_file(path@, read_view(read)),
{
    match read {
        Err(failure) => if failure.kind == IoErrorKind::NotFound {
            LoadedSecret::Missing
        } else {
            let mut message = join3("Failed to read secret file ", path, ": ");
            message.append(failure.message.as_str());
            LoadedSecret::Invalid(message)
        },
        Ok(content) => match parse_secret_file(content.as_str()) {
            Ok(secret) => LoadedSecret::Ready(secret),
            Err(_) => LoadedSecret::Invalid(
                join3(
                    "Invalid secret file at ",
                    path,
                    ". Remove or replace it with a valid secret.",
                ),
            ),
        },
    }
}

impl SecretSource {
    /// The inline secret where the options hold one, else the secret file.
    pub fn from_options(options: &RuntimeOptions) -> (r: Self)
        ensures
            r@ == match options@.secret {
                Some(secret) => SecretSourceView::Inline { secret },
                None => SecretSourceView::File { path: options@.secret_path },
            },
    {
        match &options.secret {
            Some(secret) => SecretSource::Inline { secret: secret.clone() },
            None => SecretSource::File { path: options.secret_path.clone() },
        }
    }

    /// The secret file, if the secret comes from one.
    pub fn secret_path(&self) -> (r: Option<&str>)
        ensures
            match r {
                Some(path) => self@ == (SecretSourceView::File { path: path@ }),
                None => self@ is Inline,
            },
    {
        match self {
            SecretSource::Inline { .. } => None,
            SecretSource::File { path } => Some(path.as_str()),
        }
    }

    /// Whether a new secret can be stored.
    pub fn allows_provisioning(&self) -> (r: bool)
        ensures
            r == (self@ is File),
    {
        match self {
            SecretSource::Inline { .. } => false,
            SecretSource::File { .. } => true,
        }
    }

    /// What becomes of loading the secret. `read` is what reading the file gave; an
    /// inline secret does not look at it.
    pub fn load(&self, read: Result<String, IoFailure>) -> (r: LoadedSecret)
        ensures
            r@ == self@.loaded(read_view(read)),
    {
        match self {
            SecretSource::Inline { secret } => match validate_secret(trim(secret.as_str())) {
                Ok(secret) => LoadedSecret::Ready(secret),
                Err(error) => LoadedSecret::Invalid(
                    join2("Invalid secret passed via inline configuration: ", error.as_str()),
                ),
            },
            SecretSource::File { path } => load_secret_from_path(path.as_str(), read),
        }
    }

    /// The error for a secret that cannot be stored.
    pub fn provisioning_error(&self) -> (r: RuntimeError)
        ensures
            r@ == self@.provisioning_error(),
    {
        match self {
            SecretSource::Inline { .. } => RuntimeError::secret(
                ServiceErrorCode::SecretPinned,
                owned(
                    "Secret provisioning is unavailable because the runtime was started with an inline secret.",
                ),
                false,
            ),
            SecretSource::File { .. } => RuntimeError::secret(
                ServiceErrorCode::ProvisioningUnavailable,
                owned("Secret provisioning is unavailable."),
                true,
            ),
        }
    }

    /// The error for a secret that cannot be removed.
    pub fn reset_error(&self) -> (r: RuntimeError)
        ensures
            r@ == self@.reset_error(),
    {
        match self {
            SecretSource::Inline { .. } => RuntimeError::secret(
                ServiceErrorCode::SecretPinned,
                owned(
                    "Secret reset is unavailable because the runtime was started with an inline secret.",
                ),
                false,
            ),
            SecretSource::File { path } => write_failed(
                join2("Failed to access secret file ", path.as_str()),
            ),
        }
    }
}

impl Clone for SecretSource {
    fn clone(&self) -> (r: Self)
        ensures
            r == *self,
    {
        match self {
            SecretSource::Inline { secret } => SecretSource::Inline { secret: secret.clone() },
            SecretSource::File { path } => SecretSource::File { path: path.clone() },
        }
    }
}

// ---------------------------------------------------------------------------
// Storing the secret
// ---------------------------------------------------------------------------

/// A secret that is to be stored, and the content of the file that stores it.
#[derive(Debug)]
pub struct SecretFile {
    pub secret: String,
    pub content: String,
}

/// What is to be stored for a secret, in a TOML file or another. A text that is no secret is
/// refused.
pub open spec fn prepared_as(
    prepared: Result<SecretFile, RuntimeError>,
    is_toml: bool,
    secret: Seq<char>,
) -> bool {
    match prepared {
        Ok(file) => {
            &&& valid_secret(trimmed(secret))
            &&& file.secret@ == trimmed(secret)
            &&& file.content@ == file_content(is_toml, trimmed(secret))
            &&& secret_in_file(file.content@) == Some(trimmed(secret))
        },
        Err(error) => {
            &&& !valid_secret(trimmed(secret))
            &&& error@ == RuntimeErrorView::Failure(
                ErrorArea::Secret,
                plain_error(
                    ServiceErrorCode::InvalidSecret,
                    secret_complaint(trimmed(secret)),
                    false,
                ),
            )
        },
    }
}

/// What to store for a secret in the file `path`: the extension of a file says whether it is
/// a TOML file.
pub fn secret_file_for(path: &str, secret: &str) -> (r: Result<SecretFile, RuntimeError>)
    ensures
        exists|extension: Option<Seq<char>>| #[trigger]
            is_extension_of(path@, extension) && prepared_as(
                r,
                extension == Some("toml"@),
                secret@,
            ),
{
    let extension = path_extension(path);
    let ghost found = opt_text(extension);
    let r = match &extension {
        Some(extension) => prepare_secret_file(path, Some(extension.as_str()), secret),
        None => prepare_secret_file(path, None, secret),
    };
    assert(is_extension_of(path@, found) && prepared_as(r, found == Some("toml"@), secret@));
    r
}

/// What to store for a secret, in a file with the given extension. A text that is no
/// secret is refused before anything is written.
pub fn prepare_secret_file(path: &str, extension: Option<&str>, secret: &str) -> (r: Result<
    SecretFile,
    RuntimeError,
>)
    ensures
        prepared_as(r, extension matches Some(e) && e@ == "toml"@, secret@),
{
    let secret = match validate_secret(trim(secret)) {
        Ok(secret) => secret,
        Err(message) => return Err(
            RuntimeError::secret(ServiceErrorCode::InvalidSecret, message, false),
        ),
    };
    let is_toml = match extension {
        Some(extension) => same(extension, "toml"),
        None => false,
    };
    proof {
        lemma_hex_is_trimmed(secret@);
    }
    if is_toml {
        proof {
            reveal_strlit("secret_key");
        }
        match write_toml_string("secret_key", secret.as_str()) {
            Ok(content) => {
                proof {
                    lemma_toml_is_no_secret(secret@);
                }
                Ok(SecretFile { secret, content })
            },
            Err(error) => {
                let mut message = join3("Failed to serialize secret file ", path, ": ");
                message.append(error.as_str());
                Err(write_failed(message))
            },
        }
    } else {
        let content = secret.clone();
        Ok(SecretFile { secret, content })
    }
}

proof fn lemma_hex_is_trimmed(secret: Seq<char>)
    requires
        valid_secret(secret),
    ensures
        trimmed(secret) == secret,
{
    assert(is_hex_digit(secret[0]));
    assert(is_hex_digit(secret[secret.len() - 1]));
    assert(!whitespace(secret[0]));
    assert(!whitespace(secret.last()));
    assert(trimmed_start(secret) == secret);
    assert(trimmed_end(secret) == secret);
}

proof fn lemma_toml_is_no_secret(secret: Seq<char>)
    ensures
        !valid_secret(trimmed(file_content(true, secret))),
{
    reveal_strlit("secret_key");
    let content = file_content(true, secret);
    assert(content[0] == "secret_key"@[0]);
    assert(content[0] == 's');
    assert(trimmed_start(content) == content);
    lemma_trimmed_end_keeps_first(content);
    assert(trimmed(content)[0] == 's');
    assert(!is_hex_digit('s'));
}

proof fn lemma_trimmed_end_keeps_first(s: Seq<char>)
    requires
        s.len() > 0,
        !whitespace(s[0]),
    ensures
        trimmed_end(s).len() > 0,
        trimmed_end(s)[0] == s[0],
    decreases s.len(),
{
    if whitespace(s.last()) {
        assert(s.len() > 1);
        assert(s.drop_last()[0] == s[0]);
        lemma_trimmed_end_keeps_first(s.drop_last());
    }
}

/// A secret that was stored is loaded again as the same secret, whatever file it was
/// stored in.
pub proof fn stored_secrets_are_loaded_again(path: Seq<char>, content: Seq<char>, secret: Seq<char>)
    requires
        secret_in_file(content) == Some(secret),
    ensures
        loaded_from_file(path, Ok::<Seq<char>, IoFailureView>(content)) == LoadedSecretView::Ready(
            secret,
        ),
        (SecretSourceView::File { path }).loaded(Ok::<Seq<char>, IoFailureView>(content))
            == LoadedSecretView::Ready(secret),
{
}

/// A source is ready only with a valid secret: a text that is none is never accepted.
pub proof fn only_valid_secrets_are_loaded(
    source: SecretSourceView,
    read: Result<Seq<char>, IoFailureView>,
)
    ensures
        source.loaded(read) matches LoadedSecretView::Ready(secret) ==> valid_secret(secret),
        source is Inline ==> !(source.loaded(read) is Missing),
{
}

/// What is told to the caller who provisioned a secret, and the secret to go on with
/// if it was stored.
#[derive(Debug)]
pub struct Provisioned {
    pub ack: Result<(), String>,
    pub secret: Option<String>,
}

/// What follows the attempt to store a provisioned secret: the caller is told, and the
/// wait ends only if it was stored.
pub fn after_provision(result: Result<String, RuntimeError>) -> (r: Provisioned)
    ensures
        match result {
            Ok(secret) => r.ack == Ok::<(), String>(()) && r.secret == Some(secret),
            Err(error) => r.secret is None && r.ack is Err && r.ack->Err_0@ == error@.shown(),
        },
{
    match result {
        Ok(secret) => Provisioned { ack: Ok(()), secret: Some(secret) },
        Err(error) => Provisioned { ack: Err(error.to_text()), secret: None },
    }
}

/// The error of a wait for a secret that nobody can provision any more.
pub fn provisioning_closed() -> (r: RuntimeError)
    ensures
        r@ == RuntimeErrorView::Failure(
            ErrorArea::Secret,
            plain_error(
                ServiceErrorCode::ProvisioningUnavailable,
                "Secret provisioning channel closed."@,
                true,
            ),
        ),
{
    RuntimeError::secret(
        ServiceErrorCode::ProvisioningUnavailable,
        owned("Secret provisioning channel closed."),
        true,
    )
}

/// What is answered after the secret file was removed, or was not.
pub fn reset_secret_file(path: &str, removed: Result<(), IoFailure>) -> (r: Result<
    String,
    RuntimeError,
>)
    ensures
        match removed {
            Ok(_) => r is Ok && r->Ok_0@ == "Deleted secret file at "@ + path@
                + ". Start the runtime again to reprovision a new secret."@,
            Err(failure) => if failure.kind == IoErrorKind::NotFound {
                r is Ok && r->Ok_0@ == "Secret file was already absent at "@ + path@ + "."@
            } else {
                r is Err && r->Err_0@ == write_failure(
                    "Failed to delete secret file "@ + path@ + ": "@ + failure.message@,
                )
            },
        },
{
    match removed {
        Ok(_) => Ok(
            join3(
                "Deleted secret file at ",
                path,
                ". Start the runtime again to reprovision a new secret.",
            ),
        ),
        Err(failure) => if failure.kind == IoErrorKind::NotFound {
            Ok(join3("Secret file was already absent at ", path, "."))
        } else {
            let mut message = join3("Failed to delete secret file ", path, ": ");
            message.append(failure.message.as_str());
            Err(write_failed(message))
        },
    }
}

// ---------------------------------------------------------------------------
// The directory of the secret file
// ---------------------------------------------------------------------------

/// The walk up from the directory of the secret file to the first directory that
/// exists.
#[derive(Debug)]
pub struct ParentWalk {
    /// The directory of the secret file.
    pub parent: String,
    /// The directory to look at next.
    pub current: String,
    /// The directories that were found missing, innermost first.
    pub missing: Vec<String>,
}

/// The model of a [`ParentWalk`].
#[verifier::ext_equal]
pub struct ParentWalkView {
    pub parent: Seq<char>,
    pub current: Seq<char>,
    pub missing: Seq<Seq<char>>,
}

impl View for ParentWalk {
    type V = ParentWalkView;

    open spec fn view(&self) -> ParentWalkView {
        ParentWalkView {
            parent: self.parent@,
            current: self.current@,
            missing: texts(self.missing@),
        }
    }
}

/// What was found at a path.
#[derive(Debug)]
pub enum Inspection {
    Directory,
    NotADirectory,
    Failed(IoFailure),
}

/// The model of an [`Inspection`].
#[verifier::ext_equal]
pub enum InspectionView {
    Directory,
    NotADirectory,
    Failed(IoFailureView),
}

impl View for Inspection {
    type V = InspectionView;

    open spec fn view(&self) -> InspectionView {
        match *self {
            Inspection::Directory => InspectionView::Directory,
            Inspection::NotADirectory => InspectionView::NotADirectory,
            Inspection::Failed(failure) => InspectionView::Failed(failure@),
        }
    }
}

/// What follows a look at a directory.
#[derive(Debug)]
pub enum WalkStep {
    /// Look at the walk's current directory.
    Inspect(ParentWalk),
    /// Create the directory of the secret file and those above it that are missing.
    Create(ParentWalk),
    /// Give up.
    Fail(RuntimeError),
}

/// The model of a [`WalkStep`].
#[verifier::ext_equal]
pub enum WalkStepView {
    Inspect(ParentWalkView),
    Create(ParentWalkView),
    Fail(RuntimeErrorView),
}

impl View for WalkStep {
    type V = WalkStepView;

    open spec fn view(&self) -> WalkStepView {
        match *self {
            WalkStep::Inspect(walk) => WalkStepView::Inspect(walk@),
            WalkStep::Create(walk) => WalkStepView::Create(walk@),
            WalkStep::Fail(error) => WalkStepView::Fail(error@),
        }
    }
}

impl ParentWalkView {
    /// What follows, given what was found at the current directory and the directory
    /// above it.
    pub open spec fn step(self, found: InspectionView, above: Option<Seq<char>>) -> WalkStepView {
        match found {
            InspectionView::Directory => WalkStepView::Create(self),
            InspectionView::NotADirectory => WalkStepView::Fail(
                write_failure(
                    "Secret path parent "@ + self.current + " is not a directory"@,
                ),
            ),
            InspectionView::Failed(failure) => if failure.kind == IoErrorKind::NotFound {
                let seen = ParentWalkView { missing: self.missing.push(self.current), ..self };
                match above {
                    Some(next) => if next == self.current {
                        WalkStepView::Create(seen)
                    } else {
                        WalkStepView::Inspect(ParentWalkView { current: next, ..seen })
                    },
                    None => WalkStepView::Create(seen),
                }
            } else {
                WalkStepView::Fail(
                    write_failure(
                        "Failed to inspect secret directory "@ + self.current + ": "@
                            + failure.message,
                    ),
                )
            },
        }
    }
}

/// A walk comes to its end: where it goes on, it does so at the directory right above the last
/// one, which is named by a shorter path. It never looks beyond the root, and it lists a
/// directory only when that was found missing.
pub proof fn walks_end(walk: ParentWalkView, found: InspectionView, above: Option<Seq<char>>)
    requires
        is_parent_of(walk.current, above),
    ensures
        match walk.step(found, above) {
            WalkStepView::Inspect(next) => {
                &&& next.parent == walk.parent
                &&& next.missing == walk.missing.push(walk.current)
                &&& next.current.len() < walk.current.len()
                &&& is_slash_path(walk.current) ==> is_slash_path(next.current) && path_parts(
                    next.current,
                ) == path_parts(walk.current).above()
                &&& walk.current != seq!['/']
            },
            WalkStepView::Create(next) => {
                &&& next.parent == walk.parent
                &&& next.missing == if found is Directory {
                    walk.missing
                } else {
                    walk.missing.push(walk.current)
                }
            },
            WalkStepView::Fail(_) => true,
        },
{
    if above is Some {
        parents_have_shorter_paths(walk.current, above->0);
        if walk.current == seq!['/'] {
            nothing_is_above_the_root(walk.current, above);
        }
    }
}

impl ParentWalk {
    /// The walk for a secret file in the directory `parent`: none where the file has no
    /// directory of its own.
    pub fn start(parent: Option<&str>) -> (r: Option<Self>)
        ensures
            match r {
                Some(walk) => parent matches Some(p) && p@.len() > 0 && walk@ == (ParentWalkView {
                    parent: p@,
                    current: p@,
                    missing: Seq::empty(),
                }),
                None => parent is None || parent->0@.len() == 0,
            },
    {
        match parent {
            None => None,
            Some(parent) => if parent.is_empty() {
                None
            } else {
                let walk = ParentWalk {
                    parent: owned(parent),
                    current: owned(parent),
                    missing: Vec::new(),
                };
                assert(walk@.missing =~= Seq::empty());
                Some(walk)
            },
        }
    }

    /// The walk for the secret file `path`, from the directory above it.
    pub fn for_file(path: &str) -> (r: Option<Self>)
        ensures
            exists|parent: Option<Seq<char>>| #[trigger]
                is_parent_of(path@, parent) && match r {
                    Some(walk) => parent matches Some(p) && p.len() > 0 && walk@
                        == (ParentWalkView { parent: p, current: p, missing: Seq::empty() }),
                    None => parent is None || parent->0.len() == 0,
                },
    {
        let parent = path_parent(path);
        let ghost above = opt_text(parent);
        assert(is_parent_of(path@, above));
        match &parent {
            Some(parent) => ParentWalk::start(Some(parent.as_str())),
            None => ParentWalk::start(None),
        }
    }

    /// What follows, given what was found at the current directory.
    pub fn looked(self, found: Inspection) -> (r: WalkStep)
        ensures
            exists|above: Option<Seq<char>>| #[trigger]
                is_parent_of(self@.current, above) && r@ == self@.step(found@, above),
    {
        let above = path_parent(self.current.as_str());
        let ghost above_text = opt_text(above);
        let r = self.inspected(found, above);
        assert(is_parent_of(self@.current, above_text) && r@ == self@.step(found@, above_text));
        r
    }

    /// What follows, given what was found at the current directory and the directory
    /// above it.
    pub fn inspected(self, found: Inspection, above: Option<String>) -> (r: WalkStep)
        ensures
            r@ == self@.step(
                found@,
                match above {
                    Some(next) => Some(next@),
                    None => None,
                },
            ),
    {
        match found {
            Inspection::Directory => WalkStep::Create(self),
            Inspection::NotADirectory => WalkStep::Fail(
                write_failed(
                    join3("Secret path parent ", self.current.as_str(), " is not a directory"),
                ),
            ),
            Inspection::Failed(failure) => if failure.kind == IoErrorKind::NotFound {
                let ghost before = self@;
                let parent = self.parent;
                let current = self.current;
                let mut missing = self.missing;
                missing.push(current.clone());
                assert(texts(missing@) =~= before.missing.push(before.current));
                match above {
                    Some(next) => if next == current {
                        WalkStep::Create(ParentWalk { parent, current, missing })
                    } else {
                        WalkStep::Inspect(ParentWalk { parent, current: next, missing })
                    },
                    None => WalkStep::Create(ParentWalk { parent, current, missing }),
                }
            } else {
                let mut message = join3(
                    "Failed to inspect secret directory ",
                    self.current.as_str(),
                    ": ",
                );
                message.append(failure.message.as_str());
                WalkStep::Fail(write_failed(message))
            },
        }
    }

    /// The directories to restrict to their owner once they exist: those that were
    /// missing.
    pub fn created(self, result: Result<(), IoFailure>) -> (r: Result<Vec<String>, RuntimeError>)
        ensures
            match result {
                Ok(_) => r is Ok && texts(r->Ok_0@) == self@.missing,
                Err(failure) => r is Err && r->Err_0@ == write_failure(
                    "Failed to create secret directory "@ + self@.parent + ": "@
                        + failure.message@,
                ),
            },
    {
        match result {
            Ok(_) => Ok(self.missing),
            Err(failure) => {
                let mut message = join3(
                    "Failed to create secret directory ",
                    self.parent.as_str(),
                    ": ",
                );
                message.append(failure.message.as_str());
                Err(write_failed(message))
            },
        }
    }
}

/// What follows the attempt to restrict a directory to its owner.
pub fn directory_secured(directory: &str, result: Result<(), IoFailure>) -> (r: Result<
    (),
    RuntimeError,
>)
    ensures
        match result {
            Ok(_) => r is Ok,
            Err(failure) => r is Err && r->Err_0@ == write_failure(
                "Failed to secure secret directory "@ + directory@ + ": "@ + failure.message@,
            ),
        },
{
    match result {
        Ok(_) => Ok(()),
        Err(failure) => {
            let mut message = join3("Failed to secure secret directory ", directory, ": ");
            message.append(failure.message.as_str());
            Err(write_failed(message))
        },
    }
}

/// The walk only ever collects directories that were not there: a directory that was
/// found is created or secured by nobody, and what was collected before stays.
pub proof fn walk_collects_only_missing_directories(
    walk: ParentWalkView,
    found: InspectionView,
    above: Option<Seq<char>>,
)
    ensures
        walk.step(found, above) matches WalkStepView::Create(next) ==> next.missing == (
        if found is Directory {
            walk.missing
        } else {
            walk.missing.push(walk.current)
        }) && next.parent == walk.parent,
        walk.step(found, above) matches WalkStepView::Inspect(next) ==> next.missing
            == walk.missing.push(walk.current) && next.parent == walk.parent && next.current
            != walk.current,
        found is Directory ==> !(walk.step(found, above) is Fail),
{
}

// ---------------------------------------------------------------------------
// Writing the secret file
// ---------------------------------------------------------------------------

/// The permission bits of a directory that is made for the secret.
pub const SECRET_DIRECTORY_MODE: u32 = 0o700;

/// The permission bits of the secret file.
pub const SECRET_FILE_MODE: u32 = 0o600;

/// The name of the file that a secret is written to before it replaces the old file.
pub open spec fn temporary_name(file_name: Seq<char>, pid: u32, suffix: Seq<u8>) -> Seq<char> {
    "."@ + file_name + ".tmp-"@ + decimal(pid as nat) + "-"@ + DEFAULT_VARIANT_ID@ + "-"@
        + hex_text(suffix)
}

/// The name of the secret file, where it can be read.
pub open spec fn name_or_default(file_name: Option<Seq<char>>) -> Seq<char> {
    match file_name {
        Some(name) => name,
        None => "playit.toml"@,
    }
}

/// The name of a file as text.
pub open spec fn name_text(file_name: Option<&str>) -> Option<Seq<char>> {
    match file_name {
        Some(name) => Some(name@),
        None => None,
    }
}

/// The name of a temporary file, given the random part of it.
pub fn temporary_file_name_with(file_name: Option<&str>, pid: u32, suffix: &[u8]) -> (r: String)
    ensures
        r@ == temporary_name(
            name_or_default(name_text(file_name)),
            pid,
            suffix@,
        ),
{
    let name = match file_name {
        Some(name) => name,
        None => "playit.toml",
    };
    let pid_text = decimal_text(pid as u64);
    let random = encode_hex(suffix);
    let mut out = join3(".", name, ".tmp-");
    out.append(pid_text.as_str());
    out.append("-");
    out.append(DEFAULT_VARIANT_ID);
    out.append("-");
    out.append(random.as_str());
    out
}

/// The name of a new temporary file beside the secret file, with eight random bytes in
/// it.
pub fn temporary_file_name(file_name: Option<&str>, pid: u32) -> (r: String)
    ensures
        exists|suffix: Seq<u8>|
            suffix.len() == 8 && r@ == #[trigger] temporary_name(
                name_or_default(name_text(file_name)),
                pid,
                suffix,
            ),
{
    let suffix = random_bytes(8);
    temporary_file_name_with(file_name, pid, suffix.as_slice())
}

/// The directory of a file, given what is above it: the current one where nothing is.
pub open spec fn directory_or_here(parent: Option<Seq<char>>) -> Seq<char> {
    if parent is Some && parent->0.len() > 0 {
        parent->0
    } else {
        "."@
    }
}

/// Where the temporary file beside the secret file `path` is: its directory and its name.
pub fn temporary_file_for(path: &str, pid: u32) -> (r: (String, String))
    ensures
        exists|parent: Option<Seq<char>>| #[trigger]
            is_parent_of(path@, parent) && r.0@ == directory_or_here(parent),
        exists|name: Option<Seq<char>>, suffix: Seq<u8>|
            #![trigger is_file_name_of(path@, name), temporary_name(name_or_default(name), pid, suffix)]
            is_file_name_of(path@, name) && suffix.len() == 8 && r.1@ == temporary_name(
                name_or_default(name),
                pid,
                suffix,
            ),
{
    let parent = path_parent(path);
    let ghost above = opt_text(parent);
    let directory = match parent {
        Some(parent) => if parent.as_str().is_empty() {
            owned(".")
        } else {
            parent
        },
        None => owned("."),
    };
    assert(is_parent_of(path@, above) && directory@ == directory_or_here(above));
    let file_name = path_file_name(path);
    let ghost found = opt_text(file_name);
    let name = match &file_name {
        Some(name) => temporary_file_name(Some(name.as_str()), pid),
        None => temporary_file_name(None, pid),
    };
    assert(is_file_name_of(path@, found));
    assert(exists|suffix: Seq<u8>|
        suffix.len() == 8 && name@ == #[trigger] temporary_name(
            name_or_default(found),
            pid,
            suffix,
        ));
    (directory, name)
}

/// How the system restricts files to their owner.
#[derive(Clone, Copy, Debug, PartialEq, Eq, Structural)]
pub enum FileSecurity {
    /// Permission bits.
    Unix,
    /// Access control lists.
    Windows,
}

/// One step of writing the secret file.
#[derive(Clone, Copy, Debug, PartialEq, Eq, Structural)]
pub enum WriteStep {
    /// Create the temporary file, which must not exist; on Unix for the owner only.
    Create,
    /// Restrict the temporary file to its owner.
    ProtectTemporary,
    /// Write the content.
    Write,
    /// Flush the content to the disk.
    Sync,
    /// Put the temporary file in the place of the secret file.
    Replace,
    /// Restrict the secret file to its owner.
    ProtectFile,
}

impl WriteStep {
    /// The step after this one.
    pub open spec fn after(self, security: FileSecurity) -> Option<WriteStep> {
        match self {
            WriteStep::Create => Some(
                match security {
                    FileSecurity::Unix => WriteStep::Write,
                    FileSecurity::Windows => WriteStep::ProtectTemporary,
                },
            ),
            WriteStep::ProtectTemporary => Some(WriteStep::Write),
            WriteStep::Write => Some(WriteStep::Sync),
            WriteStep::Sync => Some(WriteStep::Replace),
            WriteStep::Replace => Some(WriteStep::ProtectFile),
            WriteStep::ProtectFile => None,
        }
    }

    /// The message for a step that failed.
    pub open spec fn complaint(
        self,
        security: FileSecurity,
        path: Seq<char>,
        temporary: Seq<char>,
        error: Seq<char>,
    ) -> Seq<char> {
        match self {
            WriteStep::Create => "Failed to create temporary secret file "@ + temporary + ": "@
                + error,
            WriteStep::ProtectTemporary => "Failed to secure temporary secret file "@ + temporary
                + ": "@ + error,
            WriteStep::Write => "Failed to write temporary secret file "@ + temporary + ": "@
                + error,
            WriteStep::Sync => "Failed to sync temporary secret file "@ + temporary + ": "@ + error,
            WriteStep::Replace => "Failed to replace secret file "@ + path + " with "@ + temporary
                + ": "@ + error,
            WriteStep::ProtectFile => (match security {
                FileSecurity::Unix => "Failed to set secret file permissions on "@,
                FileSecurity::Windows => "Failed to secure secret file "@,
            }) + path + ": "@ + error,
        }
    }
}

/// A secret file that is being written.
#[derive(Debug)]
pub struct SecretWrite {
    pub security: FileSecurity,
    pub path: String,
    pub temporary: String,
    /// The step to perform next.
    pub step: WriteStep,
}

/// What follows a step of writing the secret file.
#[derive(Debug)]
pub enum WriteProgress {
    /// Perform the next step.
    Perform(SecretWrite),
    /// The file is written.
    Done,
    /// Remove the temporary file and report the error.
    Abort { temporary: String, error: RuntimeError },
}

impl SecretWrite {
    /// Write the secret file `path` by way of the file `temporary`.
    pub fn start(security: FileSecurity, path: String, temporary: String) -> (r: Self)
        ensures
            r == (SecretWrite { security, path, temporary, step: WriteStep::Create }),
    {
        SecretWrite { security, path, temporary, step: WriteStep::Create }
    }

    /// What follows, given what came of the current step.
    pub fn performed(self, result: Result<(), IoFailure>) -> (r: WriteProgress)
        ensures
            match result {
                Ok(_) => match self.step.after(self.security) {
                    Some(step) => r == WriteProgress::Perform(SecretWrite { step, ..self }),
                    None => r is Done,
                },
                Err(failure) => {
                    &&& r is Abort
                    &&& r->temporary == self.temporary
                    &&& r->error@ == write_failure(
                        self.step.complaint(
                            self.security,
                            self.path@,
                            self.temporary@,
                            failure.message@,
                        ),
                    )
                },
            },
    {
        match result {
            Ok(_) => {
                let step = match self.step {
                    WriteStep::Create => match self.security {
                        FileSecurity::Unix => WriteStep::Write,
                        FileSecurity::Windows => WriteStep::ProtectTemporary,
                    },
                    WriteStep::ProtectTemporary => WriteStep::Write,
                    WriteStep::Write => WriteStep::Sync,
                    WriteStep::Sync => WriteStep::Replace,
                    WriteStep::Replace => WriteStep::ProtectFile,
                    WriteStep::ProtectFile => return WriteProgress::Done,
                };
                WriteProgress::Perform(
                    SecretWrite {
                        security: self.security,
                        path: self.path,
                        temporary: self.temporary,
                        step,
                    },
                )
            },
            Err(failure) => {
                let mut message = match self.step {
                    WriteStep::Create => join2(
                        "Failed to create temporary secret file ",
                        self.temporary.as_str(),
                    ),
                    WriteStep::ProtectTemporary => join2(
                        "Failed to secure temporary secret file ",
                        self.temporary.as_str(),
                    ),
                    WriteStep::Write => join2(
                        "Failed to write temporary secret file ",
                        self.temporary.as_str(),
                    ),
                    WriteStep::Sync => join2(
                        "Failed to sync temporary secret file ",
                        self.temporary.as_str(),
                    ),
                    WriteStep::Replace => {
                        let mut out = join3(
                            "Failed to replace secret file ",
                            self.path.as_str(),
                            " with ",
                        );
                        out.append(self.temporary.as_str());
                        out
                    },
                    WriteStep::ProtectFile => match self.security {
                        FileSecurity::Unix => join2(
                            "Failed to set secret file permissions on ",
                            self.path.as_str(),
                        ),
                        FileSecurity::Windows => join2(
                            "Failed to secure secret file ",
                            self.path.as_str(),
                        ),
                    },
                };
                message.append(": ");
                message.append(failure.message.as_str());
                WriteProgress::Abort { temporary: self.temporary, error: write_failed(message) }
            },
        }
    }
}

/// How many steps are left, the current one included.
pub open spec fn steps_left(step: WriteStep) -> nat {
    match step {
        WriteStep::Create => 6,
        WriteStep::ProtectTemporary => 5,
        WriteStep::Write => 4,
        WriteStep::Sync => 3,
        WriteStep::Replace => 2,
        WriteStep::ProtectFile => 1,
    }
}

/// The steps come to an end; the secret file is replaced only after the whole content
/// is on the disk, the file is restricted after it was replaced, and where files are
/// created open to others the content is written only after the file was restricted.
pub proof fn secret_files_are_replaced_whole(step: WriteStep, security: FileSecurity)
    ensures
        step.after(security) matches Some(next) ==> steps_left(next) < steps_left(step),
        step.after(security) == Some(WriteStep::Replace) <==> step == WriteStep::Sync,
        step.after(security) == Some(WriteStep::Sync) <==> step == WriteStep::Write,
        step.after(security) == Some(WriteStep::ProtectFile) <==> step == WriteStep::Replace,
        step.after(security) is None <==> step == WriteStep::ProtectFile,
        security == FileSecurity::Windows ==> (step.after(security) == Some(WriteStep::Write)
            <==> step == WriteStep::ProtectTemporary),
{
}

// ---------------------------------------------------------------------------
// Laws of secrets
// ---------------------------------------------------------------------------

/// A secret is any text that is not empty, has an even number of characters, and holds none but
/// hexadecimal digits, in either case. Neither its length nor anything else about it matters.
pub proof fn secrets_are_hexadecimal_text(secret: Seq<char>)
    ensures
        valid_secret(secret) <==> {
            &&& secret.len() > 0
            &&& secret.len() % 2 == 0
            &&& forall|i: int|
                0 <= i < secret.len() ==> {
                    ||| '0' <= #[trigger] secret[i] <= '9'
                    ||| 'a' <= secret[i] <= 'f'
                    ||| 'A' <= secret[i] <= 'F'
                }
        },
        !valid_secret(secret) && secret.len() > 0 ==> secret_complaint(secret)
            == "The secret is not valid. It should be the key generated by playit setup."@,
        secret.len() == 0 ==> secret_complaint(secret)
            == "The secret is empty. It should be the key generated by playit setup."@,
{
    if valid_secret(secret) {
        assert forall|i: int| 0 <= i < secret.len() implies '0' <= #[trigger] secret[i] <= '9'
            || 'a' <= secret[i] <= 'f' || 'A' <= secret[i] <= 'F' by {
            assert(is_hex_digit(secret[i]));
        }
    }
}

/// Every key of at least one byte, written in hexadecimal, is a secret: it is accepted inline
/// and from a file, with any whitespace around it left out before, and it is used as it stands.
pub proof fn every_written_key_is_a_secret(bytes: Seq<u8>, path: Seq<char>)
    requires
        bytes.len() > 0,
    ensures
        hex_text(bytes).len() == 2 * bytes.len(),
        valid_secret(hex_text(bytes)),
        secret_in_file(hex_text(bytes)) == Some(hex_text(bytes)),
        forall|read: Result<Seq<char>, IoFailureView>| #[trigger]
            (SecretSourceView::Inline { secret: hex_text(bytes) }).loaded(read)
                == LoadedSecretView::Ready(hex_text(bytes)),
        (SecretSourceView::File { path }).loaded(Ok(hex_text(bytes))) == LoadedSecretView::Ready(
            hex_text(bytes),
        ),
{
    reveal_strlit("0123456789abcdef");
    let text = hex_text(bytes);
    assert forall|i: int| 0 <= i < text.len() implies is_hex_digit(#[trigger] text[i]) by {
        let b = bytes[i / 2] as int;
        let n = if i % 2 == 0 {
            b / 16
        } else {
            b % 16
        };
        assert(0 <= n < 16);
        assert(text[i] == hex_digit(n));
        assert(n == 0 || n == 1 || n == 2 || n == 3 || n == 4 || n == 5 || n == 6 || n == 7 || n
            == 8 || n == 9 || n == 10 || n == 11 || n == 12 || n == 13 || n == 14 || n == 15);
    }
    lemma_hex_is_trimmed(text);
}

/// What a file holds is the secret, without the whitespace around it, where that is hexadecimal
/// text, and else the string under `secret_key` if that is. A file with neither holds none.
pub proof fn files_hold_one_secret(content: Seq<char>)
    ensures
        ({
            let whole = trimmed(content);
            let entry = toml_string(content, "secret_key"@);
            &&& whole.len() > 0 && is_hex_text(whole) ==> secret_in_file(content) == Some(whole)
            &&& !(whole.len() > 0 && is_hex_text(whole)) ==> match entry {
                Some(value) => if trimmed(value).len() > 0 && is_hex_text(trimmed(value)) {
                    secret_in_file(content) == Some(trimmed(value))
                } else {
                    secret_in_file(content) is None
                },
                None => secret_in_file(content) is None,
            }
        }),
{
}

/// A secret is missing exactly when it comes from a file that is not there. A file that cannot
/// be read, or holds no secret, and an inline text that is none, are told as invalid; only a
/// secret that is hexadecimal text is ready.
pub proof fn sources_tell_what_they_have(
    source: SecretSourceView,
    read: Result<Seq<char>, IoFailureView>,
)
    ensures
        source.loaded(read) is Missing <==> source is File && (read matches Err(failure)
            && failure.kind == IoErrorKind::NotFound),
        source.loaded(read) matches LoadedSecretView::Ready(secret) ==> secret.len() > 0
            && is_hex_text(secret),
        source matches SecretSourceView::Inline { secret } ==> (source.loaded(read) is Ready
            <==> trimmed(secret).len() > 0 && is_hex_text(trimmed(secret))) && (source.loaded(read)
            is Ready ==> source.loaded(read) == LoadedSecretView::Ready(trimmed(secret))),
        source is File && read is Ok ==> (source.loaded(read) is Ready <==> secret_in_file(
            read->Ok_0,
        ) is Some) && (source.loaded(read) is Ready ==> source.loaded(read)
            == LoadedSecretView::Ready(secret_in_file(read->Ok_0)->0)),
        source matches SecretSourceView::File { path } ==> (read matches Err(failure)
            ==> failure.kind != IoErrorKind::NotFound ==> source.loaded(read)
            == LoadedSecretView::Invalid(
            "Failed to read secret file "@ + path + ": "@ + failure.message,
        )),
{
}

/// An inline secret can be neither provisioned nor reset, now or later; what keeps a secret file
/// from being provisioned or removed may go away.
pub proof fn inline_secrets_are_pinned(source: SecretSourceView)
    ensures
        source is Inline ==> {
            &&& source.provisioning_error().service_error().code == ServiceErrorCode::SecretPinned
            &&& !source.provisioning_error().service_error().retryable
            &&& source.reset_error().service_error().code == ServiceErrorCode::SecretPinned
            &&& !source.reset_error().service_error().retryable
        },
        source matches SecretSourceView::File { path } ==> {
            &&& source.provisioning_error().service_error().code
                == ServiceErrorCode::ProvisioningUnavailable
            &&& source.provisioning_error().service_error().retryable
            &&& source.reset_error().service_error() == (ServiceErrorView {
                code: ServiceErrorCode::SecretWriteFailed,
                message: "Failed to access secret file "@ + path,
                retryable: true,
                details: None,
            })
        },
{
}

/// A secret file holds the secret alone, or in a TOML file the one line that names it; what is
/// stored is the secret without the whitespace around it.
pub proof fn stored_files_hold_the_secret(
    prepared: Result<SecretFile, RuntimeError>,
    is_toml: bool,
    secret: Seq<char>,
)
    requires
        prepared_as(prepared, is_toml, secret),
    ensures
        prepared is Ok <==> trimmed(secret).len() > 0 && is_hex_text(trimmed(secret)),
        prepared matches Ok(file) ==> {
            &&& file.secret@ == trimmed(secret)
            &&& is_toml ==> file.content@ == "secret_key"@ + " = \""@ + trimmed(secret) + "\"\n"@
            &&& !is_toml ==> file.content@ == trimmed(secret)
            &&& secret_in_file(file.content@) == Some(trimmed(secret))
        },
        prepared matches Err(error) ==> error@.service_error().code
            == ServiceErrorCode::InvalidSecret && !error@.service_error().retryable,
{
}

/// The walk looks further up only from a directory that is missing. It creates directories once
/// it found one that is there, or came to the top, and gives up, with an error that may go away,
/// at anything that is no directory or cannot be looked at.
pub proof fn walks_stop_at_what_is_there(
    walk: ParentWalkView,
    found: InspectionView,
    above: Option<Seq<char>>,
)
    ensures
        ({
            let step = walk.step(found, above);
            let missing = found matches InspectionView::Failed(failure) && failure.kind
                == IoErrorKind::NotFound;
            &&& found is Directory ==> step == WalkStepView::Create(walk)
            &&& missing && above is Some && above->0 != walk.current ==> step
                == WalkStepView::Inspect(
                ParentWalkView {
                    parent: walk.parent,
                    current: above->0,
                    missing: walk.missing.push(walk.current),
                },
            )
            &&& missing && above is None ==> step == WalkStepView::Create(
                ParentWalkView { missing: walk.missing.push(walk.current), ..walk },
            )
            &&& step is Fail <==> !(found is Directory) && !missing
            &&& step matches WalkStepView::Fail(error) ==> error.service_error().code
                == ServiceErrorCode::SecretWriteFailed && error.service_error().retryable
        }),
{
}

/// A secret file is written in one order: it is created beside the old one, restricted first
/// where that is not done on creation, written, flushed, put in the place of the old one, and
/// restricted again. Only the owner can read it, and enter a directory that was made for it.
pub proof fn secret_files_are_written_in_order()
    ensures
        WriteStep::Create.after(FileSecurity::Unix) == Some(WriteStep::Write),
        WriteStep::Create.after(FileSecurity::Windows) == Some(WriteStep::ProtectTemporary),
        forall|security: FileSecurity| #[trigger]
            WriteStep::ProtectTemporary.after(security) == Some(WriteStep::Write),
        forall|security: FileSecurity| #[trigger]
            WriteStep::Write.after(security) == Some(WriteStep::Sync),
        forall|security: FileSecurity| #[trigger]
            WriteStep::Sync.after(security) == Some(WriteStep::Replace),
        forall|security: FileSecurity| #[trigger]
            WriteStep::Replace.after(security) == Some(WriteStep::ProtectFile),
        SECRET_FILE_MODE == 0o600,
        SECRET_DIRECTORY_MODE == 0o700,
{
}

/// What is told of a failed step ends with the reason, after the file that the step was about.
pub proof fn failed_writes_name_their_file(
    step: WriteStep,
    security: FileSecurity,
    path: Seq<char>,
    temporary: Seq<char>,
    error: Seq<char>,
)
    ensures
        ({
            let told = step.complaint(security, path, temporary, error);
            let end = (if step is ProtectFile {
                path
            } else {
                temporary
            }) + ": "@ + error;
            told.len() > end.len() && told.skip(told.len() - end.len()) == end
        }),
{
    reveal_strlit("Failed to create temporary secret file ");
    reveal_strlit("Failed to secure temporary secret file ");
    reveal_strlit("Failed to write temporary secret file ");
    reveal_strlit("Failed to sync temporary secret file ");
    reveal_strlit("Failed to replace secret file ");
    reveal_strlit("Failed to set secret file permissions on ");
    reveal_strlit("Failed to secure secret file ");
    let told = step.complaint(security, path, temporary, error);
    let end = (if step is ProtectFile {
        path
    } else {
        temporary
    }) + ": "@ + error;
    assert(told.skip(told.len() - end.len()) =~= end);
}

/// Files that are written at the same time do not get in each other's way: the random part of a
/// temporary file's name tells it from every other one for the same file and process, and its
/// name tells it from the file itself.
pub proof fn temporary_names_differ(file_name: Seq<char>, pid: u32, a: Seq<u8>, b: Seq<u8>)
    requires
        a != b,
        a.len() == b.len(),
    ensures
        temporary_name(file_name, pid, a) != temporary_name(file_name, pid, b),
        temporary_name(file_name, pid, a).len() > file_name.len(),
        temporary_name(file_name, pid, a).subrange(1, 1 + file_name.len() as int) == file_name,
        temporary_name(file_name, pid, a)[0] == '.',
{
    reveal_strlit(".");
    reveal_strlit("0123456789abcdef");
    let start = "."@ + file_name + ".tmp-"@ + decimal(pid as nat) + "-"@ + DEFAULT_VARIANT_ID@
        + "-"@;
    let left = temporary_name(file_name, pid, a);
    let right = temporary_name(file_name, pid, b);
    assert(left =~= start + hex_text(a));
    assert(right =~= start + hex_text(b));
    assert(left.subrange(1, 1 + file_name.len() as int) =~= file_name);
    if left == right {
        assert forall|i: int| 0 <= i < a.len() implies a[i] == b[i] by {
            let n = start.len() as int;
            assert(left[n + 2 * i] == hex_text(a)[2 * i]);
            assert(right[n + 2 * i] == hex_text(b)[2 * i]);
            assert(left[n + 2 * i + 1] == hex_text(a)[2 * i + 1]);
            assert(right[n + 2 * i + 1] == hex_text(b)[2 * i + 1]);
            assert((2 * i) % 2 == 0 && (2 * i) / 2 == i);
            assert((2 * i + 1) % 2 == 1 && (2 * i + 1) / 2 == i);
            lemma_hex_digits_differ(a[i] as int / 16, b[i] as int / 16);
            lemma_hex_digits_differ(a[i] as int % 16, b[i] as int % 16);
        }
        assert(a =~= b);
    }
}

proof fn lemma_hex_digits_differ(n: int, m: int)
    requires
        0 <= n < 16,
        0 <= m < 16,
        hex_digit(n) == hex_digit(m),
    ensures
        n == m,
{
    reveal_strlit("0123456789abcdef");
    assert(n == 0 || n == 1 || n == 2 || n == 3 || n == 4 || n == 5 || n == 6 || n == 7 || n == 8
        || n == 9 || n == 10 || n == 11 || n == 12 || n == 13 || n == 14 || n == 15);
    assert(m == 0 || m == 1 || m == 2 || m == 3 || m == 4 || m == 5 || m == 6 || m == 7 || m == 8
        || m == 9 || m == 10 || m == 11 || m == 12 || m == 13 || m == 14 || m == 15);
}

/// What became of loading a secret is told as what it is.
pub proof fn loaded_secrets_say_what_they_are(loaded: LoadedSecret)
    ensures
        loaded matches LoadedSecret::Ready(secret) ==> loaded@ == LoadedSecretView::Ready(secret@),
        loaded is Missing ==> loaded@ == LoadedSecretView::Missing,
        loaded matches LoadedSecret::Invalid(message)
            ==> loaded@ == LoadedSecretView::Invalid(message@),
{
}

/// The source of a secret is told as what it is.
pub proof fn sources_say_what_they_are(source: SecretSource)
    ensures
        source matches SecretSource::Inline { secret }
            ==> source@ == (SecretSourceView::Inline { secret: secret@ }),
        source matches SecretSource::File { path }
            ==> source@ == (SecretSourceView::File { path: path@ }),
{
}

/// What is wrong with a secret, or with the directory for it, is told in words that name it.
pub proof fn bad_secrets_are_told(
    walk: ParentWalkView,
    source: SecretSourceView,
    read: Result<Seq<char>, IoFailureView>,
    above: Option<Seq<char>>,
)
    ensures
        walk.step(InspectionView::NotADirectory, above) == WalkStepView::Fail(
            write_failure("Secret path parent "@ + walk.current + " is not a directory"@),
        ),
        forall|failure: IoFailureView|
            failure.kind != IoErrorKind::NotFound ==> #[trigger] walk.step(
                InspectionView::Failed(failure),
                above,
            ) == WalkStepView::Fail(
                write_failure(
                    "Failed to inspect secret directory "@ + walk.current + ": "@
                        + failure.message,
                ),
            ),
        source matches SecretSourceView::Inline { secret } ==> (source.loaded(read)
            matches LoadedSecretView::Invalid(message) ==> message
            == "Invalid secret passed via inline configuration: "@ + secret_complaint(
            trimmed(secret),
        )),
        source matches SecretSourceView::File { path } ==> read is Ok ==> (source.loaded(read)
            matches LoadedSecretView::Invalid(message) ==> message == "Invalid secret file at "@
            + path + ". Remove or replace it with a valid secret."@),
        source is Inline ==> source.provisioning_error().service_error().message
            == "Secret provisioning is unavailable because the runtime was started with an inline secret."@,
        source is File ==> source.provisioning_error().service_error().message
            == "Secret provisioning is unavailable."@,
        source is Inline ==> source.reset_error().service_error().message
            == "Secret reset is unavailable because the runtime was started with an inline secret."@,
        forall|message: Seq<char>| #[trigger]
            write_failure(message) == RuntimeErrorView::Failure(
                ErrorArea::Secret,
                ServiceErrorView {
                    code: ServiceErrorCode::SecretWriteFailed,
                    message,
                    retryable: true,
                    details: None,
                },
            ),
        name_or_default(None) == "playit.toml"@,
        forall|name: Seq<char>| #[trigger] name_or_default(Some(name)) == name,
        directory_or_here(None) == "."@,
        forall|parent: Seq<char>|
            #[trigger] directory_or_here(Some(parent)) == if parent.len() > 0 {
                parent
            } else {
                "."@
            },
{
}

/// The name of a temporary file tells the file, the process and the variant that it is for.
pub proof fn temporary_names_tell_their_origin(file_name: Seq<char>, pid: u32, suffix: Seq<u8>)
    ensures
        temporary_name(file_name, pid, suffix) == "."@ + file_name + ".tmp-"@ + decimal(pid as nat)
            + "-"@ + "308943e8-faef-4835-a2ba-270351f72aa3"@ + "-"@ + hex_text(suffix),
{
}

} // verus!

//! Keeping an account session between runs.
//!
//! Only the session is ever kept, never a password or a one-time code.

use vstd::prelude::*;

use crate::auth::AccountSession;
use crate::error::{IoErrorKind, IoFailure};
use crate::outside::{debug_quoted, path_parent, quote_debug, unix_now_secs};
use crate::paths::is_parent_of;
use crate::text::{decimal, decimal_text, join2, join3, opt_text, owned};

verus! {

/// The version of the stored form.
pub const SESSION_FORMAT_VERSION: u32 = 1;

/// The permission bits of a session file.
pub const SESSION_FILE_MODE: u32 = 0o600;

/// An account session as it is stored. Its key is a secret.
pub struct PersistedSession {
    pub version: u32,
    /// The address of the API that issued the session.
    pub api_base: String,
    /// The secret.
    pub session_key: String,
    pub account_id: u64,
    /// When the session was stored, in seconds since the Unix epoch.
    pub saved_at_unix: u64,
}

/// The model of a [`PersistedSession`].
#[verifier::ext_equal]
pub struct PersistedSessionView {
    pub version: u32,
    pub api_base: Seq<char>,
    pub session_key: Seq<char>,
    pub account_id: u64,
    pub saved_at_unix: u64,
}

impl View for PersistedSession {
    type V = PersistedSessionView;

    open spec fn view(&self) -> PersistedSessionView {
        PersistedSessionView {
            version: self.version,
            api_base: self.api_base@,
            session_key: self.session_key@,
            account_id: self.account_id,
            saved_at_unix: self.saved_at_unix,
        }
    }
}

/// A session as it is stored at some moment.
pub open spec fn snapshot_of(session: AccountSession, now: u64) -> PersistedSessionView {
    PersistedSessionView {
        version: SESSION_FORMAT_VERSION,
        api_base: session@.api_base,
        session_key: session@.session.session_key,
        account_id: session@.session.auth.account_id,
        saved_at_unix: now,
    }
}

impl PersistedSessionView {
    /// What may be shown of the session.
    pub open spec fn shown(self) -> Seq<char> {
        "PersistedSession { version: "@ + decimal(self.version as nat) + ", api_base: "@
            + debug_quoted(self.api_base) + ", session_key: \"<redacted>\", account_id: "@
            + decimal(self.account_id as nat) + ", saved_at_unix: "@ + decimal(
            self.saved_at_unix as nat,
        ) + " }"@
    }
}

impl PersistedSession {
    /// A session as it is stored now.
    pub fn from_account_session(session: &AccountSession) -> (r: Self)
        ensures
            r@ == snapshot_of(*session, r@.saved_at_unix),
    {
        PersistedSession::saved_at(session, unix_now_secs())
    }

    /// A session as it is stored at the moment `now`.
    pub fn saved_at(session: &AccountSession, now: u64) -> (r: Self)
        ensures
            r@ == snapshot_of(*session, now),
    {
        PersistedSession {
            version: SESSION_FORMAT_VERSION,
            api_base: owned(session.api_base()),
            session_key: session.session().session_key.clone(),
            account_id: session.account_id(),
            saved_at_unix: now,
        }
    }

    /// The session with its key left out.
    pub fn debug_text(&self) -> (r: String)
        ensures
            r@ == self@.shown(),
    {
        let version = decimal_text(self.version as u64);
        let base = quote_debug(self.api_base.as_str());
        let id = decimal_text(self.account_id);
        let saved = decimal_text(self.saved_at_unix);
        let mut out = join3("PersistedSession { version: ", version.as_str(), ", api_base: ");
        out.append(base.as_str());
        out.append(", session_key: \"<redacted>\", account_id: ");
        out.append(id.as_str());
        out.append(", saved_at_unix: ");
        out.append(saved.as_str());
        out.append(" }");
        out
    }
}

impl Clone for PersistedSession {
    fn clone(&self) -> (r: Self)
        ensures
            r == *self,
    {
        PersistedSession {
            version: self.version,
            api_base: self.api_base.clone(),
            session_key: self.session_key.clone(),
            account_id: self.account_id,
            saved_at_unix: self.saved_at_unix,
        }
    }
}

/// What is shown of a stored session does not depend on its secret key.
pub proof fn shown_snapshots_hide_their_key(session: PersistedSessionView, key: Seq<char>)
    ensures
        session.shown() == (PersistedSessionView { session_key: key, ..session }).shown(),
{
}

// ---------------------------------------------------------------------------
// Stores
// ---------------------------------------------------------------------------

/// Why a store failed.
#[derive(Debug)]
pub enum SessionStoreError {
    /// The store is unavailable or refused the operation.
    Unavailable(String),
}

impl SessionStoreError {
    /// The reason.
    pub open spec fn reason(self) -> Seq<char> {
        match self {
            SessionStoreError::Unavailable(error) => error@,
        }
    }

    /// The error in words.
    pub fn to_text(&self) -> (r: String)
        ensures
            r@ == "session store unavailable: "@ + self.reason(),
    {
        match self {
            SessionStoreError::Unavailable(error) => join2(
                "session store unavailable: ",
                error.as_str(),
            ),
        }
    }
}

/// The error for a store that an I/O failure keeps from working.
pub fn io_unavailable(failure: IoFailure) -> (r: SessionStoreError)
    ensures
        r.reason() == failure.message@,
{
    SessionStoreError::Unavailable(failure.message)
}

/// A store for at most one session.
pub trait SessionStore {
    /// The session that is stored.
    spec fn stored(&self) -> Option<PersistedSessionView>;

    /// Store a session in the place of any other.
    fn save(&mut self, session: PersistedSession) -> (r: Result<(), SessionStoreError>)
        ensures
            r is Ok ==> final(self).stored() == Some(session@),
    ;

    /// The session that is stored.
    fn load(&self) -> (r: Result<Option<PersistedSession>, SessionStoreError>)
        ensures
            r matches Ok(Some(session)) ==> self.stored() == Some(session@),
            r matches Ok(None) ==> self.stored() is None,
    ;

    /// Remove what is stored.
    fn clear(&mut self) -> (r: Result<(), SessionStoreError>)
        ensures
            r is Ok ==> final(self).stored() is None,
    ;
}

/// A store that lives as long as this value.
pub struct MemorySessionStore {
    pub inner: Option<PersistedSession>,
}

impl MemorySessionStore {
    /// An empty store.
    pub fn new() -> (r: Self)
        ensures
            r.stored() is None,
    {
        MemorySessionStore { inner: None }
    }
}

impl Default for MemorySessionStore {
    fn default() -> (r: Self)
        ensures
            r.stored() is None,
    {
        MemorySessionStore::new()
    }
}

impl SessionStore for MemorySessionStore {
    open spec fn stored(&self) -> Option<PersistedSessionView> {
        match self.inner {
            Some(session) => Some(session@),
            None => None,
        }
    }

    fn save(&mut self, session: PersistedSession) -> (r: Result<(), SessionStoreError>)
        ensures
            r is Ok,
    {
        self.inner = Some(session);
        Ok(())
    }

    fn load(&self) -> (r: Result<Option<PersistedSession>, SessionStoreError>)
        ensures
            r is Ok,
    {
        Ok(
            match &self.inner {
                Some(session) => Some(session.clone()),
                None => None,
            },
        )
    }

    fn clear(&mut self) -> (r: Result<(), SessionStoreError>)
        ensures
            r is Ok,
    {
        self.inner = None;
        Ok(())
    }
}

/// A store in a file.
///
/// The file is restricted to its owner. It is not encrypted.
#[derive(Debug)]
pub struct FileSessionStore {
    pub path: String,
}

/// The whitespace of ASCII text.
pub open spec fn ascii_whitespace(b: u8) -> bool {
    b == 0x20 || b == 0x09 || b == 0x0a || b == 0x0c || b == 0x0d
}

/// A file without content.
pub open spec fn is_blank(content: Seq<u8>) -> bool {
    forall|i: int| 0 <= i < content.len() ==> ascii_whitespace(#[trigger] content[i])
}

impl FileSessionStore {
    /// The store in the file `path`.
    pub fn new(path: String) -> (r: Self)
        ensures
            r.path == path,
    {
        FileSessionStore { path }
    }

    /// The file.
    pub fn path(&self) -> (r: &str)
        ensures
            r@ == self.path@,
    {
        self.path.as_str()
    }

    /// The stored session, if there is one, given what reading the file gave and how its
    /// content is read as a session.
    pub fn load<F: FnOnce(Vec<u8>) -> Result<PersistedSession, String>>(
        &self,
        read: Result<Vec<u8>, IoFailure>,
        parse: F,
    ) -> (r: Result<Option<PersistedSession>, SessionStoreError>)
        requires
            read matches Ok(content) ==> parse.requires((content,)),
        ensures
            match read {
                Ok(content) => if is_blank(content@) {
                    r == Ok::<Option<PersistedSession>, SessionStoreError>(None)
                } else {
                    exists|parsed: Result<PersistedSession, String>|
                        #[trigger] parse.ensures((content,), parsed) && match parsed {
                            Ok(session) => r == Ok::<Option<PersistedSession>, SessionStoreError>(
                                Some(session),
                            ),
                            Err(error) => r is Err && r->Err_0.reason() == error@,
                        }
                },
                Err(failure) => if failure.kind == IoErrorKind::NotFound {
                    r == Ok::<Option<PersistedSession>, SessionStoreError>(None)
                } else {
                    r is Err && r->Err_0.reason() == failure.message@
                },
            },
            forall|decode: spec_fn(Seq<u8>) -> Result<PersistedSessionView, Seq<char>>|
                #[trigger] reads_as(parse, decode) ==> match file_found(read) {
                    Ok(file) => load_viewed(r) == loaded_from(file, decode),
                    Err(error) => load_viewed(r) == Err::<
                        Option<PersistedSessionView>,
                        Seq<char>,
                    >(error),
                },
    {
        match session_file_content(read) {
            Ok(Some(content)) => session_file_parsed(parse(content)),
            Ok(None) => Ok(None),
            Err(error) => Err(error),
        }
    }

    /// Begin to store a session, given what it is written as: first the directory above the
    /// file is made, where there is one.
    pub fn save(&self, encoded: Result<Vec<u8>, String>) -> (r: SaveProgress)
        ensures
            match encoded {
                Ok(content) => r matches SaveProgress::Perform(save) && save.content == content
                    && save.step@.is_first() && exists|parent: Option<Seq<char>>| #[trigger]
                    is_parent_of(self.path@, parent) && save.step@ == match parent {
                        Some(directory) => SaveStepView::CreateDirectory(directory),
                        None => SaveStepView::Write,
                    },
                Err(error) => r matches SaveProgress::Done(Err(unavailable))
                    && unavailable.reason() == error@,
            },
    {
        match encoded {
            Ok(content) => {
                let parent = path_parent(self.path.as_str());
                let ghost above = opt_text(parent);
                assert(is_parent_of(self.path@, above));
                let step = match parent {
                    Some(directory) => SaveStep::CreateDirectory(directory),
                    None => SaveStep::Write,
                };
                SaveProgress::Perform(SessionSave { content, step })
            },
            Err(error) => SaveProgress::Done(Err(SessionStoreError::Unavailable(error))),
        }
    }
}

// ---------------------------------------------------------------------------
// Writing the file
// ---------------------------------------------------------------------------

/// One step of storing a session.
#[derive(Debug)]
pub enum SaveStep {
    /// Create the directory, and those above it, where they are missing.
    CreateDirectory(String),
    /// Make the content all that the file holds.
    Write,
    /// Restrict the file to its owner.
    Restrict,
}

/// The model of a [`SaveStep`].
#[verifier::ext_equal]
pub enum SaveStepView {
    CreateDirectory(Seq<char>),
    Write,
    Restrict,
}

impl View for SaveStep {
    type V = SaveStepView;

    open spec fn view(&self) -> SaveStepView {
        match self {
            SaveStep::CreateDirectory(directory) => SaveStepView::CreateDirectory(directory@),
            SaveStep::Write => SaveStepView::Write,
            SaveStep::Restrict => SaveStepView::Restrict,
        }
    }
}

impl SaveStepView {
    /// How many steps are left, this one included.
    pub open spec fn left(self) -> nat {
        match self {
            SaveStepView::CreateDirectory(_) => 3,
            SaveStepView::Write => 2,
            SaveStepView::Restrict => 1,
        }
    }

    /// Storing a session can begin with this step.
    pub open spec fn is_first(self) -> bool {
        !(self is Restrict)
    }

    /// The step after this one.
    pub open spec fn next(self) -> Option<SaveStepView> {
        match self {
            SaveStepView::CreateDirectory(_) => Some(SaveStepView::Write),
            SaveStepView::Write => Some(SaveStepView::Restrict),
            SaveStepView::Restrict => None,
        }
    }

    /// The file after this step succeeded.
    pub open spec fn file_after(self, file: Option<Seq<u8>>, content: Seq<u8>) -> Option<Seq<u8>> {
        match self {
            SaveStepView::Write => Some(content),
            _ => file,
        }
    }
}

/// A session on its way into its file.
#[derive(Debug)]
pub struct SessionSave {
    pub content: Vec<u8>,
    /// What is to be done next.
    pub step: SaveStep,
}

/// How far storing a session has come.
#[derive(Debug)]
pub enum SaveProgress {
    /// Perform the step.
    Perform(SessionSave),
    /// The session is stored, or could not be.
    Done(Result<(), SessionStoreError>),
}

impl SessionSave {
    /// Go on after the step was performed.
    pub fn performed(self, result: Result<(), IoFailure>) -> (r: SaveProgress)
        ensures
            match result {
                Ok(_) => match self.step@.next() {
                    Some(step) => r matches SaveProgress::Perform(save) && save.content
                        == self.content && save.step@ == step,
                    None => r matches SaveProgress::Done(Ok(_)),
                },
                Err(failure) => r matches SaveProgress::Done(Err(unavailable))
                    && unavailable.reason() == failure.message@,
            },
    {
        match result {
            Ok(_) => {
                let step = match self.step {
                    SaveStep::CreateDirectory(_) => SaveStep::Write,
                    SaveStep::Write => SaveStep::Restrict,
                    SaveStep::Restrict => return SaveProgress::Done(Ok(())),
                };
                SaveProgress::Perform(SessionSave { content: self.content, step })
            },
            Err(failure) => SaveProgress::Done(Err(io_unavailable(failure))),
        }
    }
}

/// The file after storing a session was taken from some step to its end.
pub open spec fn file_when_saved(
    step: SaveStepView,
    file: Option<Seq<u8>>,
    content: Seq<u8>,
) -> Option<Seq<u8>>
    decreases step.left(),
{
    match step.next() {
        Some(next) => file_when_saved(next, step.file_after(file, content), content),
        None => step.file_after(file, content),
    }
}

/// Whatever the file held before, after a session was stored it holds that session alone.
pub proof fn stored_files_hold_what_was_saved(
    step: SaveStepView,
    file: Option<Seq<u8>>,
    content: Seq<u8>,
)
    requires
        step.is_first(),
    ensures
        file_when_saved(step, file, content) == Some(content),
{
    reveal_with_fuel(file_when_saved, 4);
}

// ---------------------------------------------------------------------------
// The file and its store
// ---------------------------------------------------------------------------

/// An operation on the store that succeeded.
#[verifier::ext_equal]
pub enum StoreOperation {
    /// Storing a session, beginning with some step.
    Save(PersistedSessionView, SaveStepView),
    Clear,
    Load,
}

/// The file after some operations on a store that began without one; `encode` is how a
/// session is written. `None` is a missing file.
pub open spec fn file_after(
    operations: Seq<StoreOperation>,
    encode: spec_fn(PersistedSessionView) -> Seq<u8>,
) -> Option<Seq<u8>>
    decreases operations.len(),
{
    if operations.len() == 0 {
        None
    } else {
        match operations.last() {
            StoreOperation::Save(session, step) => file_when_saved(
                step,
                file_after(operations.drop_last(), encode),
                encode(session),
            ),
            StoreOperation::Clear => None,
            StoreOperation::Load => file_after(operations.drop_last(), encode),
        }
    }
}

/// The session that was saved last and not cleared since.
pub open spec fn saved_after(operations: Seq<StoreOperation>) -> Option<PersistedSessionView>
    decreases operations.len(),
{
    if operations.len() == 0 {
        None
    } else {
        match operations.last() {
            StoreOperation::Save(session, _) => Some(session),
            StoreOperation::Clear => None,
            StoreOperation::Load => saved_after(operations.drop_last()),
        }
    }
}

/// What loading a file gives; `decode` is how content is read as a session, and an error is
/// the reason why the store is unavailable.
pub open spec fn loaded_from(
    file: Option<Seq<u8>>,
    decode: spec_fn(Seq<u8>) -> Result<PersistedSessionView, Seq<char>>,
) -> Result<Option<PersistedSessionView>, Seq<char>> {
    match file {
        None => Ok(None),
        Some(content) => if is_blank(content) {
            Ok(None)
        } else {
            match decode(content) {
                Ok(session) => Ok(Some(session)),
                Err(error) => Err(error),
            }
        },
    }
}

/// The file, given what reading it gave; an error is the reason why it could not be read.
pub open spec fn file_found(read: Result<Vec<u8>, IoFailure>) -> Result<
    Option<Seq<u8>>,
    Seq<char>,
> {
    match read {
        Ok(content) => Ok(Some(content@)),
        Err(failure) => if failure.kind == IoErrorKind::NotFound {
            Ok(None)
        } else {
            Err(failure.message@)
        },
    }
}

/// Content is read as sessions the way `decode` says.
pub open spec fn reads_as<F: FnOnce(Vec<u8>) -> Result<PersistedSession, String>>(
    parse: F,
    decode: spec_fn(Seq<u8>) -> Result<PersistedSessionView, Seq<char>>,
) -> bool {
    forall|content: Vec<u8>, parsed: Result<PersistedSession, String>| #[trigger]
        parse.ensures((content,), parsed) ==> decode(content@) == match parsed {
            Ok(session) => Ok::<PersistedSessionView, Seq<char>>(session@),
            Err(error) => Err(error@),
        }
}

/// What came of loading a session; an error is the reason why the store is unavailable.
pub open spec fn load_viewed(
    loaded: Result<Option<PersistedSession>, SessionStoreError>,
) -> Result<Option<PersistedSessionView>, Seq<char>> {
    match loaded {
        Ok(Some(session)) => Ok(Some(session@)),
        Ok(None) => Ok(None),
        Err(error) => Err(error.reason()),
    }
}

/// A session is written as something, and reading that gives the session back.
pub open spec fn reads_back(
    encode: spec_fn(PersistedSessionView) -> Seq<u8>,
    decode: spec_fn(Seq<u8>) -> Result<PersistedSessionView, Seq<char>>,
) -> bool {
    forall|session: PersistedSessionView|
        !is_blank(#[trigger] encode(session)) && decode(encode(session)) == Ok::<
            PersistedSessionView,
            Seq<char>,
        >(session)
}

/// Whatever was done before, a store gives back the session that was saved last, and none
/// after it was cleared or where nothing was saved, as long as sessions are written so that
/// they are read back.
pub proof fn saved_sessions_are_loaded_again(
    operations: Seq<StoreOperation>,
    encode: spec_fn(PersistedSessionView) -> Seq<u8>,
    decode: spec_fn(Seq<u8>) -> Result<PersistedSessionView, Seq<char>>,
)
    requires
        reads_back(encode, decode),
        forall|i: int|
            0 <= i < operations.len() ==> ((#[trigger] operations[i]) matches StoreOperation::Save(
                _,
                step,
            ) ==> step.is_first()),
    ensures
        loaded_from(file_after(operations, encode), decode) == Ok::<
            Option<PersistedSessionView>,
            Seq<char>,
        >(saved_after(operations)),
    decreases operations.len(),
{
    if operations.len() > 0 {
        match operations.last() {
            StoreOperation::Save(session, step) => {
                assert(operations[operations.len() - 1] == operations.last());
                stored_files_hold_what_was_saved(
                    step,
                    file_after(operations.drop_last(), encode),
                    encode(session),
                );
            },
            StoreOperation::Clear => {},
            StoreOperation::Load => {
                saved_sessions_are_loaded_again(operations.drop_last(), encode, decode);
            },
        }
    }
}

fn all_blank(content: &Vec<u8>) -> (r: bool)
    ensures
        r == is_blank(content@),
{
    let mut i: usize = 0;
    while i < content.len()
        invariant
            i <= content.len(),
            forall|k: int| 0 <= k < i ==> ascii_whitespace(#[trigger] content@[k]),
        decreases content.len() - i,
    {
        let b: u8 = content[i];
        if !(b == 0x20 || b == 0x09 || b == 0x0a || b == 0x0c || b == 0x0d) {
            assert(!ascii_whitespace(content@[i as int]));
            return false;
        }
        i = i + 1;
    }
    true
}

/// The content of a session file that is to be read as a session: none where the file is
/// missing or blank.
pub fn session_file_content(read: Result<Vec<u8>, IoFailure>) -> (r: Result<
    Option<Vec<u8>>,
    SessionStoreError,
>)
    ensures
        match read {
            Ok(content) => r == Ok::<Option<Vec<u8>>, SessionStoreError>(
                if is_blank(content@) {
                    None
                } else {
                    Some(content)
                },
            ),
            Err(failure) => if failure.kind == IoErrorKind::NotFound {
                r == Ok::<Option<Vec<u8>>, SessionStoreError>(None)
            } else {
                r is Err && r->Err_0.reason() == failure.message@
            },
        },
{
    match read {
        Ok(content) => if all_blank(&content) {
            Ok(None)
        } else {
            Ok(Some(content))
        },
        Err(failure) => if failure.kind == IoErrorKind::NotFound {
            Ok(None)
        } else {
            Err(io_unavailable(failure))
        },
    }
}

/// The session of a session file, given what reading its content as one gave.
pub fn session_file_parsed(parsed: Result<PersistedSession, String>) -> (r: Result<
    Option<PersistedSession>,
    SessionStoreError,
>)
    ensures
        match parsed {
            Ok(session) => r == Ok::<Option<PersistedSession>, SessionStoreError>(Some(session)),
            Err(error) => r is Err && r->Err_0.reason() == error@,
        },
{
    match parsed {
        Ok(session) => Ok(Some(session)),
        Err(error) => Err(SessionStoreError::Unavailable(error)),
    }
}

/// What came of removing a session file: a missing file is as good as a removed one.
pub fn session_file_removed(removed: Result<(), IoFailure>) -> (r: Result<(), SessionStoreError>)
    ensures
        match removed {
            Ok(_) => r is Ok,
            Err(failure) => if failure.kind == IoErrorKind::NotFound {
                r is Ok
            } else {
                r is Err && r->Err_0.reason() == failure.message@
            },
        },
{
    match removed {
        Ok(_) => Ok(()),
        Err(failure) => if failure.kind == IoErrorKind::NotFound {
            Ok(())
        } else {
            Err(io_unavailable(failure))
        },
    }
}

/// What is stored of a session is the address and the key that a later run needs to use it again,
/// the account that it is for, and when it was stored.
pub proof fn snapshots_hold_the_session(session: AccountSession, now: u64)
    ensures
        snapshot_of(session, now).version == 1,
        snapshot_of(session, now).api_base == session@.api_base,
        snapshot_of(session, now).session_key == session@.session.session_key,
        snapshot_of(session, now).account_id == session@.session.auth.account_id,
        snapshot_of(session, now).saved_at_unix == now,
        SESSION_FILE_MODE == 0o600,
{
}

/// A file is blank if it holds nothing but spaces, tabs, and the ends of lines and pages.
pub proof fn blank_files_hold_only_whitespace(content: Seq<u8>)
    ensures
        is_blank(content) <==> forall|i: int|
            0 <= i < content.len() ==> {
                ||| #[trigger] content[i] == 0x20
                ||| content[i] == 0x09
                ||| content[i] == 0x0a
                ||| content[i] == 0x0c
                ||| content[i] == 0x0d
            },
{
    if is_blank(content) {
        assert forall|i: int| 0 <= i < content.len() implies #[trigger] content[i] == 0x20
            || content[i] == 0x09 || content[i] == 0x0a || content[i] == 0x0c || content[i]
            == 0x0d by {
            assert(ascii_whitespace(content[i]));
        }
    }
}

/// A missing file and a blank one hold no session; any other file holds the one that its content
/// is read as, or makes the store unavailable for the reason why it cannot be read.
pub proof fn files_hold_what_they_are_read_as(
    file: Option<Seq<u8>>,
    decode: spec_fn(Seq<u8>) -> Result<PersistedSessionView, Seq<char>>,
)
    ensures
        file is None || is_blank(file->0) ==> loaded_from(file, decode) == Ok::<
            Option<PersistedSessionView>,
            Seq<char>,
        >(None),
        file is Some && !is_blank(file->0) ==> match decode(file->0) {
            Ok(session) => loaded_from(file, decode) == Ok::<
                Option<PersistedSessionView>,
                Seq<char>,
            >(Some(session)),
            Err(error) => loaded_from(file, decode) == Err::<
                Option<PersistedSessionView>,
                Seq<char>,
            >(error),
        },
{
}

/// A session is stored in one order: its directory is made, its file is written, and the file is
/// restricted to its owner; only the writing changes what the file holds.
pub proof fn sessions_are_stored_in_order(
    step: SaveStepView,
    file: Option<Seq<u8>>,
    content: Seq<u8>,
)
    ensures
        step is CreateDirectory ==> step.next() == Some(SaveStepView::Write),
        step is Write ==> step.next() == Some(SaveStepView::Restrict),
        step is Restrict ==> step.next() is None,
        step is Write ==> step.file_after(file, content) == Some(content),
        !(step is Write) ==> step.file_after(file, content) == file,
        step.is_first() <==> step is CreateDirectory || step is Write,
{
}

/// A stored session says what its fields hold.
pub proof fn stored_sessions_say_what_they_hold(session: PersistedSession)
    ensures
        session@.version == session.version,
        session@.api_base == session.api_base@,
        session@.session_key == session.session_key@,
        session@.account_id == session.account_id,
        session@.saved_at_unix == session.saved_at_unix,
{
}

/// A file that is not there is a missing one; any other failure to read it is told as it is.
pub proof fn only_absent_files_are_missing(read: Result<Vec<u8>, IoFailure>)
    ensures
        read matches Ok(content) ==> file_found(read) == Ok::<Option<Seq<u8>>, Seq<char>>(
            Some(content@),
        ),
        read matches Err(failure) ==> failure.kind == IoErrorKind::NotFound ==> file_found(read)
            == Ok::<Option<Seq<u8>>, Seq<char>>(None),
        read matches Err(failure) ==> failure.kind != IoErrorKind::NotFound ==> file_found(read)
            == Err::<Option<Seq<u8>>, Seq<char>>(failure.message@),
{
}

/// A stored session is shown with all that it holds but its key.
pub proof fn stored_sessions_are_shown_without_their_key(session: PersistedSessionView)
    ensures
        session.shown() == "PersistedSession { version: "@ + decimal(session.version as nat)
            + ", api_base: "@ + debug_quoted(session.api_base)
            + ", session_key: \"<redacted>\", account_id: "@ + decimal(session.account_id as nat)
            + ", saved_at_unix: "@ + decimal(session.saved_at_unix as nat) + " }"@,
{
}

} // verus!

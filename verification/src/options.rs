//! What a runtime is started with: its version, its secret and its API address.

use vstd::prelude::*;

use crate::api::{AgentVersion, Platform};
use crate::http_client::shown_bool;
use crate::outside::{debug_quoted, parse_uuid, quote_debug, uuid_parse};
use crate::text::{
    copy_opt, decimal, decimal_round_trips, decimal_text, digits_number, is_digit, join2, join3,
    opt_text, owned, parse_number, text_number, written_numbers_are_read_back, NumberError,
};

verus! {

/// The default variant identifier used by the Playit agent.
pub const DEFAULT_VARIANT_ID: &'static str = "308943e8-faef-4835-a2ba-270351f72aa3";

/// The version of this package.
pub const PACKAGE_VERSION: &'static str = "1.0.0";

/// Version and variant identity sent to the Playit control plane.
#[derive(Debug)]
pub struct VersionDetails {
    pub variant_id: String,
    pub major: u32,
    pub minor: u32,
    pub patch: u32,
}

/// The model of a [`VersionDetails`].
#[verifier::ext_equal]
pub struct VersionDetailsView {
    pub variant_id: Seq<char>,
    pub major: u32,
    pub minor: u32,
    pub patch: u32,
}

impl View for VersionDetails {
    type V = VersionDetailsView;

    open spec fn view(&self) -> VersionDetailsView {
        VersionDetailsView {
            variant_id: self.variant_id@,
            major: self.major,
            minor: self.minor,
            patch: self.patch,
        }
    }
}

/// Parts of a version that replace those of the package.
#[derive(Debug)]
pub struct VersionOverrideFile {
    pub variant_id: Option<String>,
    pub major: Option<u32>,
    pub minor: Option<u32>,
    pub patch: Option<u32>,
}

impl Default for VersionOverrideFile {
    fn default() -> (r: Self)
        ensures
            r.variant_id is None && r.major is None && r.minor is None && r.patch is None,
    {
        VersionOverrideFile { variant_id: None, major: None, minor: None, patch: None }
    }
}

// ---------------------------------------------------------------------------
// Models
// ---------------------------------------------------------------------------

/// Where `c` first stands in `s`: its length if `c` does not occur.
pub open spec fn first_index(s: Seq<char>, c: char) -> nat
    decreases s.len(),
{
    if s.len() == 0 || s[0] == c {
        0
    } else {
        1 + first_index(s.skip(1), c)
    }
}

/// `s` up to the first `c`.
pub open spec fn until(s: Seq<char>, c: char) -> Seq<char> {
    s.take(first_index(s, c) as int)
}

/// What follows the first `c` in `s`.
pub open spec fn rest_after(s: Seq<char>, c: char) -> Option<Seq<char>> {
    if first_index(s, c) < s.len() {
        Some(s.skip(first_index(s, c) as int + 1))
    } else {
        None
    }
}

/// A component of a version: a number, or the message that tells why it is none.
pub open spec fn version_part(part: Seq<char>) -> Result<u32, Seq<char>> {
    match text_number(part, u32::MAX as nat) {
        Ok(n) => Ok(n as u32),
        Err(e) => Err("Invalid version component "@ + part + ": "@ + e.shown()),
    }
}

/// The three numbers of a version: the first three parts between dots, before the
/// first dash. The first thing that is wrong decides the message.
pub open spec fn version_parts(version: Seq<char>) -> Result<(u32, u32, u32), Seq<char>> {
    let head = until(version, '-');
    match version_part(until(head, '.')) {
        Err(e) => Err(e),
        Ok(major) => match rest_after(head, '.') {
            None => Err("missing minor version in "@ + version),
            Some(rest) => match version_part(until(rest, '.')) {
                Err(e) => Err(e),
                Ok(minor) => match rest_after(rest, '.') {
                    None => Err("missing patch version in "@ + version),
                    Some(rest) => match version_part(until(rest, '.')) {
                        Err(e) => Err(e),
                        Ok(patch) => Ok((major, minor, patch)),
                    },
                },
            },
        },
    }
}

/// Three numbers as a version.
pub open spec fn version_text(major: u32, minor: u32, patch: u32) -> Seq<char> {
    decimal(major as nat) + "."@ + decimal(minor as nat) + "."@ + decimal(patch as nat)
}

// ---------------------------------------------------------------------------
// Laws
// ---------------------------------------------------------------------------

proof fn lemma_first_index(a: Seq<char>, c: char, b: Seq<char>)
    requires
        forall|i: int| 0 <= i < a.len() ==> a[i] != c,
    ensures
        first_index(a + seq![c] + b, c) == a.len(),
        until(a + seq![c] + b, c) == a,
        rest_after(a + seq![c] + b, c) == Some(b),
    decreases a.len(),
{
    let s = a + seq![c] + b;
    if a.len() > 0 {
        assert(s.skip(1) == a.skip(1) + seq![c] + b);
        lemma_first_index(a.skip(1), c, b);
    } else {
        assert(s[0] == c);
    }
    assert(s.take(a.len() as int) == a);
    assert(s.skip(a.len() as int + 1) == b);
}

proof fn lemma_absent(a: Seq<char>, c: char)
    requires
        forall|i: int| 0 <= i < a.len() ==> a[i] != c,
    ensures
        first_index(a, c) == a.len(),
        until(a, c) == a,
    decreases a.len(),
{
    if a.len() > 0 {
        lemma_absent(a.skip(1), c);
    }
    assert(a.take(a.len() as int) == a);
}

/// A version that was written as text is read back with the same three numbers.
pub proof fn versions_round_trip(major: u32, minor: u32, patch: u32)
    ensures
        version_parts(version_text(major, minor, patch)) == Ok::<(u32, u32, u32), Seq<char>>(
            (major, minor, patch),
        ),
{
    reveal_strlit(".");
    let a = decimal(major as nat);
    let b = decimal(minor as nat);
    let c = decimal(patch as nat);
    decimal_round_trips(major as nat);
    decimal_round_trips(minor as nat);
    decimal_round_trips(patch as nat);
    written_numbers_are_read_back(major as nat, u32::MAX as nat);
    written_numbers_are_read_back(minor as nat, u32::MAX as nat);
    written_numbers_are_read_back(patch as nat, u32::MAX as nat);
    let s = version_text(major, minor, patch);
    assert("."@ == seq!['.']);
    assert(s == a + seq!['.'] + (b + seq!['.'] + c));
    assert forall|i: int| 0 <= i < s.len() implies s[i] != '-' by {
        if i < a.len() {
            assert(is_digit(a[i]));
        } else if i == a.len() {
            assert(s[i] == '.');
        } else if i < a.len() + 1 + b.len() {
            assert(s[i] == b[i - a.len() - 1]);
            assert(is_digit(b[i - a.len() - 1]));
        } else if i == a.len() + 1 + b.len() {
            assert(s[i] == '.');
        } else {
            assert(s[i] == c[i - a.len() - b.len() - 2]);
            assert(is_digit(c[i - a.len() - b.len() - 2]));
        }
    }
    lemma_absent(s, '-');
    assert forall|i: int| 0 <= i < a.len() implies a[i] != '.' by {
        assert(is_digit(a[i]));
    }
    assert forall|i: int| 0 <= i < b.len() implies b[i] != '.' by {
        assert(is_digit(b[i]));
    }
    assert forall|i: int| 0 <= i < c.len() implies c[i] != '.' by {
        assert(is_digit(c[i]));
    }
    lemma_first_index(a, '.', b + seq!['.'] + c);
    lemma_first_index(b, '.', c);
    lemma_absent(c, '.');
}

// ---------------------------------------------------------------------------
// Versions
// ---------------------------------------------------------------------------

fn find(s: &str, c: char) -> (r: usize)
    ensures
        r == first_index(s@, c),
        r <= s@.len(),
{
    let n: usize = s.unicode_len();
    let mut i: usize = 0;
    assert(s@.skip(0) == s@);
    while i < n && s.get_char(i) != c
        invariant
            i <= n,
            n == s@.len(),
            first_index(s@, c) == i + first_index(s@.skip(i as int), c),
        decreases n - i,
    {
        assert(s@.skip(i as int).skip(1) == s@.skip(i + 1));
        i = i + 1;
    }
    i
}

/// A component of a version.
pub fn parse_version_part(part: &str) -> (r: Result<u32, String>)
    ensures
        match r {
            Ok(n) => version_part(part@) == Ok::<u32, Seq<char>>(n),
            Err(e) => version_part(part@) == Err::<u32, Seq<char>>(e@),
        },
{
    match parse_number(part, u32::MAX as u64) {
        Ok(n) => Ok(n as u32),
        Err(e) => {
            let mut message = join3("Invalid version component ", part, ": ");
            message.append(e.message());
            Err(message)
        },
    }
}

fn split_once(s: &str, c: char) -> (r: (&str, Option<&str>))
    ensures
        r.0@ == until(s@, c),
        match r.1 {
            Some(rest) => rest_after(s@, c) == Some(rest@),
            None => rest_after(s@, c) is None,
        },
{
    let n: usize = s.unicode_len();
    let i: usize = find(s, c);
    let head = s.substring_char(0, i);
    assert(head@ == until(s@, c));
    if i < n {
        let rest = s.substring_char(i + 1, n);
        assert(rest@ == s@.skip(i + 1));
        (head, Some(rest))
    } else {
        (head, None)
    }
}

impl VersionDetails {
    /// The version of this package, with the default variant.
    pub fn from_cargo_package() -> (r: Result<Self, String>)
        ensures
            r is Ok,
            r->Ok_0@ == (VersionDetailsView {
                variant_id: DEFAULT_VARIANT_ID@,
                major: 1,
                minor: 0,
                patch: 0,
            }),
    {
        proof {
            reveal_strlit("1.0.0");
            reveal_strlit(".");
            assert("1.0.0"@ == version_text(1, 0, 0));
            versions_round_trip(1, 0, 0);
        }
        VersionDetails::from_version_string(PACKAGE_VERSION, DEFAULT_VARIANT_ID)
    }

    /// The version that a text such as `1.2.3-beta` denotes, with a variant.
    pub fn from_version_string(version: &str, variant_id: &str) -> (r: Result<Self, String>)
        ensures
            match r {
                Ok(details) => {
                    &&& version_parts(version@) == Ok::<(u32, u32, u32), Seq<char>>(
                        (details.major, details.minor, details.patch),
                    )
                    &&& details.variant_id@ == variant_id@
                },
                Err(message) => version_parts(version@) == Err::<(u32, u32, u32), Seq<char>>(
                    message@,
                ),
            },
    {
        let (head, _) = split_once(version, '-');
        let (part, rest) = split_once(head, '.');
        let major: u32 = match parse_version_part(part) {
            Ok(n) => n,
            Err(e) => return Err(e),
        };
        let rest = match rest {
            Some(rest) => rest,
            None => return Err(join2("missing minor version in ", version)),
        };
        let (part, rest) = split_once(rest, '.');
        let minor: u32 = match parse_version_part(part) {
            Ok(n) => n,
            Err(e) => return Err(e),
        };
        let rest = match rest {
            Some(rest) => rest,
            None => return Err(join2("missing patch version in ", version)),
        };
        let (part, _) = split_once(rest, '.');
        let patch: u32 = match parse_version_part(part) {
            Ok(n) => n,
            Err(e) => return Err(e),
        };
        Ok(VersionDetails { variant_id: owned(variant_id), major, minor, patch })
    }

    /// The three numbers, with dots between them.
    pub fn version_string(&self) -> (r: String)
        ensures
            r@ == version_text(self.major, self.minor, self.patch),
    {
        let major = decimal_text(self.major as u64);
        let minor = decimal_text(self.minor as u64);
        let patch = decimal_text(self.patch as u64);
        let mut out = join3(major.as_str(), ".", minor.as_str());
        out.append(".");
        out.append(patch.as_str());
        out
    }

    /// Replace the parts that the overrides hold, and only those.
    pub fn apply_overrides(&mut self, overrides: VersionOverrideFile)
        ensures
            final(self)@ == (VersionDetailsView {
                variant_id: match overrides.variant_id {
                    Some(id) => id@,
                    None => old(self)@.variant_id,
                },
                major: overrides.major.unwrap_or(old(self)@.major),
                minor: overrides.minor.unwrap_or(old(self)@.minor),
                patch: overrides.patch.unwrap_or(old(self)@.patch),
            }),
    {
        match overrides.variant_id {
            Some(variant_id) => {
                self.variant_id = variant_id;
            },
            None => {},
        }
        match overrides.major {
            Some(major) => {
                self.major = major;
            },
            None => {},
        }
        match overrides.minor {
            Some(minor) => {
                self.minor = minor;
            },
            None => {},
        }
        match overrides.patch {
            Some(patch) => {
                self.patch = patch;
            },
            None => {},
        }
    }

    /// The version that the agent registers with: fails where the variant is no UUID.
    pub fn agent_version(&self) -> (r: Result<AgentVersion, String>)
        ensures
            match r {
                Ok(version) => {
                    &&& uuid_parse(self@.variant_id) == Ok::<u128, Seq<char>>(version.variant_id)
                    &&& version.version_major == self.major
                    &&& version.version_minor == self.minor
                    &&& version.version_patch == self.patch
                },
                Err(message) => uuid_parse(self@.variant_id) matches Err(e) && message@
                    == "invalid variant ID "@ + self@.variant_id + ": "@ + e,
            },
    {
        let parsed = parse_uuid(self.variant_id.as_str());
        self.agent_version_with(parsed)
    }

    /// The version that the agent registers with, given what parsing the variant as
    /// a UUID gave.
    pub fn agent_version_with(&self, variant: Result<u128, String>) -> (r: Result<
        AgentVersion,
        String,
    >)
        ensures
            match variant {
                Ok(variant_id) => r == Ok::<AgentVersion, String>(
                    AgentVersion {
                        variant_id,
                        version_major: self.major,
                        version_minor: self.minor,
                        version_patch: self.patch,
                    },
                ),
                Err(error) => r is Err && r->Err_0@ == "invalid variant ID "@ + self@.variant_id
                    + ": "@ + error@,
            },
    {
        match variant {
            Ok(variant_id) => Ok(
                AgentVersion {
                    variant_id,
                    version_major: self.major,
                    version_minor: self.minor,
                    version_patch: self.patch,
                },
            ),
            Err(error) => {
                let mut message = join3("invalid variant ID ", self.variant_id.as_str(), ": ");
                message.append(error.as_str());
                Err(message)
            },
        }
    }
}

impl Clone for VersionDetails {
    fn clone(&self) -> (r: Self)
        ensures
            r == *self,
    {
        VersionDetails {
            variant_id: self.variant_id.clone(),
            major: self.major,
            minor: self.minor,
            patch: self.patch,
        }
    }
}

impl VersionDetailsView {
    pub open spec fn shown(self) -> Seq<char> {
        "VersionDetails { variant_id: "@ + debug_quoted(self.variant_id) + ", major: "@ + decimal(
            self.major as nat,
        ) + ", minor: "@ + decimal(self.minor as nat) + ", patch: "@ + decimal(self.patch as nat)
            + " }"@
    }
}

impl VersionDetails {
    /// The version with its parts.
    pub fn debug_text(&self) -> (r: String)
        ensures
            r@ == self@.shown(),
    {
        let variant = quote_debug(self.variant_id.as_str());
        let major = decimal_text(self.major as u64);
        let minor = decimal_text(self.minor as u64);
        let patch = decimal_text(self.patch as u64);
        let mut out = join3("VersionDetails { variant_id: ", variant.as_str(), ", major: ");
        out.append(major.as_str());
        out.append(", minor: ");
        out.append(minor.as_str());
        out.append(", patch: ");
        out.append(patch.as_str());
        out.append(" }");
        out
    }
}

// ---------------------------------------------------------------------------
// Options
// ---------------------------------------------------------------------------

/// Configuration of an embedded Playit runtime.
///
/// The runtime reads no process-wide configuration: the API address and the path of
/// the secret are explicit.
pub struct RuntimeOptions {
    /// Dedicated file used for the Playit secret.
    pub secret_path: String,
    /// Optional inline secret. Embedding programs normally leave it out and use
    /// `secret_path`.
    pub secret: Option<String>,
    /// Identity sent during registration and claim.
    pub version: VersionDetails,
    /// Register the agent as a Docker platform.
    pub platform_docker: bool,
    /// Playit API base URL.
    pub api_base: String,
}

/// The model of a [`RuntimeOptions`].
#[verifier::ext_equal]
pub struct RuntimeOptionsView {
    pub secret_path: Seq<char>,
    pub secret: Option<Seq<char>>,
    pub version: VersionDetailsView,
    pub platform_docker: bool,
    pub api_base: Seq<char>,
}

impl View for RuntimeOptions {
    type V = RuntimeOptionsView;

    open spec fn view(&self) -> RuntimeOptionsView {
        RuntimeOptionsView {
            secret_path: self.secret_path@,
            secret: opt_text(self.secret),
            version: self.version@,
            platform_docker: self.platform_docker,
            api_base: self.api_base@,
        }
    }
}

impl RuntimeOptionsView {
    /// What may be shown of the options.
    pub open spec fn shown(self) -> Seq<char> {
        "RuntimeOptions { secret_path: "@ + debug_quoted(self.secret_path) + ", secret: "@ + (
        match self.secret {
            Some(_) => "Some(\"<redacted>\")"@,
            None => "None"@,
        }) + ", version: "@ + self.version.shown() + ", platform_docker: "@ + shown_bool(
            self.platform_docker,
        ) + ", api_base: "@ + debug_quoted(self.api_base) + " }"@
    }
}

impl Default for RuntimeOptions {
    fn default() -> (r: Self)
        ensures
            r@ == (RuntimeOptionsView {
                secret_path: "playit-secret.toml"@,
                secret: None,
                version: VersionDetailsView {
                    variant_id: DEFAULT_VARIANT_ID@,
                    major: 1,
                    minor: 0,
                    patch: 0,
                },
                platform_docker: false,
                api_base: "https://api.playit.gg"@,
            }),
    {
        let version = match VersionDetails::from_cargo_package() {
            Ok(version) => version,
            Err(_) => VersionDetails {
                variant_id: owned(DEFAULT_VARIANT_ID),
                major: 1,
                minor: 0,
                patch: 0,
            },
        };
        RuntimeOptions {
            secret_path: owned("playit-secret.toml"),
            secret: None,
            version,
            platform_docker: false,
            api_base: owned("https://api.playit.gg"),
        }
    }
}

impl Clone for RuntimeOptions {
    fn clone(&self) -> (r: Self)
        ensures
            r == *self,
    {
        RuntimeOptions {
            secret_path: self.secret_path.clone(),
            secret: copy_opt(&self.secret),
            version: self.version.clone(),
            platform_docker: self.platform_docker,
            api_base: self.api_base.clone(),
        }
    }
}

impl RuntimeOptions {
    /// The options with an inline secret left out.
    pub fn debug_text(&self) -> (r: String)
        ensures
            r@ == self@.shown(),
    {
        let path = quote_debug(self.secret_path.as_str());
        let version = self.version.debug_text();
        let base = quote_debug(self.api_base.as_str());
        let mut out = join3("RuntimeOptions { secret_path: ", path.as_str(), ", secret: ");
        match &self.secret {
            Some(_) => out.append("Some(\"<redacted>\")"),
            None => out.append("None"),
        }
        out.append(", version: ");
        out.append(version.as_str());
        out.append(", platform_docker: ");
        if self.platform_docker {
            out.append("true");
        } else {
            out.append("false");
        }
        out.append(", api_base: ");
        out.append(base.as_str());
        out.append(" }");
        out
    }
}

/// What is shown of options does not depend on the inline secret that they hold.
pub proof fn shown_options_hide_the_secret(options: RuntimeOptionsView, secret: Seq<char>)
    requires
        options.secret is Some,
    ensures
        options.shown() == (RuntimeOptionsView { secret: Some(secret), ..options }).shown(),
{
}

/// The platform to register as: Docker where the options say so, else the platform
/// that the program runs on.
pub fn platform_for_options(options: &RuntimeOptions, current: Platform) -> (r: Platform)
    ensures
        r == if options.platform_docker {
            Platform::Docker
        } else {
            current
        },
{
    if options.platform_docker {
        Platform::Docker
    } else {
        current
    }
}

/// A version is read by its three numbers, whatever is added behind a dash.
pub proof fn versions_are_read_up_to_a_dash(
    major: u32,
    minor: u32,
    patch: u32,
    suffix: Seq<char>,
)
    ensures
        version_parts(version_text(major, minor, patch) + "-"@ + suffix) == Ok::<
            (u32, u32, u32),
            Seq<char>,
        >((major, minor, patch)),
        version_text(major, minor, patch) == decimal(major as nat) + "."@ + decimal(minor as nat)
            + "."@ + decimal(patch as nat),
{
    reveal_strlit("-");
    reveal_strlit(".");
    versions_round_trip(major, minor, patch);
    decimal_round_trips(major as nat);
    decimal_round_trips(minor as nat);
    decimal_round_trips(patch as nat);
    let a = decimal(major as nat);
    let b = decimal(minor as nat);
    let c = decimal(patch as nat);
    let text = version_text(major, minor, patch);
    assert("-"@ =~= seq!['-']);
    assert forall|i: int| 0 <= i < text.len() implies text[i] != '-' by {
        if i < a.len() {
            assert(is_digit(a[i]));
        } else if i == a.len() {
            assert(text[i] == '.');
        } else if i < a.len() + 1 + b.len() {
            assert(text[i] == b[i - a.len() - 1]);
            assert(is_digit(b[i - a.len() - 1]));
        } else if i == a.len() + 1 + b.len() {
            assert(text[i] == '.');
        } else {
            assert(text[i] == c[i - a.len() - b.len() - 2]);
            assert(is_digit(c[i - a.len() - b.len() - 2]));
        }
    }
    lemma_first_index(text, '-', suffix);
    lemma_absent(text, '-');
}

/// A text up to a character, and the text behind it, are what they say: the character does not
/// stand in the first part, and the two parts with it between them are the text.
pub proof fn texts_are_split_at_the_first(s: Seq<char>, c: char)
    ensures
        !until(s, c).contains(c),
        s.contains(c) ==> rest_after(s, c) is Some && s == until(s, c) + seq![c] + rest_after(
            s,
            c,
        )->0,
        !s.contains(c) ==> rest_after(s, c) is None && until(s, c) == s,
    decreases s.len(),
{
    lemma_first_place(s, c);
    let n = first_index(s, c) as int;
    if n < s.len() {
        assert(s =~= until(s, c) + seq![c] + rest_after(s, c)->0);
    } else {
        assert(until(s, c) =~= s);
    }
}

proof fn lemma_first_place(s: Seq<char>, c: char)
    ensures
        first_index(s, c) <= s.len(),
        first_index(s, c) < s.len() ==> s[first_index(s, c) as int] == c,
        forall|i: int| 0 <= i < first_index(s, c) ==> s[i] != c,
    decreases s.len(),
{
    if s.len() > 0 && s[0] != c {
        let rest = s.skip(1);
        lemma_first_place(rest, c);
        assert forall|i: int| 0 <= i < first_index(s, c) implies s[i] != c by {
            if i > 0 {
                assert(rest[i - 1] == s[i]);
            }
        }
    }
}

/// A version has three numbers between dots, before the first dash, and is refused without them.
pub proof fn versions_have_three_numbers(version: Seq<char>)
    ensures
        version_parts(version) matches Ok((major, minor, patch)) ==> {
            let head = until(version, '-');
            &&& rest_after(head, '.') is Some
            &&& rest_after(rest_after(head, '.')->0, '.') is Some
            &&& text_number(until(head, '.'), u32::MAX as nat) == Ok::<nat, NumberError>(
                major as nat,
            )
            &&& text_number(until(rest_after(head, '.')->0, '.'), u32::MAX as nat) == Ok::<
                nat,
                NumberError,
            >(minor as nat)
            &&& text_number(
                until(rest_after(rest_after(head, '.')->0, '.')->0, '.'),
                u32::MAX as nat,
            ) == Ok::<nat, NumberError>(patch as nat)
        },
{
    let head = until(version, '-');
    if version_parts(version) is Ok {
        lemma_number_fits(until(head, '.'));
        lemma_number_fits(until(rest_after(head, '.')->0, '.'));
        lemma_number_fits(until(rest_after(rest_after(head, '.')->0, '.')->0, '.'));
    }
}

proof fn lemma_number_fits(s: Seq<char>)
    ensures
        text_number(s, u32::MAX as nat) matches Ok(n) ==> n <= u32::MAX,
{
    lemma_digits_fit(s);
    lemma_digits_fit(s.skip(1));
}

proof fn lemma_digits_fit(s: Seq<char>)
    ensures
        digits_number(s, u32::MAX as nat) matches Ok(n) ==> n <= u32::MAX,
    decreases s.len(),
{
    if s.len() > 0 {
        lemma_digits_fit(s.drop_last());
    }
}

/// The options of a runtime say what their fields hold.
pub proof fn options_say_what_they_hold(options: RuntimeOptions)
    ensures
        options@.secret_path == options.secret_path@,
        options@.secret == opt_text(options.secret),
        options@.version == options.version@,
        options@.platform_docker == options.platform_docker,
        options@.api_base == options.api_base@,
{
}

/// A program that says nothing else is known by the variant and the version of this library.
pub proof fn defaults_name_this_library()
    ensures
        DEFAULT_VARIANT_ID@ == "308943e8-faef-4835-a2ba-270351f72aa3"@,
        PACKAGE_VERSION@ == "1.0.0"@,
{
}

/// Options are shown with all that they hold but the secret itself.
pub proof fn options_are_shown_without_their_secret(options: RuntimeOptionsView)
    ensures
        options.shown() == "RuntimeOptions { secret_path: "@ + debug_quoted(options.secret_path)
            + ", secret: "@ + (if options.secret is Some {
            "Some(\"<redacted>\")"@
        } else {
            "None"@
        }) + ", version: "@ + options.version.shown() + ", platform_docker: "@ + (
        if options.platform_docker {
            "true"@
        } else {
            "false"@
        }) + ", api_base: "@ + debug_quoted(options.api_base) + " }"@,
        options.version.shown() == "VersionDetails { variant_id: "@ + debug_quoted(
            options.version.variant_id,
        ) + ", major: "@ + decimal(options.version.major as nat) + ", minor: "@ + decimal(
            options.version.minor as nat,
        ) + ", patch: "@ + decimal(options.version.patch as nat) + " }"@,
{
}

/// What is wrong with a version is told: a part that is missing, or one that is no number.
pub proof fn bad_versions_are_told(version: Seq<char>)
    ensures
        ({
            let head = until(version, '-');
            let first = text_number(until(head, '.'), u32::MAX as nat);
            let rest = rest_after(head, '.');
            let second = text_number(until(rest->0, '.'), u32::MAX as nat);
            &&& first matches Err(error) ==> version_parts(version) == Err::<
                (u32, u32, u32),
                Seq<char>,
            >("Invalid version component "@ + until(head, '.') + ": "@ + error.shown())
            &&& first is Ok && rest is None ==> version_parts(version) == Err::<
                (u32, u32, u32),
                Seq<char>,
            >("missing minor version in "@ + version)
            &&& first is Ok && rest is Some && second is Ok && rest_after(rest->0, '.') is None
                ==> version_parts(version) == Err::<(u32, u32, u32), Seq<char>>(
                "missing patch version in "@ + version,
            )
        }),
{
}

} // verus!

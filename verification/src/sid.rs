//! Windows security identifiers and the access control lists made from them.

use vstd::prelude::*;

use crate::error::{IoErrorKind, IoFailure, IoFailureView};
use crate::text::{
    has_prefix, is_digit, join2, join3, opt_text, owned, starts_with, trim, trimmed, whitespace,
};

verus! {

/// The access to the data directory: full control for the system and the administrators.
pub const RESTRICTED_DATA_SDDL: &'static str = "D:P(A;;FA;;;SY)(A;;FA;;;BA)";

/// The access to the secret, up to the user: the system, the administrators and a user.
pub const SECRET_FILE_ACCESS_SDDL_PREFIX: &'static str = "D:P(A;;FA;;;SY)(A;;FA;;;BA)(A;;FA;;;";

/// The access to the pipe of the service, without a user.
pub const PIPE_SDDL: &'static str = "D:P(A;;GA;;;SY)(A;;GA;;;BA)";

/// Groups of digits with single dashes between them.
pub open spec fn dashed_digits(s: Seq<char>) -> bool {
    &&& s.len() > 0
    &&& s[0] != '-'
    &&& s.last() != '-'
    &&& forall|i: int| 0 <= i < s.len() ==> is_digit(#[trigger] s[i]) || s[i] == '-'
    &&& forall|i: int| 0 < i < s.len() && #[trigger] s[i] == '-' ==> s[i - 1] != '-'
}

/// A security identifier: `S-1-`, then groups of digits.
pub open spec fn is_sid(s: Seq<char>) -> bool {
    has_prefix(s, "S-1-"@) && dashed_digits(s.skip(4))
}

/// A security identifier cannot end the entry of an access control list that it stands in,
/// nor start another one.
pub proof fn sids_stay_in_their_entry(s: Seq<char>, i: int)
    requires
        is_sid(s),
        0 <= i < s.len(),
    ensures
        s[i] != '(' && s[i] != ')' && s[i] != ';' && !whitespace(s[i]),
        s[i] == 'S' || s[i] == '-' || is_digit(s[i]),
{
    reveal_strlit("S-1-");
    if i < 4 {
        assert(s.take(4)[i] == "S-1-"@[i]);
    } else {
        assert(is_digit(s.skip(4)[i - 4]) || s.skip(4)[i - 4] == '-');
    }
}

/// The identifier itself, where it is one.
pub fn normalize_sid(sid: &str) -> (r: Option<&str>)
    ensures
        match r {
            Some(s) => is_sid(sid@) && s@ == sid@,
            None => !is_sid(sid@),
        },
{
    if !starts_with(sid, "S-1-") {
        return None;
    }
    proof {
        reveal_strlit("S-1-");
    }
    let n: usize = sid.unicode_len();
    let ghost rest = sid@.skip(4);
    let mut i: usize = 4;
    let mut after_dash = true;
    while i < n
        invariant
            4 <= i <= n,
            n == sid@.len(),
            rest == sid@.skip(4),
            after_dash == (i == 4 || rest[i - 5] == '-'),
            forall|k: int| 0 <= k < i - 4 ==> is_digit(#[trigger] rest[k]) || rest[k] == '-',
            forall|k: int| 0 < k < i - 4 && #[trigger] rest[k] == '-' ==> rest[k - 1] != '-',
            i > 4 ==> rest[0] != '-',
            has_prefix(sid@, "S-1-"@),
        decreases n - i,
    {
        let c = sid.get_char(i);
        assert(rest[i - 4] == c);
        if c == '-' {
            if after_dash {
                assert(!is_sid(sid@)) by {
                    if dashed_digits(rest) {
                        assert(rest[i - 4] == '-');
                    }
                }
                return None;
            }
            after_dash = true;
        } else if '0' <= c && c <= '9' {
            after_dash = false;
        } else {
            assert(!is_sid(sid@)) by {
                if dashed_digits(rest) {
                    assert(is_digit(rest[i - 4]) || rest[i - 4] == '-');
                }
            }
            return None;
        }
        i = i + 1;
    }
    if after_dash {
        assert(!dashed_digits(rest));
        return None;
    }
    Some(sid)
}

/// The access to the secret for a user, or why there is none.
pub open spec fn secret_access(sid: Seq<char>) -> Seq<char> {
    SECRET_FILE_ACCESS_SDDL_PREFIX@ + sid + ")"@
}

/// The access to the secret for a user.
pub fn secret_path_sddl(user_sid: &str) -> (r: Result<String, IoFailure>)
    ensures
        if is_sid(user_sid@) {
            r is Ok && r->Ok_0@ == secret_access(user_sid@)
        } else {
            r is Err && r->Err_0@ == (IoFailureView {
                kind: IoErrorKind::InvalidInput,
                message: "Windows returned an invalid current-user SID"@,
            })
        },
{
    match normalize_sid(user_sid) {
        Some(sid) => Ok(join3(SECRET_FILE_ACCESS_SDDL_PREFIX, sid, ")")),
        None => Err(
            IoFailure::new(
                IoErrorKind::InvalidInput,
                "Windows returned an invalid current-user SID",
            ),
        ),
    }
}

/// The access to the pipe of the service: the system and the administrators, and a user
/// only by a valid identifier.
pub open spec fn pipe_access(user_sid: Option<Seq<char>>) -> Seq<char> {
    match user_sid {
        Some(sid) => if is_sid(sid) {
            PIPE_SDDL@ + "(A;;GA;;;"@ + sid + ")"@
        } else {
            PIPE_SDDL@
        },
        None => PIPE_SDDL@,
    }
}

/// The access to the pipe of the service.
pub fn pipe_security_sddl(user_sid: Option<&str>) -> (r: String)
    ensures
        r@ == pipe_access(
            match user_sid {
                Some(sid) => Some(sid@),
                None => None,
            },
        ),
{
    match user_sid {
        Some(user_sid) => match normalize_sid(user_sid) {
            Some(sid) => {
                let mut sddl = join3(PIPE_SDDL, "(A;;GA;;;", sid);
                sddl.append(")");
                sddl
            },
            None => owned(PIPE_SDDL),
        },
        None => owned(PIPE_SDDL),
    }
}

/// Nobody but the system and the administrators gets access by an invalid identifier, and
/// a valid one is the only further entry.
pub proof fn access_is_granted_by_valid_sids_only(user_sid: Option<Seq<char>>)
    ensures
        pipe_access(user_sid) != PIPE_SDDL@ ==> user_sid is Some && is_sid(user_sid->0)
            && pipe_access(user_sid) == PIPE_SDDL@ + "(A;;GA;;;"@ + user_sid->0 + ")"@,
        pipe_access(None) == PIPE_SDDL@,
{
}

// ---------------------------------------------------------------------------
// The installed user
// ---------------------------------------------------------------------------

/// A path below an absolute directory.
pub open spec fn path_below(directory: Seq<char>, name: Seq<char>) -> Seq<char> {
    if directory.len() == 0 || directory.last() == '\\' || directory.last() == '/' {
        directory + name
    } else {
        directory + "\\"@ + name
    }
}

/// The file that holds the identifier of the user who installed the service.
pub fn installed_user_sid_path(data_directory: &str) -> (r: String)
    ensures
        r@ == path_below(data_directory@, "installed_user.sid"@),
{
    let n: usize = data_directory.unicode_len();
    if n == 0 || data_directory.get_char(n - 1) == '\\' || data_directory.get_char(n - 1) == '/' {
        join2(data_directory, "installed_user.sid")
    } else {
        join3(data_directory, "\\", "installed_user.sid")
    }
}

/// The identifier of the user who installed the service, given what reading its file gave.
pub fn read_installed_user_sid(read: Result<String, IoFailure>) -> (r: Option<String>)
    ensures
        opt_text(r) == match read {
            Ok(content) => if is_sid(trimmed(content@)) {
                Some(trimmed(content@))
            } else {
                None
            },
            Err(_) => None,
        },
{
    match read {
        Ok(content) => match normalize_sid(trim(content.as_str())) {
            Some(sid) => Some(owned(sid)),
            None => None,
        },
        Err(_) => None,
    }
}

/// What to write to the file of the installed user: nothing where it holds a valid
/// identifier already.
pub fn write_current_user_sid(installed: Option<String>, current: &str) -> (r: Option<String>)
    ensures
        opt_text(r) == match installed {
            Some(_) => None,
            None => Some(current@ + "\n"@),
        },
{
    match installed {
        Some(_) => None,
        None => Some(join2(current, "\n")),
    }
}

/// What to restrict to the system and the administrators, in order, each with the security
/// descriptor that it gets: the directory, so that nobody replaces the file, then the file.
pub fn secure_installed_user_sid_storage(data_directory: &str) -> (r: Vec<(String, &'static str)>)
    ensures
        r@.len() == 2,
        r@[0].0@ == data_directory@,
        r@[1].0@ == path_below(data_directory@, "installed_user.sid"@),
        forall|i: int| 0 <= i < 2 ==> (#[trigger] r@[i]).1@ == RESTRICTED_DATA_SDDL@,
{
    let mut paths: Vec<(String, &'static str)> = Vec::new();
    paths.push((owned(data_directory), RESTRICTED_DATA_SDDL));
    paths.push((installed_user_sid_path(data_directory), RESTRICTED_DATA_SDDL));
    paths
}

/// What follows once the first `done` of `total` paths were to be restricted, where all but
/// the last of them were: the end, or nothing where the next path is due. A path that could
/// not be restricted is the end, and no later one is touched.
pub fn storage_secured(done: usize, total: usize, last: Result<(), IoFailure>) -> (r: Option<
    Result<(), IoFailure>,
>)
    ensures
        r == match last {
            Err(failure) => Some(Err::<(), IoFailure>(failure)),
            Ok(_) => if done < total {
                None
            } else {
                Some(Ok::<(), IoFailure>(()))
            },
        },
{
    match last {
        Err(failure) => Some(Err(failure)),
        Ok(_) => if done < total {
            None
        } else {
            Some(Ok(()))
        },
    }
}

/// The user who gets access to the pipe: the one who installed the service, else the one
/// whom the process runs as, if that is known.
pub fn pipe_user_sid(installed: Option<String>, current: Option<String>) -> (r: Option<String>)
    ensures
        r == if installed is Some {
            installed
        } else {
            current
        },
{
    match installed {
        Some(sid) => Some(sid),
        None => current,
    }
}

// ---------------------------------------------------------------------------
// Wide strings
// ---------------------------------------------------------------------------

/// The UTF-16 code units of a character.
pub open spec fn utf16_units(c: char) -> Seq<u16> {
    let n = c as u32;
    if n < 0x10000 {
        seq![n as u16]
    } else {
        seq![
            (0xd800 + (n - 0x10000) / 0x400) as u16,
            (0xdc00 + (n - 0x10000) % 0x400) as u16,
        ]
    }
}

/// The UTF-16 code units of a text.
pub open spec fn utf16(s: Seq<char>) -> Seq<u16>
    decreases s.len(),
{
    if s.len() == 0 {
        Seq::empty()
    } else {
        utf16(s.drop_last()) + utf16_units(s.last())
    }
}

fn encode_utf16(s: &str) -> (r: Vec<u16>)
    ensures
        r@ == utf16(s@),
{
    let mut out: Vec<u16> = Vec::new();
    let n: usize = s.unicode_len();
    let mut i: usize = 0;
    assert(s@.take(0) =~= Seq::empty());
    while i < n
        invariant
            i <= n,
            n == s@.len(),
            out@ == utf16(s@.take(i as int)),
        decreases n - i,
    {
        let c = s.get_char(i);
        let code: u32 = c as u32;
        let ghost before = out@;
        proof {
            assert(s@.take(i + 1).drop_last() == s@.take(i as int));
            assert(s@.take(i + 1).last() == c);
        }
        if code < 0x10000 {
            out.push(code as u16);
            assert(out@ =~= before + utf16_units(c));
        } else {
            assert(code <= 0x10ffff);
            let offset: u32 = code - 0x10000;
            out.push((0xd800 + offset / 0x400) as u16);
            out.push((0xdc00 + offset % 0x400) as u16);
            assert(out@ =~= before + utf16_units(c));
        }
        i = i + 1;
    }
    assert(s@.take(n as int) == s@);
    out
}

/// Code units with the zero that ends them, unless they hold one themselves.
fn terminated(units: Vec<u16>, complaint: &str) -> (r: Result<Vec<u16>, IoFailure>)
    ensures
        if units@.contains(0) {
            r is Err && r->Err_0@ == (IoFailureView {
                kind: IoErrorKind::InvalidInput,
                message: complaint@,
            })
        } else {
            r is Ok && r->Ok_0@ == units@.push(0)
        },
{
    let mut i: usize = 0;
    while i < units.len()
        invariant
            i <= units.len(),
            forall|k: int| 0 <= k < i ==> units@[k] != 0,
        decreases units.len() - i,
    {
        if units[i] == 0 {
            assert(units@[i as int] == 0);
            return Err(IoFailure::new(IoErrorKind::InvalidInput, complaint));
        }
        i = i + 1;
    }
    let mut units = units;
    units.push(0);
    Ok(units)
}

/// A text as a zero-terminated wide string.
pub fn wide_string(value: &str) -> (r: Result<Vec<u16>, IoFailure>)
    ensures
        if utf16(value@).contains(0) {
            r is Err && r->Err_0@ == (IoFailureView {
                kind: IoErrorKind::InvalidInput,
                message: "Windows security descriptor contains an embedded NUL"@,
            })
        } else {
            r is Ok && r->Ok_0@ == utf16(value@).push(0)
        },
{
    terminated(encode_utf16(value), "Windows security descriptor contains an embedded NUL")
}

/// The code units of a path as a zero-terminated wide string.
pub fn wide_path(path: Vec<u16>) -> (r: Result<Vec<u16>, IoFailure>)
    ensures
        if path@.contains(0) {
            r is Err && r->Err_0@ == (IoFailureView {
                kind: IoErrorKind::InvalidInput,
                message: "secret path contains an embedded NUL"@,
            })
        } else {
            r is Ok && r->Ok_0@ == path@.push(0)
        },
{
    terminated(path, "secret path contains an embedded NUL")
}

/// A security identifier is `S-1-` with groups of digits behind it and single dashes between them,
/// and nothing else is one.
pub proof fn sids_are_known_by_their_form(s: Seq<char>)
    ensures
        is_sid(s) <==> {
            &&& s.len() > 4
            &&& s[0] == 'S' && s[1] == '-' && s[2] == '1' && s[3] == '-'
            &&& s[4] != '-'
            &&& s.last() != '-'
            &&& forall|i: int| 4 <= i < s.len() ==> ('0' <= #[trigger] s[i] <= '9' || s[i] == '-')
            &&& forall|i: int| 4 < i < s.len() && #[trigger] s[i] == '-' ==> s[i - 1] != '-'
        },
{
    reveal_strlit("S-1-");
    if s.len() >= 4 {
        let rest = s.skip(4);
        let start = s.take(4);
        assert(start =~= "S-1-"@ <==> s[0] == 'S' && s[1] == '-' && s[2] == '1' && s[3] == '-') by {
            if start =~= "S-1-"@ {
                assert(start[0] == s[0] && start[1] == s[1] && start[2] == s[2] && start[3]
                    == s[3]);
            }
        }
        if dashed_digits(rest) {
            assert forall|i: int| 4 <= i < s.len() implies ('0' <= #[trigger] s[i] <= '9' || s[i]
                == '-') by {
                assert(is_digit(rest[i - 4]) || rest[i - 4] == '-');
            }
            assert forall|i: int| 4 < i < s.len() && #[trigger] s[i] == '-' implies s[i - 1]
                != '-' by {
                assert(rest[i - 4] == '-');
            }
            assert(rest[0] == s[4]);
        }
        if s.len() > 4 && s[4] != '-' && s.last() != '-' && (forall|i: int|
            4 <= i < s.len() ==> ('0' <= #[trigger] s[i] <= '9' || s[i] == '-')) && (forall|i: int|
            4 < i < s.len() && #[trigger] s[i] == '-' ==> s[i - 1] != '-') {
            assert forall|i: int| 0 <= i < rest.len() implies is_digit(#[trigger] rest[i])
                || rest[i] == '-' by {
                assert(rest[i] == s[i + 4]);
            }
            assert forall|i: int| 0 < i < rest.len() && #[trigger] rest[i] == '-' implies rest[i
                - 1] != '-' by {
                assert(s[i + 4] == '-');
            }
            assert(dashed_digits(rest));
        }
    }
}

/// The system and the administrators have full access to the secret, to the data and to the pipe;
/// the secret has one user more, and the pipe one more at most, each by an identifier of their own.
/// Nobody else has any.
pub proof fn access_lists_name_who_may(sid: Seq<char>)
    ensures
        secret_access(sid) == "D:P(A;;FA;;;SY)(A;;FA;;;BA)(A;;FA;;;"@ + sid + ")"@,
        is_sid(sid) ==> pipe_access(Some(sid)) == "D:P(A;;GA;;;SY)(A;;GA;;;BA)"@ + "(A;;GA;;;"@
            + sid + ")"@,
        !is_sid(sid) ==> pipe_access(Some(sid)) == "D:P(A;;GA;;;SY)(A;;GA;;;BA)"@,
        pipe_access(None) == "D:P(A;;GA;;;SY)(A;;GA;;;BA)"@,
        RESTRICTED_DATA_SDDL@ == "D:P(A;;FA;;;SY)(A;;FA;;;BA)"@,
{
}

/// A character is one code unit, or two from which it can be told again; a text is the code units
/// of its characters, one after the other.
pub proof fn wide_texts_keep_their_characters(s: Seq<char>, c: char)
    ensures
        utf16(s.push(c)) == utf16(s) + utf16_units(c),
        utf16(Seq::empty()) == Seq::<u16>::empty(),
        (c as u32) < 0x10000 ==> utf16_units(c).len() == 1 && utf16_units(c)[0] == c as u32,
        (c as u32) >= 0x10000 ==> {
            &&& utf16_units(c).len() == 2
            &&& 0xd800 <= utf16_units(c)[0] < 0xdc00
            &&& 0xdc00 <= utf16_units(c)[1] < 0xe000
            &&& (utf16_units(c)[0] - 0xd800) * 0x400 + (utf16_units(c)[1] - 0xdc00) + 0x10000
                == c as u32
        },
{
    assert(s.push(c).drop_last() =~= s);
    assert(c as u32 <= 0x10ffff);
}

/// A file below a directory is named by both, with one separator between them.
pub proof fn files_stand_below_their_directory(directory: Seq<char>, name: Seq<char>)
    ensures
        directory.len() > 0 && directory.last() != '\\' && directory.last() != '/' ==> path_below(
            directory,
            name,
        ) == directory + "\\"@ + name,
        directory.len() == 0 || directory.last() == '\\' || directory.last() == '/' ==> path_below(
            directory,
            name,
        ) == directory + name,
{
}

} // verus!

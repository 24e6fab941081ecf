//! Who may use the service's socket on Unix.

use vstd::prelude::*;

use crate::error::{IoErrorKind, IoFailure, IoFailureView};
use crate::ipc::{IpcError, IpcErrorView};
use crate::outside::{debug_quoted, quote_debug};
use crate::text::{decimal, decimal_text, digit, has_prefix, join3, owned, starts_with};

verus! {

/// The group whose members may use the service.
pub const PLAYIT_SOCKET_GROUP_NAME: &'static str = "playit";

/// The operating system, as far as sockets are concerned.
#[derive(Clone, Copy, Debug, PartialEq, Eq, Structural)]
pub enum HostOs {
    Linux,
    Other,
}

/// The permission bits of the socket: on Linux its group may use it, elsewhere its owner
/// alone.
pub open spec fn mode_of(os: HostOs) -> u32 {
    match os {
        HostOs::Linux => 0o660,
        HostOs::Other => 0o600,
    }
}

/// The permission bits of the socket.
pub fn socket_mode(os: HostOs) -> (r: u32)
    ensures
        r == mode_of(os),
{
    match os {
        HostOs::Linux => 0o660,
        HostOs::Other => 0o600,
    }
}

/// What is to be set on a socket.
#[derive(Clone, Copy, Debug)]
pub struct SocketPermissionTarget<'a> {
    pub path: &'a str,
    pub group_name: &'static str,
    pub mode: u32,
    pub chown_group: bool,
}

/// An endpoint that is no file.
pub open spec fn is_not_a_file(socket_path: Seq<char>) -> bool {
    has_prefix(socket_path, "@"@) || has_prefix(socket_path, "\\\\.\\pipe\\"@)
}

/// What is to be set on the socket at a path: nothing where it is no file. The group is
/// changed on Linux alone, and only by root.
pub fn socket_permission_target(socket_path: &str, os: HostOs, effective_uid: u32) -> (r: Option<
    SocketPermissionTarget<'_>,
>)
    ensures
        match r {
            None => is_not_a_file(socket_path@),
            Some(target) => {
                &&& !is_not_a_file(socket_path@)
                &&& target.path@ == socket_path@
                &&& target.group_name@ == PLAYIT_SOCKET_GROUP_NAME@
                &&& target.mode == mode_of(os)
                &&& target.chown_group == (os == HostOs::Linux && effective_uid == 0)
            },
        },
{
    if starts_with(socket_path, "@") || starts_with(socket_path, "\\\\.\\pipe\\") {
        return None;
    }
    Some(
        SocketPermissionTarget {
            path: socket_path,
            group_name: PLAYIT_SOCKET_GROUP_NAME,
            mode: socket_mode(os),
            chown_group: os == HostOs::Linux && effective_uid == 0,
        },
    )
}

/// Nobody outside the socket's owner and group gets access to it, whatever the system.
pub proof fn sockets_are_never_open_to_others(os: HostOs)
    ensures
        mode_of(os) % 8 == 0,
        os == HostOs::Other ==> (mode_of(os) / 8) % 8 == 0,
{
}

/// `n` written in octal.
pub open spec fn octal(n: nat) -> Seq<char>
    decreases n,
{
    if n < 8 {
        seq![digit(n as int)]
    } else {
        octal(n / 8).push(digit((n % 8) as int))
    }
}

fn octal_text(n: u32) -> (r: String)
    ensures
        r@ == octal(n as nat),
    decreases n,
{
    if n < 8 {
        let r = decimal_text(n as u64);
        assert(decimal(n as nat) =~= seq![digit(n as int)]);
        r
    } else {
        let mut out = octal_text(n / 8);
        let last = decimal_text((n % 8) as u64);
        assert(decimal((n % 8) as nat) =~= seq![digit((n % 8) as int)]);
        out.append(last.as_str());
        assert(out@ =~= octal((n / 8) as nat).push(digit((n % 8) as int)));
        out
    }
}

/// The permissions to set on a socket.
#[derive(Debug)]
pub struct SocketPermissions {
    pub path: String,
    pub mode: u32,
    /// The group to give the socket to.
    pub group: Option<u32>,
}

/// The permissions to set on the socket that was just made: none where it is no file. A
/// group that the system does not know is left out.
pub fn configure_socket_permissions(
    socket_path: &str,
    os: HostOs,
    effective_uid: u32,
    present: bool,
    group: Option<u32>,
) -> (r: Result<Option<SocketPermissions>, IpcError>)
    ensures
        if is_not_a_file(socket_path@) {
            r == Ok::<Option<SocketPermissions>, IpcError>(None)
        } else if !present {
            r is Err && r->Err_0@ == IpcErrorView::BindFailed(
                IoFailureView {
                    kind: IoErrorKind::NotFound,
                    message: "IPC socket "@ + socket_path@ + " was not created"@,
                },
            )
        } else {
            &&& r matches Ok(Some(permissions))
            &&& permissions.path@ == socket_path@
            &&& permissions.mode == mode_of(os)
            &&& permissions.group == if os == HostOs::Linux && effective_uid == 0 {
                group
            } else {
                None
            }
        },
{
    let target = match socket_permission_target(socket_path, os, effective_uid) {
        Some(target) => target,
        None => return Ok(None),
    };
    if !present {
        let message = join3("IPC socket ", target.path, " was not created");
        return Err(
            IpcError::BindFailed(IoFailure::new(IoErrorKind::NotFound, message.as_str())),
        );
    }
    Ok(
        Some(
            SocketPermissions {
                path: owned(target.path),
                mode: target.mode,
                group: if target.chown_group {
                    group
                } else {
                    None
                },
            },
        ),
    )
}

/// What setting the permission bits of a socket came to.
pub fn socket_mode_set(socket_path: &str, mode: u32, result: Result<(), IoFailure>) -> (r: Result<
    (),
    IpcError,
>)
    ensures
        match result {
            Ok(_) => r is Ok,
            Err(failure) => r is Err && r->Err_0@ == IpcErrorView::BindFailed(
                IoFailureView {
                    kind: failure.kind,
                    message: "failed to chmod IPC socket "@ + socket_path@ + " to "@ + octal(
                        mode as nat,
                    ) + ": "@ + failure.message@,
                },
            ),
        },
{
    match result {
        Ok(_) => Ok(()),
        Err(failure) => {
            let bits = octal_text(mode);
            let mut message = join3("failed to chmod IPC socket ", socket_path, " to ");
            message.append(bits.as_str());
            message.append(": ");
            message.append(failure.message.as_str());
            Err(IpcError::BindFailed(IoFailure { kind: failure.kind, message }))
        },
    }
}

/// Why a socket was not given to its group.
#[derive(Debug)]
pub enum GroupFailure {
    /// The path cannot be handed to the system; the text says why.
    BadPath(String),
    /// The system refused; the text says why.
    Refused(String),
}

/// What giving a socket to its group came to.
pub fn socket_group_set(socket_path: &str, group: u32, result: Result<(), GroupFailure>) -> (r:
    Result<(), IpcError>)
    ensures
        match result {
            Ok(_) => r is Ok,
            Err(GroupFailure::BadPath(error)) => r is Err && r->Err_0@ == IpcErrorView::BindFailed(
                IoFailureView {
                    kind: IoErrorKind::InvalidInput,
                    message: "invalid IPC socket path "@ + debug_quoted(socket_path@) + ": "@
                        + error@,
                },
            ),
            Err(GroupFailure::Refused(error)) => r is Err && r->Err_0@ == IpcErrorView::BindFailed(
                IoFailureView {
                    kind: IoErrorKind::PermissionDenied,
                    message: "failed to chown IPC socket "@ + socket_path@ + " to group gid "@
                        + decimal(group as nat) + ": "@ + error@,
                },
            ),
        },
{
    match result {
        Ok(_) => Ok(()),
        Err(GroupFailure::BadPath(error)) => {
            let quoted = quote_debug(socket_path);
            let mut message = join3("invalid IPC socket path ", quoted.as_str(), ": ");
            message.append(error.as_str());
            Err(IpcError::BindFailed(IoFailure { kind: IoErrorKind::InvalidInput, message }))
        },
        Err(GroupFailure::Refused(error)) => {
            let gid = decimal_text(group as u64);
            let mut message = join3("failed to chown IPC socket ", socket_path, " to group gid ");
            message.append(gid.as_str());
            message.append(": ");
            message.append(error.as_str());
            Err(IpcError::BindFailed(IoFailure { kind: IoErrorKind::PermissionDenied, message }))
        },
    }
}

/// The owner of a socket can use it, and on Linux its group too; an endpoint is a file unless its
/// name begins with an at sign or as a pipe's does.
pub proof fn sockets_are_for_their_owner(os: HostOs, socket_path: Seq<char>)
    ensures
        os is Linux ==> mode_of(os) == 0o660,
        os is Other ==> mode_of(os) == 0o600,
        PLAYIT_SOCKET_GROUP_NAME@ == "playit"@,
        is_not_a_file(socket_path) <==> {
            ||| socket_path.len() > 0 && socket_path[0] == '@'
            ||| socket_path.len() >= 9 && socket_path.take(9) == "\\\\.\\pipe\\"@
        },
{
    reveal_strlit("@");
    reveal_strlit("\\\\.\\pipe\\");
    if socket_path.len() > 0 {
        let start = socket_path.take(1);
        assert(start =~= "@"@ <==> socket_path[0] == '@') by {
            if start =~= "@"@ {
                assert(start[0] == socket_path[0]);
            }
        }
    }
}

/// Permission bits are written in octal: each number below eight by its own digit, and each further
/// digit behind those of the number without it.
pub proof fn modes_are_written_in_octal(n: nat, d: nat)
    requires
        d < 8,
    ensures
        octal(d).len() == 1,
        octal(d)[0] as u32 == '0' as u32 + d,
        n > 0 ==> octal(n * 8 + d) == octal(n) + octal(d),
{
    if n > 0 {
        assert((n * 8 + d) / 8 == n && (n * 8 + d) % 8 == d);
        assert(octal(n * 8 + d) =~= octal(n) + octal(d));
    }
}

} // verus!

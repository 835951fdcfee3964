//! The control socket: which paths can be one, whose socket a path leads to, and
//! when a socket may be taken over or removed.

use crate::error::{ErrorView, LambError};
use crate::text::{decimal, join, render_decimal};
use vstd::prelude::*;

verus! {

/// The longest path of a socket, in bytes.
pub const UNIX_SOCKET_PATH_MAX_BYTES: usize = 107;

/// The error about a path that holds a zero byte.
pub open spec fn path_contains_nul() -> ErrorView {
    ErrorView::Control("control socket path contains NUL"@)
}

/// The error about a path that is too long for a socket.
pub open spec fn path_too_long(length: nat, shown: Seq<char>) -> ErrorView {
    ErrorView::Control(
        "control socket path exceeds Linux sockaddr_un.sun_path capacity ("@ + decimal(length)
            + " > "@ + decimal(107) + " bytes): "@ + shown,
    )
}

fn contains_nul(bytes: &Vec<u8>) -> (found: bool)
    ensures
        found == bytes@.contains(0u8),
{
    let mut i: usize = 0;
    while i < bytes.len()
        invariant
            i <= bytes.len(),
            forall|j: int| 0 <= j < i ==> bytes@[j] != 0u8,
        decreases bytes.len() - i,
    {
        if bytes[i] == 0 {
            return true;
        }
        i = i + 1;
    }
    false
}

/// Checks that a socket can lie at a path. `shown` is the path as it is shown.
pub fn validate_unix_socket_path(bytes: &Vec<u8>, shown: &str) -> (checked: Result<(), LambError>)
    ensures
        match checked {
            Ok(()) => bytes@.len() <= 107 && !bytes@.contains(0u8),
            Err(error) => if bytes@.len() > 107 {
                error@ == path_too_long(bytes@.len(), shown@)
            } else {
                bytes@.contains(0u8) && error@ == path_contains_nul()
            },
        },
{
    if bytes.len() > UNIX_SOCKET_PATH_MAX_BYTES {
        let length = render_decimal(bytes.len() as u64);
        let limit = render_decimal(UNIX_SOCKET_PATH_MAX_BYTES as u64);
        let mut message = join(
            "control socket path exceeds Linux sockaddr_un.sun_path capacity (",
            length.as_str(),
        );
        message = join(message.as_str(), " > ");
        message = join(message.as_str(), limit.as_str());
        message = join(message.as_str(), " bytes): ");
        message = join(message.as_str(), shown);
        return Err(LambError::Control(message));
    }
    if contains_nul(bytes) {
        return Err(LambError::Control("control socket path contains NUL".to_string()));
    }
    Ok(())
}

/// A path as the system takes it: with a zero byte at its end, and none before.
pub fn nul_terminated_path(bytes: &Vec<u8>) -> (terminated: Result<Vec<u8>, LambError>)
    ensures
        match terminated {
            Ok(terminated) => !bytes@.contains(0u8) && terminated@ == bytes@.push(0u8),
            Err(error) => bytes@.contains(0u8) && error@ == path_contains_nul(),
        },
{
    if contains_nul(bytes) {
        return Err(LambError::Control("control socket path contains NUL".to_string()));
    }
    let mut terminated: Vec<u8> = Vec::new();
    let mut i: usize = 0;
    while i < bytes.len()
        invariant
            i <= bytes.len(),
            terminated@ == bytes@.take(i as int),
        decreases bytes.len() - i,
    {
        terminated.push(bytes[i]);
        i = i + 1;
        proof {
            assert(terminated@ =~= bytes@.take(i as int));
        }
    }
    proof {
        assert(bytes@.take(bytes@.len() as int) =~= bytes@);
    }
    terminated.push(0);
    Ok(terminated)
}

/// The hexadecimal digit for a value below sixteen.
pub open spec fn hex_digit(value: nat) -> char {
    if value < 10 {
        crate::text::digit(value)
    } else if value == 10 {
        'a'
    } else if value == 11 {
        'b'
    } else if value == 12 {
        'c'
    } else if value == 13 {
        'd'
    } else if value == 14 {
        'e'
    } else {
        'f'
    }
}

/// The last `width` hexadecimal digits of a number, with leading zeros.
pub open spec fn low_hex(value: nat, width: nat) -> Seq<char>
    decreases width,
{
    if width == 0 {
        Seq::empty()
    } else {
        low_hex(value / 16, (width - 1) as nat).push(hex_digit(value % 16))
    }
}

fn hex_digit_text(value: u64) -> (shown: &'static str)
    requires
        value < 16,
    ensures
        shown@ == seq![hex_digit(value as nat)],
{
    proof {
        reveal_strlit("0");
        reveal_strlit("1");
        reveal_strlit("2");
        reveal_strlit("3");
        reveal_strlit("4");
        reveal_strlit("5");
        reveal_strlit("6");
        reveal_strlit("7");
        reveal_strlit("8");
        reveal_strlit("9");
        reveal_strlit("a");
        reveal_strlit("b");
        reveal_strlit("c");
        reveal_strlit("d");
        reveal_strlit("e");
        reveal_strlit("f");
    }
    let shown: &'static str = match value {
        0 => "0",
        1 => "1",
        2 => "2",
        3 => "3",
        4 => "4",
        5 => "5",
        6 => "6",
        7 => "7",
        8 => "8",
        9 => "9",
        10 => "a",
        11 => "b",
        12 => "c",
        13 => "d",
        14 => "e",
        _ => "f",
    };
    proof {
        assert(shown@ =~= seq![hex_digit(value as nat)]);
    }
    shown
}

fn render_low_hex(value: u64, width: u64) -> (text: String)
    ensures
        text@ == low_hex(value as nat, width as nat),
    decreases width,
{
    if width == 0 {
        let text = String::new();
        proof {
            assert(text@ =~= Seq::<char>::empty());
        }
        text
    } else {
        let start = render_low_hex(value / 16, width - 1);
        let text = join(start.as_str(), hex_digit_text(value % 16));
        proof {
            assert(text@ =~= start@.push(hex_digit((value % 16) as nat)));
        }
        text
    }
}

/// The name under which a socket is set up before it is moved to its place: it
/// carries a random number, so that nobody else has it.
pub fn private_socket_name(random: u64) -> (name: String)
    ensures
        name@ == ".lamb-"@ + low_hex(random as nat, 16),
{
    let digits = render_low_hex(random, 16);
    join(".lamb-", digits.as_str())
}

/// Checks that a socket can be set up next to where it is to go: the path needs
/// a directory and a name.
pub fn check_socket_place(has_parent: bool, has_file_name: bool) -> (checked: Result<
    (),
    LambError,
>)
    ensures
        match checked {
            Ok(()) => has_parent && has_file_name,
            Err(error) => if !has_parent {
                error@ == ErrorView::Control("control socket path has no parent"@)
            } else {
                !has_file_name && error@ == ErrorView::Control(
                    "control socket path has no file name"@,
                )
            },
        },
{
    if !has_parent {
        return Err(LambError::Control("control socket path has no parent".to_string()));
    }
    if !has_file_name {
        return Err(LambError::Control("control socket path has no file name".to_string()));
    }
    Ok(())
}

/// Two different random numbers give two different names.
pub proof fn private_names_differ(first: u64, second: u64)
    requires
        first != second,
    ensures
        ".lamb-"@ + low_hex(first as nat, 16) != ".lamb-"@ + low_hex(second as nat, 16),
{
    assert(sixteen_to(16) == 0x1_0000_0000_0000_0000) by {
        reveal_with_fuel(sixteen_to, 17);
    }
    if ".lamb-"@ + low_hex(first as nat, 16) == ".lamb-"@ + low_hex(second as nat, 16) {
        let start = ".lamb-"@;
        let one = start + low_hex(first as nat, 16);
        let two = start + low_hex(second as nat, 16);
        assert(one.skip(start.len() as int) =~= low_hex(first as nat, 16));
        assert(two.skip(start.len() as int) =~= low_hex(second as nat, 16));
        lemma_low_hex_injective(first as nat, second as nat, 16);
    }
}

/// Sixteen to the given power.
pub open spec fn sixteen_to(exponent: nat) -> nat
    decreases exponent,
{
    if exponent == 0 {
        1
    } else {
        16 * sixteen_to((exponent - 1) as nat)
    }
}

proof fn lemma_low_hex_injective(first: nat, second: nat, width: nat)
    requires
        first < sixteen_to(width),
        second < sixteen_to(width),
        low_hex(first, width) == low_hex(second, width),
    ensures
        first == second,
    decreases width,
{
    if width > 0 {
        let shorter = (width - 1) as nat;
        let one = low_hex(first / 16, shorter);
        let two = low_hex(second / 16, shorter);
        assert(one.push(hex_digit(first % 16)).last() == hex_digit(first % 16));
        assert(two.push(hex_digit(second % 16)).last() == hex_digit(second % 16));
        assert(one.push(hex_digit(first % 16)).drop_last() =~= one);
        assert(two.push(hex_digit(second % 16)).drop_last() =~= two);
        assert(first % 16 == second % 16);
        lemma_low_hex_injective(first / 16, second / 16, shorter);
    }
}

/// By what a file is told from all others: the device it lies on, and its number
/// there.
#[derive(Debug, Clone, Copy, PartialEq, Eq, Structural)]
pub struct SocketIdentity {
    pub dev: u64,
    pub ino: u64,
}

/// What lies at a path.
#[derive(Debug, Clone, Copy, PartialEq, Eq, Structural)]
pub struct PathMetadata {
    pub is_socket: bool,
    pub dev: u64,
    pub ino: u64,
}

impl SocketIdentity {
    /// The identity of what lies at a path.
    pub fn from_metadata(metadata: PathMetadata) -> (identity: SocketIdentity)
        ensures
            identity == (SocketIdentity { dev: metadata.dev, ino: metadata.ino }),
    {
        SocketIdentity { dev: metadata.dev, ino: metadata.ino }
    }

    /// Whether this socket is what lies at a path.
    pub open spec fn is_at(self, metadata: PathMetadata) -> bool {
        metadata.is_socket && metadata.dev == self.dev && metadata.ino == self.ino
    }

    /// Tells whether this socket is what lies at a path.
    pub fn matches(self, metadata: PathMetadata) -> (is_same: bool)
        ensures
            is_same == self.is_at(metadata),
    {
        metadata.is_socket && metadata.dev == self.dev && metadata.ino == self.ino
    }
}

/// What a look at a path came to.
#[derive(Debug, Clone, PartialEq, Eq)]
pub enum PathLook {
    Absent,
    Found(PathMetadata),
    Failed(LambError),
}

/// What becomes of a path at which a socket of another daemon may lie.
#[derive(Debug, Clone, PartialEq, Eq)]
pub enum StaleStep {
    /// Nothing is in the way.
    Free,
    /// A socket is there: find out whether anyone listens.
    Probe(SocketIdentity),
    /// The path cannot be used.
    Refuse(LambError),
}

/// What a message to a socket came to, sent in a way that no listener takes for
/// a client.
#[derive(Debug, Clone, PartialEq, Eq)]
pub enum ProbeAnswer {
    /// A listener is there, of the kind that a daemon has.
    Live,
    /// Nobody listens.
    Refused,
    /// Something is there that took the message.
    Accepted,
    Failed(LambError),
}

/// The message about a path, behind the given words.
pub open spec fn about_path(words: Seq<char>, path: Seq<char>) -> ErrorView {
    ErrorView::Control(words + path)
}

fn refuse(words: &str, path: &str) -> (error: LambError)
    ensures
        error@ == about_path(words@, path@),
{
    LambError::Control(join(words, path))
}

/// Looks at what lies where the control socket is to go. What is no socket is
/// never replaced.
pub fn inspect_stale_socket(look: PathLook, path: &str) -> (step: StaleStep)
    ensures
        match look {
            PathLook::Absent => step is Free,
            PathLook::Failed(error) => step == StaleStep::Refuse(error),
            PathLook::Found(metadata) => if metadata.is_socket {
                step == StaleStep::Probe(
                    SocketIdentity { dev: metadata.dev, ino: metadata.ino },
                )
            } else {
                &&& step is Refuse
                &&& step->Refuse_0@ == about_path(
                    "refusing to replace non-socket control path "@,
                    path@,
                )
            },
        },
{
    match look {
        PathLook::Absent => StaleStep::Free,
        PathLook::Failed(error) => StaleStep::Refuse(error),
        PathLook::Found(metadata) => {
            if metadata.is_socket {
                StaleStep::Probe(SocketIdentity::from_metadata(metadata))
            } else {
                StaleStep::Refuse(refuse("refusing to replace non-socket control path ", path))
            }
        },
    }
}

/// Decides about a socket that was probed: it is removed only where nobody
/// listens, and where it still is the socket that was probed. `look` is what lies
/// at the path after the probe. Answers whether there is anything to remove.
pub fn decide_stale_socket(
    identity: SocketIdentity,
    answer: ProbeAnswer,
    look: PathLook,
    path: &str,
) -> (remove: Result<bool, LambError>)
    ensures
        match answer {
            ProbeAnswer::Live => remove is Err && remove->Err_0@ == about_path(
                "control socket already has a live listener at "@,
                path@,
            ),
            ProbeAnswer::Accepted => remove is Err && remove->Err_0@ == about_path(
                "refusing control socket with unexpected probe response at "@,
                path@,
            ),
            ProbeAnswer::Failed(error) => remove == Err::<bool, LambError>(error),
            ProbeAnswer::Refused => match look {
                PathLook::Absent => remove == Ok::<bool, LambError>(false),
                PathLook::Failed(error) => remove == Err::<bool, LambError>(error),
                PathLook::Found(metadata) => if identity.is_at(metadata) {
                    remove == Ok::<bool, LambError>(true)
                } else {
                    remove is Err && remove->Err_0@ == about_path(
                        "control socket changed while checking stale path "@,
                        path@,
                    )
                },
            },
        },
{
    match answer {
        ProbeAnswer::Live => Err(refuse("control socket already has a live listener at ", path)),
        ProbeAnswer::Accepted => Err(
            refuse("refusing control socket with unexpected probe response at ", path),
        ),
        ProbeAnswer::Failed(error) => Err(error),
        ProbeAnswer::Refused => match look {
            PathLook::Absent => Ok(false),
            PathLook::Failed(error) => Err(error),
            PathLook::Found(metadata) => {
                if identity.matches(metadata) {
                    Ok(true)
                } else {
                    Err(refuse("control socket changed while checking stale path ", path))
                }
            },
        },
    }
}

/// Decides about the daemon's own socket when it goes down: it is removed only
/// where it still lies at its path. Answers whether there is anything to remove.
pub fn decide_cleanup(identity: SocketIdentity, look: PathLook) -> (remove: Result<bool, LambError>)
    ensures
        match look {
            PathLook::Absent => remove == Ok::<bool, LambError>(false),
            PathLook::Failed(error) => remove == Err::<bool, LambError>(error),
            PathLook::Found(metadata) => remove == Ok::<bool, LambError>(identity.is_at(metadata)),
        },
{
    match look {
        PathLook::Absent => Ok(false),
        PathLook::Failed(error) => Err(error),
        PathLook::Found(metadata) => Ok(identity.matches(metadata)),
    }
}

/// Decides about a socket that was being set up when that failed. One whose
/// identity is not known yet is removed where it is a socket.
pub fn decide_staging_cleanup(identity: Option<SocketIdentity>, look: PathLook) -> (remove: bool)
    ensures
        remove == (match look {
            PathLook::Found(metadata) => match identity {
                Some(identity) => identity.is_at(metadata),
                None => metadata.is_socket,
            },
            _ => false,
        }),
{
    match look {
        PathLook::Found(metadata) => match identity {
            Some(identity) => identity.matches(metadata),
            None => metadata.is_socket,
        },
        _ => false,
    }
}

/// Takes a look at the socket that was just set up under its private name. Where
/// the look itself failed, whether or not anything lies there, that is the error.
pub fn staged_identity(look: Result<PathMetadata, LambError>, path: &str) -> (identity: Result<
    SocketIdentity,
    LambError,
>)
    ensures
        match look {
            Ok(metadata) => if metadata.is_socket {
                identity == Ok::<SocketIdentity, LambError>(
                    SocketIdentity { dev: metadata.dev, ino: metadata.ino },
                )
            } else {
                identity is Err && identity->Err_0@ == about_path(
                    "private control path is not a socket at "@,
                    path@,
                )
            },
            Err(error) => identity == Err::<SocketIdentity, LambError>(error),
        },
{
    match look {
        Ok(metadata) => {
            if metadata.is_socket {
                Ok(SocketIdentity::from_metadata(metadata))
            } else {
                Err(refuse("private control path is not a socket at ", path))
            }
        },
        Err(error) => Err(error),
    }
}

/// Checks that the socket that was opened is the one that was set up.
pub fn confirm_pinned(identity: SocketIdentity, pinned: PathMetadata, path: &str) -> (confirmed:
    Result<(), LambError>)
    ensures
        match confirmed {
            Ok(()) => identity.is_at(pinned),
            Err(error) => !identity.is_at(pinned) && error@ == about_path(
                "private control socket changed before pinning at "@,
                path@,
            ),
        },
{
    if identity.matches(pinned) {
        Ok(())
    } else {
        Err(refuse("private control socket changed before pinning at ", path))
    }
}

/// What moving the socket to its place came to.
#[derive(Debug, Clone, PartialEq, Eq)]
pub enum RenameOutcome {
    Moved,
    /// Something else took the place meanwhile.
    Occupied,
    Failed(LambError),
}

/// Takes the outcome of moving the socket to its place. Whatever took the place
/// meanwhile is left alone.
pub fn publish_socket(outcome: RenameOutcome, path: &str) -> (published: Result<(), LambError>)
    ensures
        match outcome {
            RenameOutcome::Moved => published is Ok,
            RenameOutcome::Occupied => published is Err && published->Err_0@ == about_path(
                "control path changed during socket publication at "@,
                path@,
            ),
            RenameOutcome::Failed(error) => published == Err::<(), LambError>(error),
        },
{
    match outcome {
        RenameOutcome::Moved => Ok(()),
        RenameOutcome::Occupied => Err(
            refuse("control path changed during socket publication at ", path),
        ),
        RenameOutcome::Failed(error) => Err(error),
    }
}

/// What a connection came to that is made only to wake the listener.
#[derive(Debug, Clone, PartialEq, Eq)]
pub enum WakeOutcome {
    Connected,
    InProgress,
    AlreadyConnecting,
    BacklogFull,
    Refused,
    Failed(LambError),
}

/// Takes the outcome of waking the listener. Where a connection stands, is on its
/// way, or finds the queue full, the listener wakes; where nobody listens, nobody
/// has to.
pub fn judge_wake(outcome: WakeOutcome) -> (woken: Result<(), LambError>)
    ensures
        match outcome {
            WakeOutcome::Failed(error) => woken == Err::<(), LambError>(error),
            _ => woken is Ok,
        },
{
    match outcome {
        WakeOutcome::Failed(error) => Err(error),
        _ => Ok(()),
    }
}

/// A socket that lies at the path of the daemon's own and is another one is never
/// removed, neither before the daemon takes the path nor when it goes down.
pub proof fn a_foreign_socket_is_never_removed(identity: SocketIdentity, other: PathMetadata)
    requires
        other.dev != identity.dev || other.ino != identity.ino || !other.is_socket,
    ensures
        !identity.is_at(other),
{
}

} // verus!

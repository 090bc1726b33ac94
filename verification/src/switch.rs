//! The root-switcher state machine.
//!
//! The transition runs exactly once, strictly forward, with no retries:
//! each state names the next piece of outside work, the surrounding
//! process performs it and reports the outcome as an [`Event`], and
//! [`step`] decides the next state. The first failure at any state is
//! terminal: the machine moves to [`State::Failed`] carrying the
//! classified error, and the only remaining action is to halt.

use vstd::prelude::*;
use crate::bytebuf::clone_bytes;
use crate::cmdline::{boot_fstype, boot_init, resolve_boot_params};
use crate::loopdev::{loop_device_path, loop_path_bytes};

verus! {

/// A failure of the transition, by taxonomy: file I/O, mount request,
/// loop device, or process replacement.
pub enum SwitchError {
    /// A file could not be created, opened, read, written or removed.
    Io { path: Vec<u8>, errno: i32 },
    /// A mount system call failed.
    Mount { source: Vec<u8>, target: Vec<u8>, fstype: Option<Vec<u8>>, flags: u64, errno: i32 },
    /// The loop control device, a loop device node, or the bind request
    /// failed, or the kernel reported no free index.
    Device { errno: i32 },
    /// Replacing the process image with the final init failed.
    Exec { errno: i32 },
}

/// The states of the transition, strictly forward.
pub enum State {
    /// Nothing has happened yet.
    Start,
    /// `/dev`, `/sys` and `/proc` exist and carry their pseudo-filesystems.
    PseudoFsStaged,
    /// The kernel-log sink is installed as the process-wide logger.
    LoggerReady,
    /// The kernel granted a free loop index; `device` is its node path.
    LoopAllocated { device: Vec<u8> },
    /// The backing image is bound to `device`.
    LoopBound { device: Vec<u8> },
    /// The command line is read; `init` and `fstype` are resolved.
    CmdlineKnown { device: Vec<u8>, init: Vec<u8>, fstype: Vec<u8> },
    /// The real root is mounted read-only at its staging point.
    RootMounted { init: Vec<u8> },
    /// The working directory is inside the new root and the disposable
    /// staging content is gone.
    Relocated { init: Vec<u8> },
    /// The pseudo-filesystems and the new root are moved into place.
    Chrooted { init: Vec<u8> },
    /// Terminal success: the process image is to be replaced.
    Exec,
    /// Terminal failure: the transition is over.
    Failed { err: SwitchError },
}

/// What the surrounding process reports after performing an action.
pub enum Event {
    /// The action completed.
    Done,
    /// The loop-control "get free index" request returned `ret`, with
    /// `errno` as left by the call.
    LoopIndex { ret: i64, errno: i32 },
    /// The kernel command line was read as `text`.
    CmdlineText { text: Vec<u8> },
    /// A file operation on `path` failed.
    IoFailed { path: Vec<u8>, errno: i32 },
    /// A mount request failed.
    MountFailed { source: Vec<u8>, target: Vec<u8>, fstype: Option<Vec<u8>>, flags: u64, errno: i32 },
    /// A loop-device open or bind request failed.
    DeviceFailed { errno: i32 },
    /// The exec of the final init returned.
    ExecFailed { errno: i32 },
}

/// The next piece of outside work, one per non-terminal state.
pub enum Action {
    /// Create `/dev`, `/sys`, `/proc` and perform the pseudo-filesystem
    /// mount plan.
    StagePseudoFs,
    /// Initialize the kernel-log sink and install it process-wide.
    InitLogger,
    /// Open the loop control device and request a free index.
    AllocateLoop,
    /// Bind the backing image to the named loop device node.
    BindLoop { device: Vec<u8> },
    /// Read the kernel command line from its pseudo-file.
    ReadCmdline,
    /// Create the staging root directory and mount the root there.
    MountRoot { device: Vec<u8>, fstype: Vec<u8> },
    /// Change into the new root and delete the disposable staging
    /// content. The deletion only reclaims memory-backed storage, but a
    /// failure of it is fatal all the same: the transition has no
    /// best-effort steps.
    Relocate,
    /// Perform the move-mount plan.
    MoveMounts,
    /// Chroot into the working directory and replace the process image
    /// with `init`.
    ChrootExec { init: Vec<u8> },
    /// Report the failure and halt; nothing may be retried.
    Halt,
}

/// Which events may answer the action of state `s`. No event answers a
/// terminal state: the machine takes no further step from success or
/// from failure.
pub open spec fn expects(s: State, e: Event) -> bool {
    match (s, e) {
        (State::Start, Event::Done) => true,
        (State::Start, Event::IoFailed { .. }) => true,
        (State::Start, Event::MountFailed { .. }) => true,
        (State::PseudoFsStaged, Event::Done) => true,
        (State::PseudoFsStaged, Event::IoFailed { .. }) => true,
        (State::LoggerReady, Event::LoopIndex { .. }) => true,
        (State::LoggerReady, Event::IoFailed { .. }) => true,
        (State::LoopAllocated { .. }, Event::Done) => true,
        (State::LoopAllocated { .. }, Event::IoFailed { .. }) => true,
        (State::LoopAllocated { .. }, Event::DeviceFailed { .. }) => true,
        (State::LoopBound { .. }, Event::CmdlineText { .. }) => true,
        (State::LoopBound { .. }, Event::IoFailed { .. }) => true,
        (State::CmdlineKnown { .. }, Event::Done) => true,
        (State::CmdlineKnown { .. }, Event::IoFailed { .. }) => true,
        (State::CmdlineKnown { .. }, Event::MountFailed { .. }) => true,
        (State::RootMounted { .. }, Event::Done) => true,
        (State::RootMounted { .. }, Event::IoFailed { .. }) => true,
        (State::Relocated { .. }, Event::Done) => true,
        (State::Relocated { .. }, Event::MountFailed { .. }) => true,
        (State::Chrooted { .. }, Event::Done) => true,
        (State::Chrooted { .. }, Event::IoFailed { .. }) => true,
        (State::Chrooted { .. }, Event::ExecFailed { .. }) => true,
        _ => false,
    }
}

/// Whether a failure during the action of `s` is classified as a device
/// error: every open that serves loop allocation or binding is.
pub open spec fn io_is_device_error(s: State) -> bool {
    s is LoggerReady || s is LoopAllocated
}

/// The transition relation: `r` is the state after `s` takes `e`.
pub open spec fn step_rel(s: State, e: Event, r: State) -> bool {
    match (s, e) {
        (State::Start, Event::Done) => r is PseudoFsStaged,
        (State::PseudoFsStaged, Event::Done) => r is LoggerReady,
        (State::LoggerReady, Event::LoopIndex { ret, errno }) => if ret < 0 {
            r matches State::Failed { err: SwitchError::Device { errno: en } } && en == errno
        } else {
            r matches State::LoopAllocated { device } && device@ == loop_path_bytes(ret as nat)
        },
        (State::LoopAllocated { device: d0 }, Event::Done) => r matches State::LoopBound {
            device,
        } && device@ == d0@,
        (State::LoopBound { device: d0 }, Event::CmdlineText { text }) => r
            matches State::CmdlineKnown { device, init, fstype } && device@ == d0@ && init@
            == boot_init(text@) && fstype@ == boot_fstype(text@),
        (State::CmdlineKnown { device: _, init: i0, fstype: _ }, Event::Done) => r
            matches State::RootMounted { init } && init@ == i0@,
        (State::RootMounted { init: i0 }, Event::Done) => r matches State::Relocated { init }
            && init@ == i0@,
        (State::Relocated { init: i0 }, Event::Done) => r matches State::Chrooted { init }
            && init@ == i0@,
        (State::Chrooted { init: _ }, Event::Done) => r is Exec,
        (s0, Event::IoFailed { path, errno }) => if io_is_device_error(s0) {
            r matches State::Failed { err: SwitchError::Device { errno: en } } && en == errno
        } else {
            r matches State::Failed { err: SwitchError::Io { path: p, errno: en } } && p@ == path@
                && en == errno
        },
        (_, Event::MountFailed { source, target, fstype, flags, errno }) => r
            matches State::Failed {
            err: SwitchError::Mount {
                source: so,
                target: ta,
                fstype: ft,
                flags: fl,
                errno: en,
            },
        } && so@ == source@ && ta@ == target@ && ft.deep_view() == fstype.deep_view() && fl
            == flags && en == errno,
        (_, Event::DeviceFailed { errno }) => r matches State::Failed {
            err: SwitchError::Device { errno: en },
        } && en == errno,
        (_, Event::ExecFailed { errno }) => r matches State::Failed {
            err: SwitchError::Exec { errno: en },
        } && en == errno,
        _ => false,
    }
}

/// Advances the machine: consumes the current state and the outcome of
/// its action and yields the next state. Any failure outcome yields the
/// terminal `Failed` state carrying the classified error; success moves
/// exactly one stage forward.
pub fn step(s: State, e: Event) -> (r: State)
    requires
        expects(s, e),
    ensures
        step_rel(s, e, r),
{
    match (s, e) {
        (State::Start, Event::Done) => State::PseudoFsStaged,
        (State::PseudoFsStaged, Event::Done) => State::LoggerReady,
        (State::LoggerReady, Event::LoopIndex { ret, errno }) => {
            if ret < 0 {
                State::Failed { err: SwitchError::Device { errno } }
            } else {
                let device = loop_device_path(ret as u64);
                assert(ret as u64 as nat == ret as nat);
                State::LoopAllocated { device }
            }
        },
        (State::LoopAllocated { device }, Event::Done) => State::LoopBound { device },
        (State::LoopBound { device }, Event::CmdlineText { text }) => {
            let (init, fstype) = resolve_boot_params(text.as_slice());
            State::CmdlineKnown { device, init, fstype }
        },
        (State::CmdlineKnown { device: _, init, fstype: _ }, Event::Done) => State::RootMounted {
            init,
        },
        (State::RootMounted { init }, Event::Done) => State::Relocated { init },
        (State::Relocated { init }, Event::Done) => State::Chrooted { init },
        (State::Chrooted { init: _ }, Event::Done) => State::Exec,
        (s0, Event::IoFailed { path, errno }) => {
            if matches!(s0, State::LoggerReady) || matches!(s0, State::LoopAllocated { .. }) {
                State::Failed { err: SwitchError::Device { errno } }
            } else {
                State::Failed { err: SwitchError::Io { path, errno } }
            }
        },
        (_, Event::MountFailed { source, target, fstype, flags, errno }) => State::Failed {
            err: SwitchError::Mount { source, target, fstype, flags, errno },
        },
        (_, Event::DeviceFailed { errno }) => State::Failed {
            err: SwitchError::Device { errno },
        },
        (_, Event::ExecFailed { errno }) => State::Failed { err: SwitchError::Exec { errno } },
        _ => vstd::pervasive::unreached(),
    }
}

/// Which action state `s` calls for.
pub open spec fn action_rel(s: State, a: Action) -> bool {
    match s {
        State::Start => a is StagePseudoFs,
        State::PseudoFsStaged => a is InitLogger,
        State::LoggerReady => a is AllocateLoop,
        State::LoopAllocated { device } => a matches Action::BindLoop { device: d } && d@
            == device@,
        State::LoopBound { .. } => a is ReadCmdline,
        State::CmdlineKnown { device, init: _, fstype } => a matches Action::MountRoot {
            device: d,
            fstype: f,
        } && d@ == device@ && f@ == fstype@,
        State::RootMounted { .. } => a is Relocate,
        State::Relocated { .. } => a is MoveMounts,
        State::Chrooted { init } => a matches Action::ChrootExec { init: i } && i@ == init@,
        State::Exec => false,
        State::Failed { .. } => a is Halt,
    }
}

/// Names the outside work the current state calls for. The terminal
/// success state calls for none: the process image is already gone.
pub fn next_action(s: &State) -> (a: Action)
    requires
        !(s is Exec),
    ensures
        action_rel(*s, a),
{
    match s {
        State::Start => Action::StagePseudoFs,
        State::PseudoFsStaged => Action::InitLogger,
        State::LoggerReady => Action::AllocateLoop,
        State::LoopAllocated { device } => Action::BindLoop { device: clone_bytes(device) },
        State::LoopBound { .. } => Action::ReadCmdline,
        State::CmdlineKnown { device, init: _, fstype } => Action::MountRoot {
            device: clone_bytes(device),
            fstype: clone_bytes(fstype),
        },
        State::RootMounted { .. } => Action::Relocate,
        State::Relocated { .. } => Action::MoveMounts,
        State::Chrooted { init } => Action::ChrootExec { init: clone_bytes(init) },
        State::Exec => vstd::pervasive::unreached(),
        State::Failed { .. } => Action::Halt,
    }
}

/// The position of a state in the strict stage order. The terminal
/// failure state stands outside the order.
pub open spec fn rank(s: State) -> int {
    match s {
        State::Start => 0,
        State::PseudoFsStaged => 1,
        State::LoggerReady => 2,
        State::LoopAllocated { .. } => 3,
        State::LoopBound { .. } => 4,
        State::CmdlineKnown { .. } => 5,
        State::RootMounted { .. } => 6,
        State::Relocated { .. } => 7,
        State::Chrooted { .. } => 8,
        State::Exec => 9,
        State::Failed { .. } => -1,
    }
}

/// A successful step advances the machine by exactly one stage; no step
/// revisits or reorders a stage.
pub proof fn lemma_step_advances(s: State, e: Event, r: State)
    requires
        expects(s, e),
        step_rel(s, e, r),
        !(r is Failed),
    ensures
        rank(r) == rank(s) + 1,
{
}

/// Failure semantics: any failure outcome moves the machine straight to
/// the terminal failure state, whose only action is to halt. No
/// transition is retried, and nothing past the failing stage is ever
/// attempted.
pub proof fn lemma_failure_is_terminal(s: State, e: Event, r: State)
    requires
        expects(s, e),
        step_rel(s, e, r),
        !(e is Done),
        !(e is CmdlineText),
        !(e matches Event::LoopIndex { ret, errno: _ } && ret >= 0),
    ensures
        r is Failed,
        action_rel(r, Action::Halt),
        forall|e2: Event| !expects(r, e2),
{
}

proof fn lemma_rank_at(states: Seq<State>, events: Seq<Event>, k: int)
    requires
        states.len() == events.len() + 1,
        states[0] is Start,
        forall|m: int|
            0 <= m < events.len() ==> expects(states[m], events[m]) && step_rel(
                states[m],
                events[m],
                states[m + 1],
            ),
        0 <= k < states.len(),
        !(states[k] is Failed),
    ensures
        rank(states[k]) == k,
    decreases k,
{
    if k > 0 {
        assert(expects(states[k - 1], events[k - 1]));
        assert(!(states[k - 1] is Failed));
        lemma_rank_at(states, events, k - 1);
        lemma_step_advances(states[k - 1], events[k - 1], states[k]);
    }
}

/// Ordering law of the transition. In every valid run - a sequence of
/// states beginning at `Start` in which each state follows from its
/// predecessor by one step on an expected event - the stages occur
/// strictly in order: a state reached later always stands at a strictly
/// later stage, and a failure can only be the last state of the run.
pub proof fn lemma_run_ordered(states: Seq<State>, events: Seq<Event>)
    requires
        states.len() == events.len() + 1,
        states[0] is Start,
        forall|m: int|
            0 <= m < events.len() ==> expects(states[m], events[m]) && step_rel(
                states[m],
                events[m],
                states[m + 1],
            ),
    ensures
        forall|k: int| 0 <= k < states.len() && !(states[k] is Failed) ==> rank(states[k]) == k,
        forall|k1: int, k2: int|
            0 <= k1 < k2 < states.len() && !(states[k2] is Failed) ==> rank(states[k1]) < rank(
                states[k2],
            ),
        forall|k: int| 0 <= k < states.len() - 1 ==> !(states[k] is Failed),
{
    assert forall|k: int| 0 <= k < states.len() - 1 implies !(states[k] is Failed) by {
        assert(expects(states[k], events[k]));
    }
    assert forall|k: int| 0 <= k < states.len() && !(states[k] is Failed) implies rank(states[k])
        == k by {
        lemma_rank_at(states, events, k);
    }
    assert forall|k1: int, k2: int|
        0 <= k1 < k2 < states.len() && !(states[k2] is Failed) implies rank(states[k1]) < rank(
        states[k2],
    ) by {
        lemma_rank_at(states, events, k2);
        lemma_rank_at(states, events, k1);
    }
}

} // verus!

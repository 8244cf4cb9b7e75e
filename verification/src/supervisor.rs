//! Decisions of the player supervisor: the fixed socket naming, the exact
//! player invocation, the teardown rules, the exit-monitor step, and the
//! orphan-socket test the startup sweep uses. The process spawning and
//! socket I/O that carry these decisions out live outside the library.

use vstd::prelude::*;
use vstd::string::*;

use crate::text::{
    dec_str, ends_with_spec, starts_with_spec, str_ends_with, str_eq, str_starts_with,
    u64_to_string,
};

verus! {

/// How many times the client polls for the control socket to appear after a
/// spawn, and how long it sleeps between polls: twenty polls of a hundred
/// milliseconds, about two seconds in all.
pub const SOCKET_POLL_ATTEMPTS: u64 = 20;

pub const SOCKET_POLL_INTERVAL_MS: u64 = 100;

/// How often the exit monitor polls the subprocess handle.
pub const EXIT_POLL_INTERVAL_MS: u64 = 500;

/// How often the position and duration pollers read their properties.
pub const POSITION_POLL_INTERVAL_MS: u64 = 1000;

/// How often the audio-level poller reads the statistics property.
pub const AUDIO_LEVEL_POLL_INTERVAL_MS: u64 = 50;

/// The volume assumed when the current volume cannot be read.
pub const FALLBACK_VOLUME: u64 = 50;

/// The file name of the control socket of the application instance whose
/// process id is `pid`.
pub open spec fn socket_file_name_spec(pid: nat) -> Seq<char> {
    "clisten-mpv-"@ + dec_str(pid) + ".sock"@
}

/// The full socket path of that instance, in the system temp directory.
pub open spec fn socket_path_spec(pid: nat) -> Seq<char> {
    "/tmp/clisten-mpv-"@ + dec_str(pid) + ".sock"@
}

/// File name of this instance's control socket, derived from the process id
/// so that concurrent instances never collide.
pub fn socket_file_name(pid: u64) -> (r: String)
    ensures
        r@ == socket_file_name_spec(pid as nat),
{
    let num = u64_to_string(pid);
    let mut r = "clisten-mpv-".to_owned();
    r.append(num.as_str());
    r.append(".sock");
    proof {
        assert(r@ =~= socket_file_name_spec(pid as nat));
    }
    r
}

/// Full path of this instance's control socket.
pub fn socket_path_for(pid: u64) -> (r: String)
    ensures
        r@ == socket_path_spec(pid as nat),
{
    let num = u64_to_string(pid);
    let mut r = "/tmp/clisten-mpv-".to_owned();
    r.append(num.as_str());
    r.append(".sock");
    proof {
        assert(r@ =~= socket_path_spec(pid as nat));
    }
    r
}

/// A temp-directory entry that the startup sweep should quit and delete:
/// named like a control socket of this application, but not the one of the
/// instance running as process `pid`.
pub open spec fn stale_socket_spec(name: Seq<char>, pid: nat) -> bool {
    &&& starts_with_spec(name, "clisten-mpv-"@)
    &&& ends_with_spec(name, ".sock"@)
    &&& name != socket_file_name_spec(pid)
}

/// Whether the temp-directory entry `name` is a leftover control socket of
/// an earlier instance, never the running instance's own.
pub fn is_stale_socket(name: &str, pid: u64) -> (r: bool)
    ensures
        r == stale_socket_spec(name@, pid as nat),
{
    let own = socket_file_name(pid);
    str_starts_with(name, "clisten-mpv-") && str_ends_with(name, ".sock") && !str_eq(
        name,
        own.as_str(),
    )
}

/// The exact invocation of the player binary for one URL: video and
/// terminal takeover disabled, the control socket path, the audio filter
/// that exposes RMS and peak levels, and the URL as the sole positional
/// argument.
pub fn mpv_spawn_args(socket_path: &str, url: &str) -> (args: Vec<String>)
    ensures
        args@.len() == 5,
        args@[0]@ == "--no-video"@,
        args@[1]@ == "--no-terminal"@,
        args@[2]@ == "--input-ipc-server="@ + socket_path@,
        args@[3]@ == "--af=lavfi=[astats=metadata=1:reset=1]"@,
        args@[4]@ == url@,
{
    let mut args: Vec<String> = Vec::new();
    args.push("--no-video".to_owned());
    args.push("--no-terminal".to_owned());
    let mut ipc = "--input-ipc-server=".to_owned();
    ipc.append(socket_path);
    args.push(ipc);
    args.push("--af=lavfi=[astats=metadata=1:reset=1]".to_owned());
    args.push(url.to_owned());
    args
}

/// What a teardown performs: the quit command and the socket removal are
/// always attempted, the held subprocess is killed only when one is held.
pub struct StopPlan {
    pub send_quit: bool,
    pub remove_socket: bool,
    pub kill_child: bool,
}

/// The supervisor's own state for one player instance: whether a spawned
/// subprocess handle is currently held. The handle is held exactly while a
/// player subprocess is believed alive.
pub struct SupervisorState {
    pub child_alive: bool,
}

/// What one tick of the exit monitor observed of the subprocess handle.
pub enum ExitPoll {
    /// No handle is held (or waiting on it failed): the monitor ends.
    NoChild,
    /// The subprocess is still running.
    StillRunning,
    /// The subprocess has exited.
    Exited,
}

impl SupervisorState {
    /// A fresh supervisor holds no subprocess.
    pub fn new() -> (r: Self)
        ensures
            !r.child_alive,
    {
        SupervisorState { child_alive: false }
    }

    /// Best-effort teardown. Always safe to call: with no live subprocess it
    /// performs no kill and leaves the state exactly as it was, and no call
    /// ever reports an error.
    pub fn stop(&mut self) -> (plan: StopPlan)
        ensures
            !final(self).child_alive,
            plan.send_quit,
            plan.remove_socket,
            plan.kill_child == old(self).child_alive,
            !old(self).child_alive ==> *final(self) == *old(self),
    {
        let plan = StopPlan {
            send_quit: true,
            remove_socket: true,
            kill_child: self.child_alive,
        };
        self.child_alive = false;
        plan
    }

    /// Record the outcome of the spawn a play call made after its teardown:
    /// the handle is held exactly when the spawn succeeded, and the five
    /// monitors are started exactly then.
    pub fn on_play_spawn(&mut self, spawn_ok: bool) -> (start_monitors: bool)
        ensures
            final(self).child_alive == spawn_ok,
            start_monitors == spawn_ok,
    {
        self.child_alive = spawn_ok;
        spawn_ok
    }

    /// One tick of the exit monitor: an exited subprocess clears the handle,
    /// owes the finished event and ends the monitor; a missing handle ends
    /// the monitor silently; a running subprocess changes nothing. The
    /// result is (finished event owed, monitor ends).
    pub fn exit_monitor_step(&mut self, poll: ExitPoll) -> (r: (bool, bool))
        ensures
            (match poll {
                ExitPoll::Exited => !final(self).child_alive && r == (true, true),
                ExitPoll::StillRunning => *final(self) == *old(self) && r == (false, false),
                ExitPoll::NoChild => *final(self) == *old(self) && r == (false, true),
            }),
    {
        match poll {
            ExitPoll::Exited => {
                self.child_alive = false;
                (true, true)
            },
            ExitPoll::StillRunning => (false, false),
            ExitPoll::NoChild => (false, true),
        }
    }
}

/// The supervisor state after a teardown, whatever it held before.
pub open spec fn stopped_state() -> SupervisorState {
    SupervisorState { child_alive: false }
}

/// Law: teardown is idempotent. Every stop lands in the stopped state, and a
/// stop taken from the stopped state — in particular any stop after a stop,
/// or with no active player — leaves the state exactly as it found it.
pub proof fn lemma_stop_idempotent(s: SupervisorState)
    ensures
        !stopped_state().child_alive,
        !s.child_alive ==> stopped_state() == s,
{
}

} // verus!

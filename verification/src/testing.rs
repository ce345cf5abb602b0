//! Support types for exercising the library against a local datagram
//! socket: path arithmetic for a scratch directory, and the state machine of
//! the little server that reads and discards datagrams.
//!
//! Everything here works on plain values. Creating directories, binding the
//! socket and receiving datagrams are left to the caller, who feeds the
//! outcome of each receive into [`UnixSocketServer::on_event`] and performs
//! the action it decides.

use vstd::prelude::*;
use vstd::string::StringExecFns;

verus! {

/// A scratch directory under which socket paths are constructed.
pub struct TempDir {
    /// The directory all constructed paths live under, without a trailing
    /// separator.
    pub base: String,
}

impl TempDir {
    /// Use `base` as the scratch directory. The caller is the one creating
    /// and removing the directory itself.
    pub fn new(base: String) -> (r: TempDir)
        ensures
            r.base@ == base@,
    {
        TempDir { base }
    }

    /// The path of `name` inside the directory: the two joined by one
    /// separator. `name` is relative, so the join never discards the base.
    pub fn new_path(&self, name: &str) -> (r: String)
        requires
            name@.len() == 0 || name@[0] != '/',
        ensures
            r@ == self.base@ + seq!['/'] + name@,
    {
        let mut p = self.base.clone();
        p.append("/");
        p.append(name);
        proof {
            reveal_strlit("/");
            assert("/"@ =~= seq!['/']);
            assert(p@ =~= self.base@ + seq!['/'] + name@);
        }
        p
    }
}

/// What one pass of the server's receive loop observed.
#[derive(PartialEq, Eq, Debug, Hash, Clone, Copy, Structural)]
pub enum ServerEvent {
    /// A datagram arrived; whether its bytes decoded as valid text.
    Received { valid: bool },
    /// The receive timed out without data.
    TimedOut,
    /// The receive failed for some other reason.
    Failed,
}

/// What the server decides to do after an event.
#[derive(PartialEq, Eq, Debug, Hash, Clone, Copy, Structural)]
pub enum ServerAction {
    /// Keep looping without reporting anything.
    Continue,
    /// Report a decoding failure, then keep looping.
    ReportDecodeError,
    /// Report a receive failure, then keep looping.
    ReportIoError,
    /// Leave the loop: shutdown was requested and the timeout gave a safe
    /// point to observe it.
    Stop,
}

/// The state a datagram-discarding server steps through: not yet listening,
/// ready, asked to shut down.
///
/// The loop itself, with its socket and timeouts, runs outside; this type
/// decides, for each observed event, what the loop does next.
pub struct UnixSocketServer {
    /// Whether the socket has been bound and the loop entered.
    pub ready: bool,
    /// Whether a shutdown has been requested.
    pub shutdown: bool,
    /// The socket path the server listens on.
    pub path: String,
    /// The receive timeout of each loop pass, in milliseconds.
    pub interval_ms: u64,
}

impl UnixSocketServer {
    /// A server that will listen on `path`, checking for shutdown every
    /// `interval_ms` milliseconds.
    pub fn new(path: &str, interval_ms: u64) -> (r: Self)
        ensures
            !r.ready,
            !r.shutdown,
            r.path@ == path@,
            r.interval_ms == interval_ms,
    {
        UnixSocketServer {
            ready: false,
            shutdown: false,
            path: String::from_str(path),
            interval_ms,
        }
    }

    /// Has the server created the socket to listen on?
    pub fn is_ready(&self) -> (r: bool)
        ensures
            r == self.ready,
    {
        self.ready
    }

    /// Record that the socket is bound and the loop has started.
    pub fn mark_ready(&mut self)
        ensures
            *final(self) == (UnixSocketServer { ready: true, ..*old(self) }),
    {
        self.ready = true;
    }

    /// Indicate that the server should stop its main run loop. The loop
    /// observes this at its next timeout.
    pub fn request_shutdown(&mut self)
        ensures
            *final(self) == (UnixSocketServer { shutdown: true, ..*old(self) }),
    {
        self.shutdown = true;
    }

    /// Decide what the receive loop does after one event: data is read and
    /// discarded, with decoding failures reported; a timeout is the only
    /// point at which a requested shutdown stops the loop; any other
    /// receive failure is reported and the loop goes on.
    pub fn on_event(&self, event: ServerEvent) -> (r: ServerAction)
        ensures
            r == (match event {
                ServerEvent::Received { valid } => if valid {
                    ServerAction::Continue
                } else {
                    ServerAction::ReportDecodeError
                },
                ServerEvent::TimedOut => if self.shutdown {
                    ServerAction::Stop
                } else {
                    ServerAction::Continue
                },
                ServerEvent::Failed => ServerAction::ReportIoError,
            }),
    {
        match event {
            ServerEvent::Received { valid } => {
                if valid {
                    ServerAction::Continue
                } else {
                    ServerAction::ReportDecodeError
                }
            },
            ServerEvent::TimedOut => {
                if self.shutdown {
                    ServerAction::Stop
                } else {
                    ServerAction::Continue
                }
            },
            ServerEvent::Failed => ServerAction::ReportIoError,
        }
    }
}

} // verus!

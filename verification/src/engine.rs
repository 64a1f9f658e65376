//! How the engine process is launched, and what a finished launch reports.
//! The bridge only describes a launch; running it is left to the caller.

use vstd::prelude::*;
use crate::decimal::{decimal_digits, to_decimal};
use crate::registry::ConnectionId;

verus! {

/// What the engine is asked to do.
#[derive(Debug, Clone, Copy, PartialEq, Eq, Structural)]
pub enum EngineMode {
    /// Accept connections on a port and report inbound messages; long-running.
    Listen,
    /// Open a connection to a peer and print its identifier.
    Start,
    /// Send one message on a connection.
    Send,
}

/// What a standard stream of the engine process is connected to.
#[derive(Debug, Clone, Copy, PartialEq, Eq, Structural)]
pub enum StreamPolicy {
    /// Nothing: reads see end of input.
    Null,
    /// The stream of the process that launches the engine.
    Inherit,
    /// A pipe that the launching process holds the other end of.
    Piped,
}

/// One launch of the engine.
#[derive(Debug, PartialEq, Eq)]
pub struct EngineInvocation {
    pub mode: EngineMode,
    /// The arguments after the mode word, each to be handed to the process
    /// as it is: one argument per element, whatever characters it holds.
    pub args: Vec<String>,
    pub stdin_policy: StreamPolicy,
    pub stdout_policy: StreamPolicy,
}

/// What became of a short-lived launch.
#[derive(Debug, PartialEq, Eq)]
pub enum ProcessOutcome {
    /// The process could not be created.
    SpawnFailed,
    /// The process ran and exited.
    Exited { success: bool, stdout: String, stderr: String },
}

/// The characters of each string of a list.
pub open spec fn texts(strings: Seq<String>) -> Seq<Seq<char>> {
    strings.map_values(|s: String| s@)
}

/// The word that selects a mode on the engine's command line.
pub open spec fn mode_word(mode: EngineMode) -> Seq<char> {
    match mode {
        EngineMode::Listen => "listen"@,
        EngineMode::Start => "start"@,
        EngineMode::Send => "send"@,
    }
}

/// A launch as a mathematical value.
pub struct InvocationView {
    pub mode: EngineMode,
    pub args: Seq<Seq<char>>,
    pub stdin_policy: StreamPolicy,
    pub stdout_policy: StreamPolicy,
}

impl InvocationView {
    /// The launch that listens on `port`. Its output is read line by line.
    pub open spec fn listen(port: u16) -> InvocationView {
        InvocationView {
            mode: EngineMode::Listen,
            args: seq![decimal_digits(port as nat)],
            stdin_policy: StreamPolicy::Inherit,
            stdout_policy: StreamPolicy::Piped,
        }
    }

    /// The launch that connects to a peer. Its output is collected and read
    /// when it has exited.
    pub open spec fn start(
        peer_address: Seq<char>,
        peer_port: u16,
        local_id: Seq<char>,
    ) -> InvocationView {
        InvocationView {
            mode: EngineMode::Start,
            args: seq![peer_address, decimal_digits(peer_port as nat), local_id],
            stdin_policy: StreamPolicy::Null,
            stdout_policy: StreamPolicy::Piped,
        }
    }

    /// The launch that sends `text` on connection `id`. The text is one
    /// argument, unchanged.
    pub open spec fn send(id: ConnectionId, text: Seq<char>) -> InvocationView {
        InvocationView {
            mode: EngineMode::Send,
            args: seq![decimal_digits(id as nat), text],
            stdin_policy: StreamPolicy::Null,
            stdout_policy: StreamPolicy::Piped,
        }
    }

    /// The engine's command line: the mode word, then the arguments.
    pub open spec fn argv(self) -> Seq<Seq<char>> {
        seq![mode_word(self.mode)] + self.args
    }
}

impl View for EngineInvocation {
    type V = InvocationView;

    open spec fn view(&self) -> InvocationView {
        InvocationView {
            mode: self.mode,
            args: texts(self.args@),
            stdin_policy: self.stdin_policy,
            stdout_policy: self.stdout_policy,
        }
    }
}

impl EngineInvocation {
    /// Describes the launch that listens on `port`.
    pub fn listen(port: u16) -> (invocation: EngineInvocation)
        ensures
            invocation@ == InvocationView::listen(port),
    {
        let mut args: Vec<String> = Vec::new();
        args.push(to_decimal(port as u32));
        assert(texts(args@) =~= seq![decimal_digits(port as nat)]);
        EngineInvocation {
            mode: EngineMode::Listen,
            args,
            stdin_policy: StreamPolicy::Inherit,
            stdout_policy: StreamPolicy::Piped,
        }
    }

    /// Describes the launch that connects to the peer at `peer_address` and
    /// `peer_port`, announcing `local_id` to it.
    pub fn start(peer_address: &str, peer_port: u16, local_id: &str) -> (invocation:
        EngineInvocation)
        ensures
            invocation@ == InvocationView::start(peer_address@, peer_port, local_id@),
    {
        let mut args: Vec<String> = Vec::new();
        args.push(peer_address.to_owned());
        args.push(to_decimal(peer_port as u32));
        args.push(local_id.to_owned());
        assert(texts(args@) =~= seq![
            peer_address@,
            decimal_digits(peer_port as nat),
            local_id@,
        ]);
        EngineInvocation {
            mode: EngineMode::Start,
            args,
            stdin_policy: StreamPolicy::Null,
            stdout_policy: StreamPolicy::Piped,
        }
    }

    /// Describes the launch that sends `text` on connection `id`.
    pub fn send(id: ConnectionId, text: &str) -> (invocation: EngineInvocation)
        ensures
            invocation@ == InvocationView::send(id, text@),
    {
        let mut args: Vec<String> = Vec::new();
        args.push(to_decimal(id));
        args.push(text.to_owned());
        assert(texts(args@) =~= seq![decimal_digits(id as nat), text@]);
        EngineInvocation {
            mode: EngineMode::Send,
            args,
            stdin_policy: StreamPolicy::Null,
            stdout_policy: StreamPolicy::Piped,
        }
    }

    /// The engine's command line for this launch: the mode word, then the
    /// arguments.
    pub fn argv(&self) -> (line: Vec<String>)
        ensures
            texts(line@) == self@.argv(),
    {
        let word = match self.mode {
            EngineMode::Listen => "listen",
            EngineMode::Start => "start",
            EngineMode::Send => "send",
        };
        let mut line: Vec<String> = Vec::new();
        line.push(word.to_owned());
        assert(texts(line@) =~= seq![mode_word(self.mode)]);
        let n = self.args.len();
        let mut i: usize = 0;
        while i < n
            invariant
                i <= n,
                n == self.args.len(),
                texts(line@) == seq![mode_word(self.mode)] + texts(self.args@).take(i as int),
            decreases n - i,
        {
            let ghost before = line@;
            line.push(self.args[i].clone());
            assert(texts(line@) =~= texts(before).push(self.args@[i as int]@));
            assert(texts(self.args@).take(i + 1) =~= texts(self.args@).take(i as int).push(
                self.args@[i as int]@,
            ));
            assert(texts(line@) =~= seq![mode_word(self.mode)] + texts(self.args@).take(i + 1));
            i += 1;
        }
        assert(texts(self.args@).take(n as int) =~= texts(self.args@));
        line
    }
}

} // verus!

//! The session supervisor.
//!
//! A session is one run of a child process on a pseudo-terminal.  The outside
//! work (allocating the terminal, spawning, waiting, signalling, closing
//! descriptors, running the relay threads) is done by the caller.  The
//! supervisor holds the decisions: for each thing that happened outside, a
//! [`Notice`], it says what the session becomes and which [`Action`]s the
//! caller performs next, in order.

use crate::exit_status::{exit_succeeded, exit_success};
use vstd::prelude::*;

verus! {

/// A pseudo-terminal: the descriptors of its two sides.
#[derive(Clone, Copy, Debug, PartialEq, Eq, Structural)]
pub struct Pty {
    /// The side the supervisor keeps for the session's lifetime.
    pub master: i32,
    /// The side the child gets as its standard streams.
    pub slave: i32,
}

/// Where a session is in its life, with the resources it holds there.
#[derive(Debug)]
pub enum Lifecycle {
    /// No child runs yet.  The terminal is held once it has been allocated.
    Spawning { pty: Option<Pty> },
    /// The child runs.  The supervisor holds the master descriptor and the
    /// child's process identifier; `input_open` says whether typed input is
    /// still passed on.
    Running { master: i32, child: u32, input_open: bool },
    /// The child has ended; nothing is held any more.
    Finished { success: bool },
    /// No child could be started; nothing is held.
    Failed { reason: String },
}

/// The mathematical value of a [`Lifecycle`].
pub enum LifecycleView {
    Spawning { pty: Option<Pty> },
    Running { master: i32, child: u32, input_open: bool },
    Finished { success: bool },
    Failed { reason: Seq<char> },
}

impl View for Lifecycle {
    type V = LifecycleView;

    open spec fn view(&self) -> LifecycleView {
        match *self {
            Lifecycle::Spawning { pty } => LifecycleView::Spawning { pty },
            Lifecycle::Running { master, child, input_open } => LifecycleView::Running {
                master,
                child,
                input_open,
            },
            Lifecycle::Finished { success } => LifecycleView::Finished { success },
            Lifecycle::Failed { reason } => LifecycleView::Failed { reason: reason@ },
        }
    }
}

impl LifecycleView {
    /// Whether the state is final: no transition leaves it.
    pub open spec fn is_terminal(self) -> bool {
        self is Finished || self is Failed
    }
}

/// What the consumer is told about a session.
#[derive(Debug)]
pub enum SessionEvent {
    /// The child runs; `title` is the session's display title.
    Started { title: String },
    /// A chunk of clean text that the child wrote.
    Output { text: String },
    /// The session is over.  Nothing follows this event.
    Finished { success: bool },
}

/// The mathematical value of a [`SessionEvent`].
pub enum EventView {
    Started { title: Seq<char> },
    Output { text: Seq<char> },
    Finished { success: bool },
}

impl View for SessionEvent {
    type V = EventView;

    open spec fn view(&self) -> EventView {
        match *self {
            SessionEvent::Started { title } => EventView::Started { title: title@ },
            SessionEvent::Output { text } => EventView::Output { text: text@ },
            SessionEvent::Finished { success } => EventView::Finished { success },
        }
    }
}

/// Something that happened outside and is reported to the supervisor.
#[derive(Debug)]
pub enum Notice {
    /// A pseudo-terminal was allocated.
    PtyAllocated { pty: Pty },
    /// The operating system could not provide a pseudo-terminal.
    PtyUnavailable,
    /// The child process was created.
    Spawned { pid: u32 },
    /// The child process could not be created; `detail` is the system's
    /// message.
    SpawnFailed { detail: String },
    /// Waiting on the child returned this status word.
    ChildExited { status: i32 },
    /// Waiting on the child failed: nothing is known of how it ended.
    ChildUnreachable,
    /// The consumer typed a line.
    Input { line: String },
    /// The consumer asked to cancel the session.
    Cancel,
}

/// The mathematical value of a [`Notice`].
pub enum NoticeView {
    PtyAllocated { pty: Pty },
    PtyUnavailable,
    Spawned { pid: u32 },
    SpawnFailed { detail: Seq<char> },
    ChildExited { status: i32 },
    ChildUnreachable,
    Input { line: Seq<char> },
    Cancel,
}

impl View for Notice {
    type V = NoticeView;

    open spec fn view(&self) -> NoticeView {
        match *self {
            Notice::PtyAllocated { pty } => NoticeView::PtyAllocated { pty },
            Notice::PtyUnavailable => NoticeView::PtyUnavailable,
            Notice::Spawned { pid } => NoticeView::Spawned { pid },
            Notice::SpawnFailed { detail } => NoticeView::SpawnFailed { detail: detail@ },
            Notice::ChildExited { status } => NoticeView::ChildExited { status },
            Notice::ChildUnreachable => NoticeView::ChildUnreachable,
            Notice::Input { line } => NoticeView::Input { line: line@ },
            Notice::Cancel => NoticeView::Cancel,
        }
    }
}

/// One piece of outside work that the supervisor asks for.
#[derive(Debug)]
pub enum Action {
    /// Start the session's command with `slave` as its standard input, output
    /// and error, in a new session of its own and with that terminal as its
    /// controlling terminal.  Report `Spawned` or `SpawnFailed`.
    Spawn { slave: i32 },
    /// Close this descriptor.
    CloseDescriptor { fd: i32 },
    /// Deliver this event to the consumer.
    Emit { event: SessionEvent },
    /// Start the output relay on `master`, and the input relay on a duplicate
    /// of it behind a fresh input queue.
    StartRelays { master: i32 },
    /// Block until the child ends.  Report `ChildExited` or
    /// `ChildUnreachable`.
    AwaitExit { pid: u32 },
    /// Send the termination signal to this process, and to no other.
    Terminate { pid: u32 },
    /// Put this line on the input queue.
    QueueInput { line: String },
    /// Drop the input queue, which ends the input relay.
    CloseInput,
    /// Forget the child's process identifier.
    ClearTarget,
    /// Wait for the output relay to end.
    JoinOutputRelay,
    /// Wait for the input relay to end.
    JoinInputRelay,
}

/// The mathematical value of an [`Action`].
pub enum ActionView {
    Spawn { slave: i32 },
    CloseDescriptor { fd: i32 },
    Emit { event: EventView },
    StartRelays { master: i32 },
    AwaitExit { pid: u32 },
    Terminate { pid: u32 },
    QueueInput { line: Seq<char> },
    CloseInput,
    ClearTarget,
    JoinOutputRelay,
    JoinInputRelay,
}

impl View for Action {
    type V = ActionView;

    open spec fn view(&self) -> ActionView {
        match *self {
            Action::Spawn { slave } => ActionView::Spawn { slave },
            Action::CloseDescriptor { fd } => ActionView::CloseDescriptor { fd },
            Action::Emit { event } => ActionView::Emit { event: event@ },
            Action::StartRelays { master } => ActionView::StartRelays { master },
            Action::AwaitExit { pid } => ActionView::AwaitExit { pid },
            Action::Terminate { pid } => ActionView::Terminate { pid },
            Action::QueueInput { line } => ActionView::QueueInput { line: line@ },
            Action::CloseInput => ActionView::CloseInput,
            Action::ClearTarget => ActionView::ClearTarget,
            Action::JoinOutputRelay => ActionView::JoinOutputRelay,
            Action::JoinInputRelay => ActionView::JoinInputRelay,
        }
    }
}

/// The values of a list of actions, in order.
pub open spec fn action_views(actions: Seq<Action>) -> Seq<ActionView> {
    Seq::new(actions.len(), |i: int| actions[i]@)
}

/// One interactive run of a child process.
#[derive(Debug)]
pub struct Session {
    /// The title shown for the session.
    pub title: String,
    /// The command to run.
    pub command: String,
    /// The command's arguments.
    pub args: Vec<String>,
    /// The current state.
    pub state: Lifecycle,
}

/// The mathematical value of a [`Session`].
pub struct SessionView {
    pub title: Seq<char>,
    pub command: Seq<char>,
    pub args: Seq<Seq<char>>,
    pub state: LifecycleView,
}

impl View for Session {
    type V = SessionView;

    open spec fn view(&self) -> SessionView {
        SessionView {
            title: self.title@,
            command: self.command@,
            args: Seq::new(self.args@.len(), |i: int| self.args@[i]@),
            state: self.state@,
        }
    }
}

/// What the session is told when no pseudo-terminal can be had.
pub open spec fn allocation_reason() -> Seq<char> {
    "openpty failed"@
}

/// Why `command` could not be started, given the system's message.
pub open spec fn spawn_reason(command: Seq<char>, detail: Seq<char>) -> Seq<char> {
    "Failed to spawn "@ + command + ": "@ + detail
}

/// The line of text that tells the consumer why no child runs.
pub open spec fn error_line(reason: Seq<char>) -> Seq<char> {
    "Error: "@ + reason + "\n"@
}

/// The two events that end a session that never ran: the reason as a line of
/// text, then the final event.
pub open spec fn failure_events(reason: Seq<char>) -> Seq<ActionView> {
    seq![
        ActionView::Emit { event: EventView::Output { text: error_line(reason) } },
        ActionView::Emit { event: EventView::Finished { success: false } },
    ]
}

/// The cleanup of a running session, ending in its final event: the shared
/// state is cleared, the master descriptor is closed, which ends the output
/// relay, both relays are joined, and only then the consumer is told.
pub open spec fn cleanup_actions(master: i32, success: bool) -> Seq<ActionView> {
    seq![
        ActionView::ClearTarget,
        ActionView::CloseInput,
        ActionView::CloseDescriptor { fd: master },
        ActionView::JoinOutputRelay,
        ActionView::JoinInputRelay,
        ActionView::Emit { event: EventView::Finished { success } },
    ]
}

/// The supervisor's rule: what the session `s` becomes on the notice `n`, and
/// the actions that follow, in order.  A notice that the current state does
/// not expect changes nothing and asks for nothing.
pub open spec fn react(s: SessionView, n: NoticeView) -> (SessionView, Seq<ActionView>) {
    match (s.state, n) {
        (LifecycleView::Spawning { pty: None }, NoticeView::PtyAllocated { pty }) => (
            SessionView { state: LifecycleView::Spawning { pty: Some(pty) }, ..s },
            seq![ActionView::Spawn { slave: pty.slave }],
        ),
        (LifecycleView::Spawning { pty: None }, NoticeView::PtyUnavailable) => (
            SessionView { state: LifecycleView::Failed { reason: allocation_reason() }, ..s },
            failure_events(allocation_reason()),
        ),
        (LifecycleView::Spawning { pty: Some(pty) }, NoticeView::Spawned { pid }) => (
            SessionView {
                state: LifecycleView::Running { master: pty.master, child: pid, input_open: true },
                ..s
            },
            seq![
                ActionView::CloseDescriptor { fd: pty.slave },
                ActionView::Emit { event: EventView::Started { title: s.title } },
                ActionView::StartRelays { master: pty.master },
                ActionView::AwaitExit { pid },
            ],
        ),
        (LifecycleView::Spawning { pty: Some(pty) }, NoticeView::SpawnFailed { detail }) => (
            SessionView {
                state: LifecycleView::Failed { reason: spawn_reason(s.command, detail) },
                ..s
            },
            seq![
                ActionView::CloseDescriptor { fd: pty.slave },
                ActionView::CloseDescriptor { fd: pty.master },
            ] + failure_events(spawn_reason(s.command, detail)),
        ),
        (LifecycleView::Running { master, .. }, NoticeView::ChildExited { status }) => (
            SessionView { state: LifecycleView::Finished { success: exit_success(status) }, ..s },
            cleanup_actions(master, exit_success(status)),
        ),
        (LifecycleView::Running { master, .. }, NoticeView::ChildUnreachable) => (
            SessionView { state: LifecycleView::Finished { success: false }, ..s },
            cleanup_actions(master, false),
        ),
        (LifecycleView::Running { input_open: true, .. }, NoticeView::Input { line }) => (
            s,
            seq![ActionView::QueueInput { line }],
        ),
        (LifecycleView::Running { master, child, .. }, NoticeView::Cancel) => (
            SessionView {
                state: LifecycleView::Running { master, child, input_open: false },
                ..s
            },
            seq![ActionView::Terminate { pid: child }, ActionView::CloseInput],
        ),
        _ => (s, Seq::empty()),
    }
}

impl Session {
    /// A session that is requested and not yet started.
    pub fn new(title: String, command: String, args: Vec<String>) -> (r: Session)
        ensures
            r.title == title,
            r.command == command,
            r.args == args,
            r.state@ == (LifecycleView::Spawning { pty: None }),
    {
        Session { title, command, args, state: Lifecycle::Spawning { pty: None } }
    }

    /// Takes one notice: moves the session to its next state and returns the
    /// actions to perform, in order.
    pub fn step(&mut self, notice: Notice) -> (actions: Vec<Action>)
        ensures
            final(self)@ == react(old(self)@, notice@).0,
            action_views(actions@) == react(old(self)@, notice@).1,
    {
        let mut actions: Vec<Action> = Vec::new();
        match notice {
            Notice::PtyAllocated { pty } => {
                if let Lifecycle::Spawning { pty: None } = self.state {
                    self.state = Lifecycle::Spawning { pty: Some(pty) };
                    actions.push(Action::Spawn { slave: pty.slave });
                }
            },
            Notice::PtyUnavailable => {
                if let Lifecycle::Spawning { pty: None } = self.state {
                    let reason = String::from_str("openpty failed");
                    push_failure(&mut actions, &reason);
                    self.state = Lifecycle::Failed { reason };
                }
            },
            Notice::Spawned { pid } => {
                if let Lifecycle::Spawning { pty: Some(pty) } = self.state {
                    self.state =
                    Lifecycle::Running { master: pty.master, child: pid, input_open: true };
                    actions.push(Action::CloseDescriptor { fd: pty.slave });
                    actions.push(
                        Action::Emit { event: SessionEvent::Started { title: self.title.clone() } },
                    );
                    actions.push(Action::StartRelays { master: pty.master });
                    actions.push(Action::AwaitExit { pid });
                }
            },
            Notice::SpawnFailed { detail } => {
                if let Lifecycle::Spawning { pty: Some(pty) } = self.state {
                    let mut reason = String::from_str("Failed to spawn ");
                    reason.append(self.command.as_str());
                    reason.append(": ");
                    reason.append(detail.as_str());
                    actions.push(Action::CloseDescriptor { fd: pty.slave });
                    actions.push(Action::CloseDescriptor { fd: pty.master });
                    push_failure(&mut actions, &reason);
                    self.state = Lifecycle::Failed { reason };
                }
            },
            Notice::ChildExited { status } => {
                if let Lifecycle::Running { master, .. } = self.state {
                    let success = exit_succeeded(status);
                    push_cleanup(&mut actions, master, success);
                    self.state = Lifecycle::Finished { success };
                }
            },
            Notice::ChildUnreachable => {
                if let Lifecycle::Running { master, .. } = self.state {
                    push_cleanup(&mut actions, master, false);
                    self.state = Lifecycle::Finished { success: false };
                }
            },
            Notice::Input { line } => {
                if let Lifecycle::Running { input_open: true, .. } = self.state {
                    actions.push(Action::QueueInput { line });
                }
            },
            Notice::Cancel => {
                if let Lifecycle::Running { master, child, .. } = self.state {
                    self.state = Lifecycle::Running { master, child, input_open: false };
                    actions.push(Action::Terminate { pid: child });
                    actions.push(Action::CloseInput);
                }
            },
        }
        actions
    }
}

/// Asks for the two events that end a session that never ran.
fn push_failure(actions: &mut Vec<Action>, reason: &String)
    ensures
        action_views(final(actions)@) == action_views(old(actions)@) + failure_events(reason@),
{
    let mut text = String::from_str("Error: ");
    text.append(reason.as_str());
    text.append("\n");
    actions.push(Action::Emit { event: SessionEvent::Output { text } });
    actions.push(Action::Emit { event: SessionEvent::Finished { success: false } });
}

/// Asks for the cleanup of a running session and its final event.
fn push_cleanup(actions: &mut Vec<Action>, master: i32, success: bool)
    ensures
        action_views(final(actions)@) == action_views(old(actions)@) + cleanup_actions(
            master,
            success,
        ),
{
    actions.push(Action::ClearTarget);
    actions.push(Action::CloseInput);
    actions.push(Action::CloseDescriptor { fd: master });
    actions.push(Action::JoinOutputRelay);
    actions.push(Action::JoinInputRelay);
    actions.push(Action::Emit { event: SessionEvent::Finished { success } });
}

} // verus!

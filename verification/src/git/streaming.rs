use vstd::prelude::*;

use crate::git::models::{
    GitCommandHandle, GitError, GitErrorView, GitStreamEvent, GitStreamEventKind,
    GitStreamEventView,
};
use crate::git::util::{sanitize_arg, sanitized};

verus! {

/// The name under which the events of streaming invocations are published.
pub const STREAM_EVENT: &'static str = "git://stream";

/// Where a streaming invocation stands.
#[derive(Debug, Clone, Copy, PartialEq, Eq, Structural)]
pub enum StreamState {
    /// The process is being started.
    Spawning,
    /// The process runs and its output is passed on.
    Running,
    /// The process has exited.
    Completed,
    /// The process could not be started.
    SpawnFailed,
    /// An output pipe of the process broke.
    Failed,
}

impl StreamState {
    /// Whether nothing more is published in this state.
    pub open spec fn is_terminal(self) -> bool {
        self is Completed || self is SpawnFailed || self is Failed
    }

    /// Whether nothing more is published in this state.
    pub fn terminal(&self) -> (r: bool)
        ensures
            r == self.is_terminal(),
    {
        match self {
            StreamState::Spawning => false,
            StreamState::Running => false,
            StreamState::Completed => true,
            StreamState::SpawnFailed => true,
            StreamState::Failed => true,
        }
    }
}

/// What the owner of the process reports of it.
#[derive(Debug)]
pub enum ProcessEvent {
    /// The process was started.
    Spawned,
    /// The process could not be started; the text says why.
    SpawnFailed(String),
    /// One line of standard output.
    Stdout(String),
    /// One line of standard error.
    Stderr(String),
    /// The process exited, with this code if it has one.
    Terminated(Option<i32>),
    /// An output pipe broke; the text says how.
    Error(String),
    /// Anything else.
    Other,
}

/// The mathematical value of a `ProcessEvent`.
pub enum ProcessEventView {
    Spawned,
    SpawnFailed(Seq<char>),
    Stdout(Seq<char>),
    Stderr(Seq<char>),
    Terminated(Option<i32>),
    Error(Seq<char>),
    Other,
}

impl DeepView for ProcessEvent {
    type V = ProcessEventView;

    open spec fn deep_view(&self) -> ProcessEventView {
        match self {
            ProcessEvent::Spawned => ProcessEventView::Spawned,
            ProcessEvent::SpawnFailed(m) => ProcessEventView::SpawnFailed(m@),
            ProcessEvent::Stdout(l) => ProcessEventView::Stdout(l@),
            ProcessEvent::Stderr(l) => ProcessEventView::Stderr(l@),
            ProcessEvent::Terminated(c) => ProcessEventView::Terminated(*c),
            ProcessEvent::Error(m) => ProcessEventView::Error(m@),
            ProcessEvent::Other => ProcessEventView::Other,
        }
    }
}

/// An event that carries text.
pub open spec fn text_event(id: Seq<char>, kind: GitStreamEventKind, text: Seq<char>)
    -> GitStreamEventView {
    GitStreamEventView { command_id: id, kind, data: Some(text), exit_code: None, success: None }
}

/// The event that closes an invocation whose process exited: it succeeded
/// exactly where the exit code is zero.
pub open spec fn completed_event(id: Seq<char>, code: Option<i32>) -> GitStreamEventView {
    GitStreamEventView {
        command_id: id,
        kind: GitStreamEventKind::Completed,
        data: None,
        exit_code: code,
        success: Some(code == Some(0i32)),
    }
}

/// The state after a report.
pub open spec fn next_state(state: StreamState, event: ProcessEventView) -> StreamState {
    match (state, event) {
        (StreamState::Spawning, ProcessEventView::Spawned) => StreamState::Running,
        (StreamState::Spawning, ProcessEventView::SpawnFailed(_)) => StreamState::SpawnFailed,
        (StreamState::Running, ProcessEventView::Terminated(_)) => StreamState::Completed,
        (StreamState::Running, ProcessEventView::Error(_)) => StreamState::Failed,
        _ => state,
    }
}

/// The event that a report makes the invocation `id` publish, if any.
pub open spec fn published(id: Seq<char>, state: StreamState, event: ProcessEventView) -> Option<
    GitStreamEventView,
> {
    match (state, event) {
        (StreamState::Spawning, ProcessEventView::SpawnFailed(m)) => Some(
            text_event(id, GitStreamEventKind::Error, m),
        ),
        (StreamState::Running, ProcessEventView::Stdout(l)) => Some(
            text_event(id, GitStreamEventKind::Stdout, l),
        ),
        (StreamState::Running, ProcessEventView::Stderr(l)) => Some(
            text_event(id, GitStreamEventKind::Stderr, l),
        ),
        (StreamState::Running, ProcessEventView::Terminated(c)) => Some(completed_event(id, c)),
        (StreamState::Running, ProcessEventView::Error(m)) => Some(
            text_event(id, GitStreamEventKind::Error, m),
        ),
        _ => None,
    }
}

/// The state that the reports lead to from `state`.
pub open spec fn state_after(state: StreamState, events: Seq<ProcessEventView>) -> StreamState
    decreases events.len(),
{
    if events.len() == 0 {
        state
    } else {
        state_after(next_state(state, events[0]), events.drop_first())
    }
}

/// The events that the invocation `id` publishes for the reports, from
/// `state` on.
pub open spec fn trace(id: Seq<char>, state: StreamState, events: Seq<ProcessEventView>) -> Seq<
    GitStreamEventView,
>
    decreases events.len(),
{
    if events.len() == 0 {
        Seq::empty()
    } else {
        let rest = trace(id, next_state(state, events[0]), events.drop_first());
        match published(id, state, events[0]) {
            Some(e) => seq![e] + rest,
            None => rest,
        }
    }
}

/// Computes the state after a report.
pub fn advance(state: StreamState, event: &ProcessEvent) -> (r: StreamState)
    ensures
        r == next_state(state, event.deep_view()),
{
    match (state, event) {
        (StreamState::Spawning, ProcessEvent::Spawned) => StreamState::Running,
        (StreamState::Spawning, ProcessEvent::SpawnFailed(_)) => StreamState::SpawnFailed,
        (StreamState::Running, ProcessEvent::Terminated(_)) => StreamState::Completed,
        (StreamState::Running, ProcessEvent::Error(_)) => StreamState::Failed,
        _ => state,
    }
}

/// Whether an event closes its invocation.
pub open spec fn closes(e: GitStreamEventView) -> bool {
    e.kind == GitStreamEventKind::Completed || e.kind == GitStreamEventKind::Error
}

/// What one report leads to.
#[derive(Debug)]
pub struct StreamStep {
    /// The event to publish, if any.
    pub event: Option<GitStreamEvent>,
    /// The cleanup handles to release now.
    pub release: Vec<tempfile::TempPath>,
}

/// One streaming invocation: its correlation id, where it stands, and the
/// cleanup handles of its credentials.
#[derive(Debug)]
pub struct StreamRunner {
    command_id: String,
    state: StreamState,
    cleanup: Vec<tempfile::TempPath>,
}

impl StreamRunner {
    #[verifier::type_invariant]
    spec fn released_when_closed(self) -> bool {
        self.state.is_terminal() ==> self.cleanup@.len() == 0
    }

    /// The correlation id of the invocation.
    pub closed spec fn id(&self) -> Seq<char> {
        self.command_id@
    }

    /// Where the invocation stands.
    pub closed spec fn state(&self) -> StreamState {
        self.state
    }

    /// The cleanup handles that are not released yet.
    pub closed spec fn held(&self) -> Seq<tempfile::TempPath> {
        self.cleanup@
    }

    /// An invocation whose process is being started.
    pub fn new(command_id: String, cleanup: Vec<tempfile::TempPath>) -> (r: Self)
        ensures
            r.id() == command_id@,
            r.state() == StreamState::Spawning,
            r.held() == cleanup@,
    {
        StreamRunner { command_id, state: StreamState::Spawning, cleanup }
    }

    /// The handle that is given to the caller at once.
    pub fn handle(&self) -> (r: GitCommandHandle)
        ensures
            r.command_id@ == self.id(),
    {
        GitCommandHandle { command_id: self.command_id.clone() }
    }

    /// Where the invocation stands.
    pub fn current_state(&self) -> (r: StreamState)
        ensures
            r == self.state(),
    {
        self.state
    }

    /// Takes one report of the process: says what to publish, and hands out
    /// the cleanup handles with the event that closes the invocation, not
    /// before and not again.
    pub fn step(&mut self, event: ProcessEvent) -> (r: StreamStep)
        ensures
            final(self).id() == old(self).id(),
            final(self).state() == next_state(old(self).state(), event.deep_view()),
            r.event.deep_view() == published(old(self).id(), old(self).state(), event.deep_view()),
            final(self).state().is_terminal() ==> final(self).held().len() == 0,
            final(self).state().is_terminal() && !old(self).state().is_terminal() ==> r.release@
                == old(self).held(),
            !final(self).state().is_terminal() ==> r.release@.len() == 0 && final(self).held()
                == old(self).held(),
            old(self).state().is_terminal() ==> r.release@.len() == 0 && final(self).held()
                == old(self).held(),
    {
        proof {
            use_type_invariant(&*self);
        }
        let before = self.state;
        let after = advance(before, &event);
        let published: Option<GitStreamEvent> = match (before, event) {
            (StreamState::Spawning, ProcessEvent::SpawnFailed(message)) => Some(
                self.text(GitStreamEventKind::Error, message),
            ),
            (StreamState::Running, ProcessEvent::Stdout(line)) => Some(
                self.text(GitStreamEventKind::Stdout, line),
            ),
            (StreamState::Running, ProcessEvent::Stderr(line)) => Some(
                self.text(GitStreamEventKind::Stderr, line),
            ),
            (StreamState::Running, ProcessEvent::Terminated(code)) => {
                let success = match code {
                    Some(c) => c == 0,
                    None => false,
                };
                Some(
                    GitStreamEvent {
                        command_id: self.command_id.clone(),
                        kind: GitStreamEventKind::Completed,
                        data: None,
                        exit_code: code,
                        success: Some(success),
                    },
                )
            },
            (StreamState::Running, ProcessEvent::Error(message)) => Some(
                self.text(GitStreamEventKind::Error, message),
            ),
            _ => None,
        };
        let mut release: Vec<tempfile::TempPath> = Vec::new();
        if after.terminal() && !before.terminal() {
            core::mem::swap(&mut self.cleanup, &mut release);
        }
        self.state = after;
        StreamStep { event: published, release }
    }

    /// An event of this invocation that carries text.
    fn text(&self, kind: GitStreamEventKind, text: String) -> (r: GitStreamEvent)
        ensures
            r.deep_view() == text_event(self.id(), kind, text@),
    {
        GitStreamEvent {
            command_id: self.command_id.clone(),
            kind,
            data: Some(text),
            exit_code: None,
            success: None,
        }
    }
}

/// The correlation id of an invocation for which `requested` was asked and
/// `fresh` was generated: the requested one where there is one.
pub fn choose_command_id(requested: Option<String>, fresh: String) -> (r: String)
    ensures
        r@ == match requested {
            Some(id) => id@,
            None => fresh@,
        },
{
    match requested {
        Some(id) => id,
        None => fresh,
    }
}

/// Whether `c` is a decimal digit or one of the small letters `a` to `f`.
pub open spec fn is_small_hex(c: char) -> bool {
    0x30 <= c as u32 <= 0x39 || 0x61 <= c as u32 <= 0x66
}

/// Whether `s` has the hyphenated form of an identifier: 36 characters, of
/// which the ninth, the fourteenth, the nineteenth and the twenty-fourth
/// are hyphens and the others are hexadecimal digits in small letters.
pub open spec fn is_hyphenated_id(s: Seq<char>) -> bool {
    s.len() == 36 && forall|i: int|
        0 <= i < 36 ==> if i == 8 || i == 13 || i == 18 || i == 23 {
            #[trigger] s[i] == '-'
        } else {
            is_small_hex(s[i])
        }
}

/// A random identifier as text, from `uuid::Uuid::new_v4` and its
/// `to_string`. Which identifier it is stays open; the text is claimed to
/// have the hyphenated form, which is how that type writes itself.
#[verifier::external_body]
fn fresh_command_id() -> (r: String)
    ensures
        is_hyphenated_id(r@),
{
    uuid::Uuid::new_v4().to_string()
}

/// The correlation id of an invocation: the requested one, or a freshly
/// generated one in hyphenated form where none was asked for.
pub fn command_id_or_fresh(requested: Option<String>) -> (r: String)
    ensures
        requested is Some ==> r@ == requested->0@,
        requested is None ==> is_hyphenated_id(r@),
{
    match requested {
        Some(id) => id,
        None => fresh_command_id(),
    }
}

/// The arguments of a streaming command: the base arguments, then the
/// remote and the branch where they are given, each checked.
pub open spec fn stream_arguments(
    base: Seq<Seq<char>>,
    remote: Option<Seq<char>>,
    branch: Option<Seq<char>>,
) -> Result<Seq<Seq<char>>, GitErrorView> {
    let with_remote = match remote {
        Some(r) => match sanitized(r, "remote"@) {
            Ok(v) => Ok(base.push(v)),
            Err(e) => Err(e),
        },
        None => Ok(base),
    };
    match with_remote {
        Ok(args) => match branch {
            Some(b) => match sanitized(b, "branch"@) {
                Ok(v) => Ok(args.push(v)),
                Err(e) => Err(e),
            },
            None => Ok(args),
        },
        Err(e) => Err(e),
    }
}

/// Builds the arguments of a streaming command.
pub fn stream_args(base: Vec<String>, remote: &Option<String>, branch: &Option<String>) -> (r:
    Result<Vec<String>, GitError>)
    ensures
        match r {
            Ok(args) => stream_arguments(base.deep_view(), remote.deep_view(), branch.deep_view())
                == Ok::<Seq<Seq<char>>, GitErrorView>(args.deep_view()),
            Err(e) => stream_arguments(base.deep_view(), remote.deep_view(), branch.deep_view())
                == Err::<Seq<Seq<char>>, GitErrorView>(e.deep_view()),
        },
{
    let mut args = base;
    match remote {
        Some(name) => {
            match sanitize_arg(name.as_str(), "remote") {
                Ok(v) => {
                    let ghost before = args.deep_view();
                    args.push(v);
                    assert(args.deep_view() =~= before.push(v@));
                },
                Err(e) => {
                    return Err(e);
                },
            }
        },
        None => {},
    }
    match branch {
        Some(name) => {
            match sanitize_arg(name.as_str(), "branch") {
                Ok(v) => {
                    let ghost before = args.deep_view();
                    args.push(v);
                    assert(args.deep_view() =~= before.push(v@));
                },
                Err(e) => {
                    return Err(e);
                },
            }
        },
        None => {},
    }
    Ok(args)
}

/// After the event that closes it an invocation publishes nothing and
/// stays as it is.
pub proof fn lemma_closed_is_silent(id: Seq<char>, state: StreamState, events: Seq<ProcessEventView>)
    requires
        state.is_terminal(),
    ensures
        trace(id, state, events) == Seq::<GitStreamEventView>::empty(),
        state_after(state, events) == state,
    decreases events.len(),
{
    if events.len() > 0 {
        lemma_closed_is_silent(id, state, events.drop_first());
    }
}

/// Every published event carries the id of its invocation. At most one
/// event closes the invocation, and it is the last one; there is one exactly
/// where the invocation has come to an end.
pub proof fn lemma_one_closing_event(id: Seq<char>, state: StreamState, events: Seq<ProcessEventView>)
    requires
        !state.is_terminal(),
    ensures
        forall|i: int|
            0 <= i < trace(id, state, events).len() ==> (#[trigger] trace(
                id,
                state,
                events,
            )[i]).command_id == id,
        forall|i: int|
            0 <= i < trace(id, state, events).len() - 1 ==> !closes(
                #[trigger] trace(id, state, events)[i],
            ),
        state_after(state, events).is_terminal() <==> trace(id, state, events).len() > 0 && closes(
            trace(id, state, events).last(),
        ),
    decreases events.len(),
{
    if events.len() > 0 {
        let next = next_state(state, events[0]);
        let rest = trace(id, next, events.drop_first());
        if next.is_terminal() {
            lemma_closed_is_silent(id, next, events.drop_first());
            let e = published(id, state, events[0])->0;
            assert(trace(id, state, events) =~= seq![e]);
        } else {
            lemma_one_closing_event(id, next, events.drop_first());
            match published(id, state, events[0]) {
                Some(e) => {
                    let t = trace(id, state, events);
                    assert(t == seq![e] + rest);
                    assert(!closes(e));
                    assert forall|i: int| 0 <= i < t.len() implies (#[trigger] t[i]).command_id
                        == id by {
                        if i > 0 {
                            assert(t[i] == rest[i - 1]);
                        }
                    }
                    assert forall|i: int| 0 <= i < t.len() - 1 implies !closes(#[trigger] t[i]) by {
                        if i > 0 {
                            assert(t[i] == rest[i - 1]);
                        }
                    }
                    if rest.len() > 0 {
                        assert(t.last() == rest.last());
                    }
                },
                None => {},
            }
        }
    }
}

/// An invocation whose process cannot be started publishes one error event
/// with the reason, and nothing else, whatever is reported afterwards.
pub proof fn lemma_spawn_failure_publishes_one_error(
    id: Seq<char>,
    reason: Seq<char>,
    later: Seq<ProcessEventView>,
)
    ensures
        trace(id, StreamState::Spawning, seq![ProcessEventView::SpawnFailed(reason)] + later)
            == seq![text_event(id, GitStreamEventKind::Error, reason)],
        state_after(StreamState::Spawning, seq![ProcessEventView::SpawnFailed(reason)] + later)
            == StreamState::SpawnFailed,
{
    let events = seq![ProcessEventView::SpawnFailed(reason)] + later;
    assert(events.drop_first() =~= later);
    lemma_closed_is_silent(id, StreamState::SpawnFailed, later);
    assert(trace(id, StreamState::Spawning, events) =~= seq![
        text_event(id, GitStreamEventKind::Error, reason),
    ]);
}

/// Whether a report is a line of output.
pub open spec fn is_output(e: ProcessEventView) -> bool {
    e is Stdout || e is Stderr
}

/// The event that passes a line of output on.
pub open spec fn output_event(id: Seq<char>, e: ProcessEventView) -> GitStreamEventView {
    match e {
        ProcessEventView::Stderr(l) => text_event(id, GitStreamEventKind::Stderr, l),
        ProcessEventView::Stdout(l) => text_event(id, GitStreamEventKind::Stdout, l),
        _ => text_event(id, GitStreamEventKind::Stdout, Seq::empty()),
    }
}

/// The events that pass lines of output on, one for each line.
pub open spec fn output_events(id: Seq<char>, lines: Seq<ProcessEventView>) -> Seq<
    GitStreamEventView,
> {
    Seq::new(lines.len(), |i: int| output_event(id, lines[i]))
}

/// While it runs an invocation passes every line of output on, in order.
pub proof fn lemma_running_passes_output(
    id: Seq<char>,
    lines: Seq<ProcessEventView>,
    later: Seq<ProcessEventView>,
)
    requires
        forall|i: int| 0 <= i < lines.len() ==> is_output(#[trigger] lines[i]),
    ensures
        trace(id, StreamState::Running, lines + later) == output_events(id, lines) + trace(
            id,
            StreamState::Running,
            later,
        ),
        state_after(StreamState::Running, lines + later) == state_after(
            StreamState::Running,
            later,
        ),
    decreases lines.len(),
{
    if lines.len() == 0 {
        assert(lines + later =~= later);
        assert(output_events(id, lines) + trace(id, StreamState::Running, later) =~= trace(
            id,
            StreamState::Running,
            later,
        ));
    } else {
        let all = lines + later;
        assert(all[0] == lines[0]);
        assert(all.drop_first() =~= lines.drop_first() + later);
        assert forall|i: int| 0 <= i < lines.drop_first().len() implies is_output(
            #[trigger] lines.drop_first()[i],
        ) by {
            assert(lines.drop_first()[i] == lines[i + 1]);
        }
        lemma_running_passes_output(id, lines.drop_first(), later);
        assert(output_events(id, lines) =~= seq![output_event(id, lines[0])] + output_events(
            id,
            lines.drop_first(),
        ));
        assert(trace(id, StreamState::Running, all) =~= output_events(id, lines) + trace(
            id,
            StreamState::Running,
            later,
        ));
    }
}

/// An invocation whose process starts, writes lines of output and exits
/// with code zero publishes one event for each line, in order, and then one
/// completion event with that code and the success flag set; nothing
/// follows, whatever is reported afterwards.
pub proof fn lemma_clean_exit_publishes_one_completion(
    id: Seq<char>,
    lines: Seq<ProcessEventView>,
    later: Seq<ProcessEventView>,
)
    requires
        forall|i: int| 0 <= i < lines.len() ==> is_output(#[trigger] lines[i]),
    ensures
        trace(
            id,
            StreamState::Spawning,
            seq![ProcessEventView::Spawned] + lines + seq![
                ProcessEventView::Terminated(Some(0i32)),
            ] + later,
        ) == output_events(id, lines) + seq![completed_event(id, Some(0i32))],
        completed_event(id, Some(0i32)).success == Some(true),
        completed_event(id, Some(0i32)).exit_code == Some(0i32),
        state_after(
            StreamState::Spawning,
            seq![ProcessEventView::Spawned] + lines + seq![
                ProcessEventView::Terminated(Some(0i32)),
            ] + later,
        ) == StreamState::Completed,
{
    let end = seq![ProcessEventView::Terminated(Some(0i32))] + later;
    let events = seq![ProcessEventView::Spawned] + lines + seq![
        ProcessEventView::Terminated(Some(0i32)),
    ] + later;
    assert(events.drop_first() =~= lines + end);
    assert(events[0] == ProcessEventView::Spawned);
    lemma_running_passes_output(id, lines, end);
    assert(end.drop_first() =~= later);
    lemma_closed_is_silent(id, StreamState::Completed, later);
    assert(trace(id, StreamState::Running, end) =~= seq![completed_event(id, Some(0i32))]);
}

} // verus!

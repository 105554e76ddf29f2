//! The lifecycle of a recording session, as a state machine.
//!
//! The caller performs what each step asks for (create the capture source,
//! stage a chunk, commit, close) and reports back what happened.
use vstd::prelude::*;
use crate::audio::AudioFormatInfo;
use crate::capture::AudioDataMessage;
use crate::staging::encoded;
use crate::wave::{
    encode_check, file_bytes, le_value, lemma_fields_read_back, lemma_file_layout, EncodeError,
};

verus! {

/// Where a recording session stands.
#[derive(Clone, Copy, Debug, PartialEq, Eq, Structural)]
pub enum Phase {
    /// Nothing has happened yet.
    Idle,
    /// The capture source is being created.
    Negotiating,
    /// Chunks are taken from the capture side and staged.
    Running,
    /// The session was told to stop; what was staged is being committed.
    Draining,
    /// The destination file is written and the scratch file is gone.
    Done,
    /// The session failed.
    Aborted,
}

/// What happened since the last step.
#[derive(Debug)]
pub enum SessionEvent {
    /// The session is asked to start.
    Start,
    /// The capture source was created and its format negotiated.
    SourceReady,
    /// The capture source could not be created.
    SourceFailed,
    /// The capture side sent a message.
    Received(AudioDataMessage),
    /// The capture side has nothing to hand over right now.
    NothingAvailable,
    /// The stop signal was seen.
    StopRequested,
    /// The scratch file could not be created or written.
    StagingFailed,
    /// The destination file was written.
    Committed,
    /// The destination file could not be written.
    CommitFailed,
}

/// What the caller has to do next.
#[derive(Debug)]
pub enum SessionAction {
    /// Create the capture source.
    Negotiate,
    /// Start the capture thread, open the staging writer and install the stop signal.
    Launch,
    /// Append this chunk to the scratch file.
    Stage(Vec<u8>),
    /// Look for the next message.
    Poll,
    /// Stop taking messages and commit what was staged.
    Commit,
    /// Close the staging writer; the session succeeded.
    Close,
    /// Close the staging writer and report the failure.
    CloseAndFail,
    /// Report the failure; nothing was written.
    Fail,
    /// The event has no meaning in this phase: do nothing.
    Ignore,
}

impl Phase {
    /// Whether the session has ended, one way or the other.
    pub open spec fn terminal(self) -> bool {
        self == Phase::Done || self == Phase::Aborted
    }

    /// Whether the session has ended, one way or the other.
    pub fn is_terminal(&self) -> (ended: bool)
        ensures
            ended == self.terminal(),
    {
        match self {
            Phase::Done | Phase::Aborted => true,
            _ => false,
        }
    }
}

/// The phase that follows `phase` on `event`.
pub open spec fn next_phase(phase: Phase, event: SessionEvent) -> Phase {
    match (phase, event) {
        (Phase::Idle, SessionEvent::Start) => Phase::Negotiating,
        (Phase::Negotiating, SessionEvent::SourceReady) => Phase::Running,
        (Phase::Negotiating, SessionEvent::SourceFailed) => Phase::Aborted,
        (Phase::Running, SessionEvent::Received(AudioDataMessage::Error(_))) => Phase::Draining,
        (Phase::Running, SessionEvent::StopRequested) => Phase::Draining,
        (Phase::Running, SessionEvent::StagingFailed) => Phase::Aborted,
        (Phase::Draining, SessionEvent::Committed) => Phase::Done,
        (Phase::Draining, SessionEvent::CommitFailed) => Phase::Aborted,
        _ => phase,
    }
}

/// What the caller is asked to do when `event` arrives in `phase`.
pub open spec fn action_for(phase: Phase, event: SessionEvent) -> SessionAction {
    match (phase, event) {
        (Phase::Idle, SessionEvent::Start) => SessionAction::Negotiate,
        (Phase::Negotiating, SessionEvent::SourceReady) => SessionAction::Launch,
        (Phase::Negotiating, SessionEvent::SourceFailed) => SessionAction::Fail,
        (Phase::Running, SessionEvent::Received(AudioDataMessage::AudioData(chunk))) => {
            SessionAction::Stage(chunk)
        },
        (Phase::Running, SessionEvent::Received(AudioDataMessage::Error(_))) => {
            SessionAction::Commit
        },
        (Phase::Running, SessionEvent::NothingAvailable) => SessionAction::Poll,
        (Phase::Running, SessionEvent::StopRequested) => SessionAction::Commit,
        (Phase::Running, SessionEvent::StagingFailed) => SessionAction::CloseAndFail,
        (Phase::Draining, SessionEvent::Committed) => SessionAction::Close,
        (Phase::Draining, SessionEvent::CommitFailed) => SessionAction::CloseAndFail,
        _ => SessionAction::Ignore,
    }
}

/// The bytes that go to the scratch file when `event` arrives in `phase`.
pub open spec fn staged_by(phase: Phase, event: SessionEvent) -> Seq<u8> {
    match action_for(phase, event) {
        SessionAction::Stage(chunk) => chunk@,
        _ => Seq::empty(),
    }
}

/// The phase reached from `phase` after `events`, in order.
pub open spec fn phase_after(phase: Phase, events: Seq<SessionEvent>) -> Phase
    decreases events.len(),
{
    if events.len() == 0 {
        phase
    } else {
        next_phase(phase_after(phase, events.drop_last()), events.last())
    }
}

/// Everything that went to the scratch file while `events` arrived, starting in `phase`.
pub open spec fn staged_after(phase: Phase, events: Seq<SessionEvent>) -> Seq<u8>
    decreases events.len(),
{
    if events.len() == 0 {
        Seq::empty()
    } else {
        staged_after(phase, events.drop_last()) + staged_by(
            phase_after(phase, events.drop_last()),
            events.last(),
        )
    }
}

/// What a look at the stop flag and at the channel amounts to.
pub open spec fn observed(keep_running: bool, message: Option<AudioDataMessage>) -> SessionEvent {
    if !keep_running {
        SessionEvent::StopRequested
    } else {
        match message {
            Some(m) => SessionEvent::Received(m),
            None => SessionEvent::NothingAvailable,
        }
    }
}

/// Turn a look at the stop flag and at the channel into an event.
///
/// The stop signal comes first: once the flag is down, whatever the channel still holds is left
/// where it is.
pub fn observe(keep_running: bool, message: Option<AudioDataMessage>) -> (event: SessionEvent)
    ensures
        event == observed(keep_running, message),
{
    if !keep_running {
        SessionEvent::StopRequested
    } else {
        match message {
            Some(m) => SessionEvent::Received(m),
            None => SessionEvent::NothingAvailable,
        }
    }
}

/// Take one step of the session: the next phase, and what the caller has to do.
pub fn step(phase: Phase, event: SessionEvent) -> (out: (Phase, SessionAction))
    ensures
        out.0 == next_phase(phase, event),
        out.1 == action_for(phase, event),
{
    match phase {
        Phase::Idle => match event {
            SessionEvent::Start => (Phase::Negotiating, SessionAction::Negotiate),
            _ => (phase, SessionAction::Ignore),
        },
        Phase::Negotiating => match event {
            SessionEvent::SourceReady => (Phase::Running, SessionAction::Launch),
            SessionEvent::SourceFailed => (Phase::Aborted, SessionAction::Fail),
            _ => (phase, SessionAction::Ignore),
        },
        Phase::Running => match event {
            SessionEvent::Received(AudioDataMessage::AudioData(chunk)) => (
                Phase::Running,
                SessionAction::Stage(chunk),
            ),
            SessionEvent::Received(AudioDataMessage::Error(_)) => (
                Phase::Draining,
                SessionAction::Commit,
            ),
            SessionEvent::NothingAvailable => (Phase::Running, SessionAction::Poll),
            SessionEvent::StopRequested => (Phase::Draining, SessionAction::Commit),
            SessionEvent::StagingFailed => (Phase::Aborted, SessionAction::CloseAndFail),
            _ => (phase, SessionAction::Ignore),
        },
        Phase::Draining => match event {
            SessionEvent::Committed => (Phase::Done, SessionAction::Close),
            SessionEvent::CommitFailed => (Phase::Aborted, SessionAction::CloseAndFail),
            _ => (phase, SessionAction::Ignore),
        },
        Phase::Done => (phase, SessionAction::Ignore),
        Phase::Aborted => (phase, SessionAction::Ignore),
    }
}

/// A session that has ended stays where it is and asks for nothing more.
pub proof fn lemma_terminal_is_final(phase: Phase, event: SessionEvent)
    requires
        phase.terminal(),
    ensures
        next_phase(phase, event) == phase,
        action_for(phase, event) == SessionAction::Ignore,
        staged_by(phase, event) == Seq::<u8>::empty(),
{
}

/// A session ends well only by a commit that succeeded, and is then asked to close the writer.
pub proof fn lemma_done_only_by_commit(phase: Phase, event: SessionEvent)
    requires
        phase != Phase::Done,
        next_phase(phase, event) == Phase::Done,
    ensures
        phase == Phase::Draining,
        event == SessionEvent::Committed,
        action_for(phase, event) == SessionAction::Close,
{
}

/// Both the stop signal and a capture error lead from running to a commit of what was staged:
/// a failure on the capture side discards nothing.
pub proof fn lemma_stop_and_error_commit(event: SessionEvent)
    requires
        event == SessionEvent::StopRequested || event matches SessionEvent::Received(
            AudioDataMessage::Error(_),
        ),
    ensures
        next_phase(Phase::Running, event) == Phase::Draining,
        action_for(Phase::Running, event) == SessionAction::Commit,
        staged_by(Phase::Running, event) == Seq::<u8>::empty(),
{
}

/// Once the staging writer is open, a session never ends without closing it.
pub proof fn lemma_writer_is_closed(phase: Phase, event: SessionEvent)
    requires
        phase == Phase::Running || phase == Phase::Draining,
        next_phase(phase, event).terminal(),
    ensures
        action_for(phase, event) == SessionAction::Close || action_for(phase, event)
            == SessionAction::CloseAndFail,
        action_for(phase, event) == SessionAction::Close <==> next_phase(phase, event)
            == Phase::Done,
{
}

/// Bytes are staged only while the session is running.
pub proof fn lemma_staged_only_while_running(phase: Phase, event: SessionEvent)
    requires
        phase != Phase::Running,
    ensures
        staged_by(phase, event) == Seq::<u8>::empty(),
        next_phase(phase, event) != Phase::Running || phase == Phase::Negotiating,
{
}

/// From the moment a session drains, whatever arrives adds nothing to the scratch file: the
/// commit sees exactly what was staged before.
pub proof fn lemma_nothing_staged_after_running(phase: Phase, events: Seq<SessionEvent>)
    requires
        phase == Phase::Draining || phase.terminal(),
    ensures
        staged_after(phase, events) == Seq::<u8>::empty(),
        phase_after(phase, events) != Phase::Running,
        phase_after(phase, events) != Phase::Idle,
        phase_after(phase, events) != Phase::Negotiating,
    decreases events.len(),
{
    if events.len() > 0 {
        lemma_nothing_staged_after_running(phase, events.drop_last());
    }
}

/// While a session runs and only chunks arrive, the scratch file holds the chunks in the order
/// in which they arrived, and the session keeps running.
pub proof fn lemma_chunks_are_staged_in_order(chunks: Seq<Vec<u8>>)
    ensures
        phase_after(Phase::Running, chunk_events(chunks)) == Phase::Running,
        staged_after(Phase::Running, chunk_events(chunks)) == chunk_bytes(chunks),
    decreases chunks.len(),
{
    let events = chunk_events(chunks);
    if chunks.len() > 0 {
        lemma_chunks_are_staged_in_order(chunks.drop_last());
        assert(events.drop_last() =~= chunk_events(chunks.drop_last()));
        assert(events.last() == SessionEvent::Received(
            AudioDataMessage::AudioData(chunks.last()),
        ));
    }
}

/// The events of `chunks` arriving one by one.
pub open spec fn chunk_events(chunks: Seq<Vec<u8>>) -> Seq<SessionEvent> {
    Seq::new(
        chunks.len(),
        |i: int| SessionEvent::Received(AudioDataMessage::AudioData(chunks[i])),
    )
}

/// The bytes of `chunks`, one chunk after the other.
pub open spec fn chunk_bytes(chunks: Seq<Vec<u8>>) -> Seq<u8>
    decreases chunks.len(),
{
    if chunks.len() == 0 {
        Seq::empty()
    } else {
        chunk_bytes(chunks.drop_last()) + chunks.last()@
    }
}

/// A running session that stages `chunks` and is then told to stop, by the stop signal or by a
/// capture error, drains with exactly the bytes of those chunks in the scratch file.
pub proof fn lemma_stopped_session_keeps_chunks(chunks: Seq<Vec<u8>>, stop: SessionEvent)
    requires
        stop == SessionEvent::StopRequested || stop matches SessionEvent::Received(
            AudioDataMessage::Error(_),
        ),
    ensures
        phase_after(Phase::Running, chunk_events(chunks).push(stop)) == Phase::Draining,
        staged_after(Phase::Running, chunk_events(chunks).push(stop)) == chunk_bytes(chunks),
{
    let events = chunk_events(chunks).push(stop);
    lemma_chunks_are_staged_in_order(chunks);
    assert(events.drop_last() =~= chunk_events(chunks));
    assert(events.last() == stop);
}

/// Chunks of whole frames add up to whole frames: what is committed never ends inside a frame.
pub proof fn lemma_whole_frames_add_up(chunks: Seq<Vec<u8>>, frame_len: nat)
    requires
        frame_len > 0,
        forall|i: int| 0 <= i < chunks.len() ==> (#[trigger] chunks[i])@.len() % frame_len == 0,
    ensures
        chunk_bytes(chunks).len() % frame_len == 0,
    decreases chunks.len(),
{
    if chunks.len() > 0 {
        let earlier = chunks.drop_last();
        assert forall|i: int| 0 <= i < earlier.len() implies (#[trigger] earlier[i])@.len()
            % frame_len == 0 by {
            assert(earlier[i] == chunks[i]);
        }
        lemma_whole_frames_add_up(earlier, frame_len);
        let head = chunk_bytes(earlier).len() as int;
        let tail = chunks.last()@.len() as int;
        assert(tail % (frame_len as int) == 0);
        vstd::arithmetic::div_mod::lemma_mod_adds(head, tail, frame_len as int);
        assert(chunk_bytes(chunks).len() == head + tail);
    } else {
        assert(chunk_bytes(chunks).len() == 0);
    }
}

/// From chunks to file: when a running session stages `chunks` and is then told to stop, by the
/// stop signal or by a capture error, committing the scratch file gives a file of 44 bytes and
/// the chunks' bytes, in order and unchanged, whose header reads back as the format in effect.
pub proof fn lemma_stopped_session_commits_its_chunks(
    format: AudioFormatInfo,
    chunks: Seq<Vec<u8>>,
    stop: SessionEvent,
)
    requires
        stop == SessionEvent::StopRequested || stop matches SessionEvent::Received(
            AudioDataMessage::Error(_),
        ),
        encode_check(format, chunk_bytes(chunks).len()) is Ok,
    ensures
        action_for(phase_after(Phase::Running, chunk_events(chunks)), stop)
            == SessionAction::Commit,
        encoded(format, staged_after(Phase::Running, chunk_events(chunks).push(stop))) == Ok::<
            Seq<u8>,
            EncodeError,
        >(file_bytes(format, chunk_bytes(chunks))),
        file_bytes(format, chunk_bytes(chunks)).len() == 44 + chunk_bytes(chunks).len(),
        file_bytes(format, chunk_bytes(chunks)).subrange(
            44,
            44 + chunk_bytes(chunks).len() as int,
        ) == chunk_bytes(chunks),
        le_value(file_bytes(format, chunk_bytes(chunks)).subrange(20, 22))
            == format.format.type_code(),
        le_value(file_bytes(format, chunk_bytes(chunks)).subrange(22, 24)) == format.num_channels,
        le_value(file_bytes(format, chunk_bytes(chunks)).subrange(24, 28)) == format.sample_rate,
        le_value(file_bytes(format, chunk_bytes(chunks)).subrange(34, 36)) == format.format.bits(),
        le_value(file_bytes(format, chunk_bytes(chunks)).subrange(40, 44)) == chunk_bytes(
            chunks,
        ).len(),
{
    lemma_chunks_are_staged_in_order(chunks);
    lemma_stopped_session_keeps_chunks(chunks, stop);
    lemma_file_layout(format, chunk_bytes(chunks));
    lemma_fields_read_back(format, chunk_bytes(chunks));
}

} // verus!

use vstd::prelude::*;

use crate::app::packet::{PacketKind, SessionId, Time, TimePhase, TimestampMicros};
use crate::app::queue::{counted, Window};
use crate::app::stream::{
    frames_of, played, render, samples_to_play, stream_task, BufferStart, Playback, Stream,
};
use crate::stats::Stats;
use crate::system::task::TaskBuilder;

pub mod consts;
pub mod packet;
pub mod protocol;
pub mod queue;
pub mod stream;
pub mod timing;

verus! {

/// Name of the task that receives packets.
pub const APP_TASK_NAME: &'static str = "bark::app";

/// Port of the multicast group that streams are sent to.
pub const MULTICAST_PORT: u16 = 1530;

/// Address of the multicast group that streams are sent to.
pub const MULTICAST_GROUP: [u8; 4] = [224, 100, 100, 100];

/// The task that receives packets, to be spawned when the network is up.
pub fn start() -> (task: TaskBuilder)
    ensures
        task == (TaskBuilder {
            name: APP_TASK_NAME,
            stack_bytes: crate::system::task::DEFAULT_STACK_SIZE,
            priority: crate::system::task::DEFAULT_PRIORITY,
            core: 0,
        }),
{
    crate::system::task::new(APP_TASK_NAME)
}

/// Nothing is torn down when the network goes away: the receiver keeps its
/// stream and waits.
pub fn stop() {
}

/// What the receiving task is to do about a packet beyond what the receiver
/// has done with it.
#[derive(Clone, Copy, Debug)]
pub enum Response {
    /// Nothing more.
    Nothing,
    /// The stream has buffered enough: spawn its playback task.
    StartPlayback(TaskBuilder),
    /// Send this time packet back to where the packet came from.
    SendTime(Time),
    /// The packet was of a kind the receiver has no use for.
    Unhandled,
}

/// Holds the stream of the latest session, if any.
pub struct Receiver {
    stream: Option<Stream>,
}

/// Whether a packet of session `sid` makes a new stream take the place of
/// the current one: there is none, or it belongs to an earlier session.
pub open spec fn supersedes(current: Option<Stream>, sid: SessionId) -> bool {
    match current {
        Some(stream) => stream.spec_sid().0 < sid.0,
        None => true,
    }
}

/// Whether `stream` is a stream for session `sid` that expects `seq` first
/// and has received nothing.
pub open spec fn fresh(stream: Stream, sid: SessionId, seq: u64) -> bool {
    &&& stream.wf()
    &&& stream.spec_sid() == sid
    &&& stream.window() == Window::empty(seq)
    &&& stream.start() == BufferStart::ReceivingPackets(0)
    &&& stream.timing().latest is None
}

impl Receiver {
    /// The current stream.
    pub closed spec fn stream(&self) -> Option<Stream> {
        self.stream
    }

    pub open spec fn wf(&self) -> bool {
        self.stream() is Some ==> self.stream()->Some_0.wf()
    }

    pub fn new() -> (receiver: Self)
        ensures
            receiver.wf(),
            receiver.stream() is None,
    {
        Receiver { stream: None }
    }

    /// The session of the current stream.
    pub fn session(&self) -> (sid: Option<SessionId>)
        ensures
            sid == match self.stream() {
                Some(stream) => Some(stream.spec_sid()),
                None => None,
            },
    {
        match &self.stream {
            Some(stream) => Some(stream.sid()),
            None => None,
        }
    }

    /// Whether the current stream has started to play.
    pub fn started(&self) -> (started: bool)
        ensures
            started == (self.stream() is Some && self.stream()->Some_0.start()
                == BufferStart::Started),
    {
        match &self.stream {
            Some(stream) => stream.started(),
            None => false,
        }
    }

    /// The sequence number of the next packet that the stream of session
    /// `sid` plays, if that is the current stream.
    pub fn head_seq(&self, sid: SessionId) -> (seq: Option<u64>)
        ensures
            seq == match self.stream() {
                Some(stream) => if stream.spec_sid() == sid {
                    Some(stream.window().head_seq)
                } else {
                    None
                },
                None => None,
            },
    {
        match &self.stream {
            Some(stream) => if stream.sid().0 == sid.0 {
                Some(stream.head_seq())
            } else {
                None
            },
            None => None,
        }
    }

    /// One round of the playback task of session `sid`. If the stream of
    /// that session is no longer the current one, the task is to end and
    /// nothing changes. Otherwise the next slot of the stream's jitter
    /// buffer is popped and rendered: a packet counts as a hit, a gap as a
    /// miss that plays as silence.
    pub fn run_stream(&mut self, sid: SessionId, stats: &mut Stats) -> (next: Playback)
        requires
            old(self).wf(),
            old(self).stream() matches Some(stream) ==> stream.window().head_seq < u64::MAX,
        ensures
            final(self).wf(),
            if old(self).stream() is Some && old(self).stream()->Some_0.spec_sid() == sid {
                let before = old(self).stream()->Some_0;
                &&& next is Write
                &&& next->Write_0@ == frames_of(samples_to_play(before.window().front()))
                &&& final(stats)@ == played(old(stats)@, before.window().front() is Some)
                &&& final(self).stream() is Some
                &&& final(self).stream()->Some_0.window() == before.window().pop()
                &&& final(self).stream()->Some_0.spec_sid() == sid
                &&& final(self).stream()->Some_0.start() == before.start()
                &&& final(self).stream()->Some_0.timing() == before.timing()
            } else {
                &&& next is Exit
                &&& final(self).stream() == old(self).stream()
                &&& final(stats)@ == old(stats)@
            },
    {
        match self.get_stream(sid) {
            Some(stream) => {
                let packet = stream.pop_front();
                Playback::Write(render(&packet, stats))
            },
            None => Playback::Exit,
        }
    }

    /// The current stream, if it belongs to session `sid`.
    fn get_stream(&mut self, sid: SessionId) -> (res: Option<&mut Stream>)
        ensures
            match res {
                Some(stream) => {
                    &&& old(self).stream == Some(*stream)
                    &&& stream.spec_sid() == sid
                    &&& final(self).stream == Some(*final(stream))
                },
                None => {
                    &&& !(old(self).stream is Some && old(self).stream->Some_0.spec_sid() == sid)
                    &&& final(self).stream == old(self).stream
                },
            },
    {
        match &mut self.stream {
            Some(stream) => {
                if stream.sid().0 == sid.0 {
                    Some(stream)
                } else {
                    None
                }
            },
            None => None,
        }
    }

    /// Resets current stream if necessary: a packet of a later session than
    /// the current one, or the first packet ever, makes a new stream that
    /// expects `seq` first. Hands out the stream of session `sid`, which is
    /// none if the current stream belongs to a later session.
    fn prepare_stream(&mut self, sid: SessionId, seq: u64) -> (res: Option<&mut Stream>)
        requires
            old(self).wf(),
        ensures
            match res {
                Some(stream) => {
                    &&& stream.wf()
                    &&& stream.spec_sid() == sid
                    &&& if supersedes(old(self).stream, sid) {
                        fresh(*stream, sid, seq)
                    } else {
                        old(self).stream == Some(*stream)
                    }
                    &&& final(self).stream == Some(*final(stream))
                },
                None => {
                    &&& old(self).stream is Some
                    &&& old(self).stream->Some_0.spec_sid().0 > sid.0
                    &&& final(self).stream == old(self).stream
                },
            },
    {
        let new_stream = match &self.stream {
            Some(stream) => stream.sid().0 < sid.0,
            None => true,
        };

        if new_stream {
            self.stream = Some(Stream::new(sid, seq));
        }
        self.get_stream(sid)
    }

    /// Takes in one packet, stamped with the time `now` of its arrival.
    ///
    /// An audio packet goes to the stream of its session, and what becomes
    /// of it at the jitter buffer is counted. A packet of a later session
    /// than the current one replaces the stream by a new one first; a packet
    /// of an earlier session is ignored and not counted. The answer says
    /// when the stream's playback task is to be spawned.
    ///
    /// A time packet that the stream has broadcast is stamped with `now`
    /// and is to be sent back. One that has come back from the stream goes
    /// to the stream of its session, if that is the current one. Any other
    /// time packet is ignored.
    pub fn receive(&mut self, packet: PacketKind, now: TimestampMicros, stats: &mut Stats) -> (response:
        Response)
        requires
            old(self).wf(),
        ensures
            final(self).wf(),
            packet matches PacketKind::Audio(audio) ==> {
                let sid = audio.spec_header().sid;
                if supersedes(old(self).stream(), sid) {
                    &&& final(self).stream() is Some
                    &&& final(self).stream()->Some_0.spec_sid() == sid
                    &&& final(self).stream()->Some_0.window() == Window::empty(
                        audio.spec_header().seq,
                    ).insert(audio)
                    &&& final(self).stream()->Some_0.start() == BufferStart::ReceivingPackets(
                        0,
                    ).step()
                    &&& final(self).stream()->Some_0.timing().latest is None
                    &&& final(stats)@ == counted(
                        old(stats)@,
                        Window::empty(audio.spec_header().seq).admission(audio.seq()),
                    )
                    &&& response is Nothing
                } else if old(self).stream()->Some_0.spec_sid() == sid {
                    let before = old(self).stream()->Some_0;
                    &&& final(self).stream() is Some
                    &&& final(self).stream()->Some_0.spec_sid() == sid
                    &&& final(self).stream()->Some_0.window() == before.window().insert(audio)
                    &&& final(self).stream()->Some_0.start() == before.start().step()
                    &&& final(self).stream()->Some_0.timing() == before.timing()
                    &&& final(stats)@ == counted(
                        old(stats)@,
                        before.window().admission(audio.seq()),
                    )
                    &&& if before.start().starts() {
                        response == Response::StartPlayback(stream_task())
                    } else {
                        response is Nothing
                    }
                } else {
                    &&& final(self).stream() == old(self).stream()
                    &&& final(stats)@ == old(stats)@
                    &&& response is Nothing
                }
            },
            !(packet is Audio) ==> final(stats)@ == old(stats)@,
            packet matches PacketKind::Time(time) ==> match time.phase {
                Some(TimePhase::Broadcast) => {
                    &&& final(self).stream() == old(self).stream()
                    &&& response == Response::SendTime(Time { receive_2: now, ..time })
                },
                Some(TimePhase::StreamReply) => {
                    &&& response is Nothing
                    &&& if old(self).stream() is Some && old(self).stream()->Some_0.spec_sid()
                        == time.sid {
                        let before = old(self).stream()->Some_0;
                        &&& final(self).stream() is Some
                        &&& final(self).stream()->Some_0.timing().latest == Some(time)
                        &&& final(self).stream()->Some_0.spec_sid() == before.spec_sid()
                        &&& final(self).stream()->Some_0.window() == before.window()
                        &&& final(self).stream()->Some_0.start() == before.start()
                    } else {
                        final(self).stream() == old(self).stream()
                    }
                },
                _ => final(self).stream() == old(self).stream() && response is Nothing,
            },
            packet is Other ==> final(self).stream() == old(self).stream() && response
                is Unhandled,
    {
        match packet {
            PacketKind::Audio(audio) => {
                let header = audio.header();
                let stream = self.prepare_stream(header.sid, header.seq);
                match stream {
                    Some(stream) => match stream.receive_audio(audio, stats) {
                        Some(task) => Response::StartPlayback(task),
                        None => Response::Nothing,
                    },
                    None => Response::Nothing,
                }
            },
            PacketKind::Time(time) => {
                match time.phase {
                    Some(TimePhase::Broadcast) => {
                        let mut reply = time;
                        reply.receive_2 = now;
                        Response::SendTime(reply)
                    },
                    Some(TimePhase::StreamReply) => {
                        match self.get_stream(time.sid) {
                            Some(stream) => {
                                stream.receive_time(time);
                            },
                            None => {},
                        }
                        Response::Nothing
                    },
                    _ => Response::Nothing,  /* invalid packet */
                }
            },
            PacketKind::Other => Response::Unhandled,
        }
    }
}

} // verus!

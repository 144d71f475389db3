//! Decisions of the per-session output pump. The pump itself (reading the
//! transport, sleeping, sending) runs outside; for each read outcome it asks
//! this module which notifications to send and whether to go on.
use vstd::prelude::*;
use vstd::utf8::{decode_utf8, encode_utf8, valid_utf8};
use crate::codec::{base64_encoded, encode_base64, utf8_string};
use crate::osc::{events_of, scan_from, strip_from, OscEvent, OscHandler, OscSequence};
use crate::protocol::{
    OutputNotification, SessionClipboardNotification, SessionCwdNotification,
    SessionStatusNotification, SessionTitleNotification,
};
use crate::status::SessionStatus;
use crate::text::owned;

verus! {

/// Settings of one pump.
#[derive(Debug, Clone, Copy, PartialEq, Eq)]
pub struct OutputReaderConfig {
    pub buffer_size: usize,
    pub read_timeout_ms: u64,
    pub enable_osc_processing: bool,
    pub max_clipboard_size: usize,
}

impl Default for OutputReaderConfig {
    /// 4 KiB reads, 100 ms timeout, OSC processing on, 1 MiB clipboard limit.
    fn default() -> (r: OutputReaderConfig)
        ensures
            r.buffer_size == 4096,
            r.read_timeout_ms == 100,
            r.enable_osc_processing,
            r.max_clipboard_size == 1048576,
    {
        OutputReaderConfig {
            buffer_size: 4096,
            read_timeout_ms: 100,
            enable_osc_processing: true,
            max_clipboard_size: 1048576,
        }
    }
}

impl OutputReaderConfig {
    /// The OSC handler a pump with this configuration uses, if OSC processing is on.
    pub fn osc_handler(&self) -> (r: Option<OscHandler>)
        ensures
            self.enable_osc_processing ==> r is Some && handler_cap(r) == self.max_clipboard_size,
            !self.enable_osc_processing ==> r is None,
    {
        if self.enable_osc_processing {
            Some(OscHandler::new().with_max_clipboard_size(self.max_clipboard_size))
        } else {
            None
        }
    }
}

/// A notification a pump sends.
#[derive(Debug, Clone)]
pub enum Notice {
    Output(OutputNotification),
    Status(SessionStatusNotification),
    Cwd(SessionCwdNotification),
    Title(SessionTitleNotification),
    Clipboard(SessionClipboardNotification),
}

/// A notification over plain values; the first field is the session id.
pub enum NoticeView {
    Output(Seq<char>, Seq<char>),
    Status(Seq<char>, SessionStatus, Option<i32>),
    Cwd(Seq<char>, Seq<char>),
    Title(Seq<char>, Seq<char>),
    Clipboard(Seq<char>, Seq<char>),
}

impl View for Notice {
    type V = NoticeView;

    open spec fn view(&self) -> NoticeView {
        match self {
            Notice::Output(n) => NoticeView::Output(n.session_id@, n.data@),
            Notice::Status(n) => NoticeView::Status(n.session_id@, n.status, n.exit_code),
            Notice::Cwd(n) => NoticeView::Cwd(n.session_id@, n.cwd@),
            Notice::Title(n) => NoticeView::Title(n.session_id@, n.title@),
            Notice::Clipboard(n) => NoticeView::Clipboard(n.session_id@, n.content@),
        }
    }
}

/// The method name a notification is sent under.
pub open spec fn notice_method(n: NoticeView) -> Seq<char> {
    match n {
        NoticeView::Output(..) => "terminal.output"@,
        NoticeView::Status(..) => "session.status"@,
        NoticeView::Cwd(..) => "session.cwd"@,
        NoticeView::Title(..) => "session.title"@,
        NoticeView::Clipboard(..) => "session.clipboard"@,
    }
}

impl Notice {
    /// The method name this notification is sent under.
    pub fn method(&self) -> (r: &'static str)
        ensures
            r@ == notice_method(self@),
    {
        match self {
            Notice::Output(_) => "terminal.output",
            Notice::Status(_) => "session.status",
            Notice::Cwd(_) => "session.cwd",
            Notice::Title(_) => "session.title",
            Notice::Clipboard(_) => "session.clipboard",
        }
    }
}

/// The notifications a list of OSC events gives rise to: one `session.cwd` per
/// working-directory event and one `session.clipboard` per clipboard event.
pub open spec fn event_notices(sid: Seq<char>, events: Seq<OscEvent>) -> Seq<NoticeView>
    decreases events.len(),
{
    if events.len() == 0 {
        Seq::empty()
    } else {
        let rest = event_notices(sid, events.drop_last());
        match events.last() {
            OscEvent::WorkingDirectory(p) => rest.push(NoticeView::Cwd(sid, p)),
            OscEvent::Clipboard(_, t) => rest.push(NoticeView::Clipboard(sid, t)),
            OscEvent::Unknown => rest,
        }
    }
}

/// The largest clipboard payload of an optional handler (none without one).
pub open spec fn handler_cap(osc: Option<OscHandler>) -> nat {
    match osc {
        Some(h) => h.cap(),
        None => 0,
    }
}

/// Whether a chunk goes through the OSC scanner: processing is on and the
/// chunk is well-formed UTF-8.
pub open spec fn scans(osc: Option<OscHandler>, data: Seq<u8>) -> bool {
    osc is Some && valid_utf8(data)
}

/// The bytes of a chunk that are forwarded as output.
pub open spec fn chunk_output(osc: Option<OscHandler>, data: Seq<u8>) -> Seq<u8> {
    if scans(osc, data) {
        encode_utf8(strip_from(decode_utf8(data), 0))
    } else {
        data
    }
}

/// The notifications for one non-empty chunk: an event notification per
/// recognised sequence, then `terminal.output` with the base64 of what remains,
/// if anything remains.
pub open spec fn chunk_notices(sid: Seq<char>, osc: Option<OscHandler>, data: Seq<u8>) -> Seq<NoticeView> {
    let events = if scans(osc, data) {
        event_notices(sid, events_of(scan_from(decode_utf8(data), 0, handler_cap(osc))))
    } else {
        Seq::empty()
    };
    let out = chunk_output(osc, data);
    if out.len() > 0 {
        events.push(NoticeView::Output(sid, base64_encoded(out)))
    } else {
        events
    }
}

/// What a read of the transport gave.
pub enum ReadOutcome {
    /// Bytes; none at all means the end of the stream.
    Data(Vec<u8>),
    /// Nothing available yet.
    WouldBlock,
    /// The read was interrupted.
    Interrupted,
    /// The read failed.
    Failed,
}

/// What the pump does next.
#[derive(Debug, Clone, Copy, PartialEq, Eq, Structural)]
pub enum PumpControl {
    Continue,
    SleepThenContinue,
    Exit,
}

/// The notifications for the end of a local session's output: done, exit code 0.
pub open spec fn eof_notice(sid: Seq<char>) -> NoticeView {
    NoticeView::Status(sid, SessionStatus::Done, Some(0))
}

/// The notification for a failed read: error, no exit code.
pub open spec fn failure_notice(sid: Seq<char>) -> NoticeView {
    NoticeView::Status(sid, SessionStatus::Error, None)
}

/// The views of a list of notifications.
pub open spec fn notice_views(v: Seq<Notice>) -> Seq<NoticeView> {
    v.map_values(|n: Notice| n@)
}

/// Appends the notifications of `sequences` to `out`.
fn push_event_notices(session_id: &str, sequences: Vec<OscSequence>, out: &mut Vec<Notice>)
    ensures
        notice_views(final(out)@) == notice_views(old(out)@) + event_notices(
            session_id@,
            sequences@.map_values(|x: OscSequence| x@),
        ),
{
    let ghost evs = sequences@.map_values(|x: OscSequence| x@);
    let ghost start = notice_views(out@);
    let mut i: usize = 0;
    while i < sequences.len()
        invariant
            i <= sequences@.len(),
            evs == sequences@.map_values(|x: OscSequence| x@),
            notice_views(out@) == start + event_notices(session_id@, evs.take(i as int)),
        decreases sequences.len() - i,
    {
        proof {
            assert(evs.take(i + 1).drop_last() =~= evs.take(i as int));
            assert(evs.take(i + 1).last() == sequences@[i as int]@);
        }
        let ghost before = out@;
        match &sequences[i] {
            OscSequence::WorkingDirectory(p) => {
                out.push(Notice::Cwd(SessionCwdNotification { session_id: owned(session_id), cwd: p.clone() }));
                assert(notice_views(out@) =~= notice_views(before).push(out@.last()@));
            },
            OscSequence::Clipboard(d) => {
                out.push(Notice::Clipboard(SessionClipboardNotification {
                    session_id: owned(session_id),
                    content: d.content.clone(),
                }));
                assert(notice_views(out@) =~= notice_views(before).push(out@.last()@));
            },
            OscSequence::Unknown => {},
        }
        i = i + 1;
    }
    assert(evs.take(sequences@.len() as int) =~= evs);
}

/// The notifications for one non-empty chunk read from the transport.
pub fn process_chunk(session_id: &str, osc: &Option<OscHandler>, data: &[u8]) -> (r: Vec<Notice>)
    ensures
        notice_views(r@) == chunk_notices(session_id@, *osc, data@),
{
    let mut out: Vec<Notice> = Vec::new();
    let encoded = match osc {
        Some(handler) => match utf8_string(data) {
            Some(text) => {
                let (stripped, sequences) = handler.strip_sequences(text.as_str());
                push_event_notices(session_id, sequences, &mut out);
                let bytes = stripped.as_str().as_bytes();
                if bytes.len() > 0 {
                    Some(encode_base64(bytes))
                } else {
                    None
                }
            },
            None => if data.len() > 0 {
                Some(encode_base64(data))
            } else {
                None
            },
        },
        None => if data.len() > 0 {
            Some(encode_base64(data))
        } else {
            None
        },
    };
    match encoded {
        Some(text) => {
            let ghost before = out@;
            out.push(Notice::Output(OutputNotification { session_id: owned(session_id), data: text }));
            assert(notice_views(out@) =~= notice_views(before).push(out@.last()@));
        },
        None => {},
    }
    proof {
        assert(notice_views(Seq::<Notice>::empty()) =~= Seq::<NoticeView>::empty());
    }
    out
}

/// The notifications and next step of a local pump for `outcome`.
pub open spec fn local_step(sid: Seq<char>, osc: Option<OscHandler>, outcome: ReadOutcome) -> (Seq<NoticeView>, PumpControl) {
    match outcome {
        ReadOutcome::Data(d) => if d@.len() > 0 {
            (chunk_notices(sid, osc, d@), PumpControl::Continue)
        } else {
            (seq![eof_notice(sid)], PumpControl::Exit)
        },
        ReadOutcome::WouldBlock => (Seq::empty(), PumpControl::SleepThenContinue),
        ReadOutcome::Interrupted => (Seq::empty(), PumpControl::Continue),
        ReadOutcome::Failed => (seq![failure_notice(sid)], PumpControl::Exit),
    }
}

/// One step of a local pump: the notifications to send for `outcome` and what
/// to do next. End of stream reports done with exit code 0 and stops; a failed
/// read reports error and stops; an unavailable read sleeps; an interrupted
/// read retries.
pub fn pump_step(session_id: &str, osc: &Option<OscHandler>, outcome: ReadOutcome) -> (r: (
    Vec<Notice>,
    PumpControl,
))
    ensures
        (notice_views(r.0@), r.1) == local_step(session_id@, *osc, outcome),
{
    match outcome {
        ReadOutcome::Data(d) => {
            if d.len() == 0 {
                let n = Notice::Status(SessionStatusNotification {
                    session_id: owned(session_id),
                    status: SessionStatus::Done,
                    exit_code: Some(0),
                });
                let v = vec![n];
                assert(notice_views(v@) =~= seq![eof_notice(session_id@)]);
                (v, PumpControl::Exit)
            } else {
                (process_chunk(session_id, osc, d.as_slice()), PumpControl::Continue)
            }
        },
        ReadOutcome::WouldBlock => {
            let v: Vec<Notice> = Vec::new();
            assert(notice_views(v@) =~= Seq::<NoticeView>::empty());
            (v, PumpControl::SleepThenContinue)
        },
        ReadOutcome::Interrupted => {
            let v: Vec<Notice> = Vec::new();
            assert(notice_views(v@) =~= Seq::<NoticeView>::empty());
            (v, PumpControl::Continue)
        },
        ReadOutcome::Failed => {
            let n = Notice::Status(SessionStatusNotification {
                session_id: owned(session_id),
                status: SessionStatus::Error,
                exit_code: None,
            });
            let v = vec![n];
            assert(notice_views(v@) =~= seq![failure_notice(session_id@)]);
            (v, PumpControl::Exit)
        },
    }
}

/// A message from an SSH session channel.
pub enum ChannelEvent {
    Data(Vec<u8>),
    ExtendedData(Vec<u8>),
    ExitStatus(u32),
    Eof,
    Close,
    Other,
    Disconnected,
}

/// The exit code reported for a remote exit status.
pub open spec fn exit_code_of(status: u32) -> i32 {
    status as i32
}

/// The notifications and next step of an SSH pump for `event`.
pub open spec fn channel_step(sid: Seq<char>, event: ChannelEvent) -> (Seq<NoticeView>, PumpControl) {
    match event {
        ChannelEvent::Data(d) => (seq![NoticeView::Output(sid, base64_encoded(d@))], PumpControl::Continue),
        ChannelEvent::ExtendedData(d) => (
            seq![NoticeView::Output(sid, base64_encoded(d@))],
            PumpControl::Continue,
        ),
        ChannelEvent::ExitStatus(s) => (
            seq![NoticeView::Status(sid, SessionStatus::Done, Some(exit_code_of(s)))],
            PumpControl::Exit,
        ),
        ChannelEvent::Other => (Seq::empty(), PumpControl::Continue),
        _ => (Seq::empty(), PumpControl::Exit),
    }
}

/// One step of an SSH pump. Data and stderr data are forwarded as output; an
/// exit status reports done with that code and stops; end of file, close and
/// disconnection stop without a report; anything else is skipped.
pub fn ssh_pump_step(session_id: &str, event: ChannelEvent) -> (r: (Vec<Notice>, PumpControl))
    ensures
        (notice_views(r.0@), r.1) == channel_step(session_id@, event),
{
    match event {
        ChannelEvent::Data(d) | ChannelEvent::ExtendedData(d) => {
            let n = Notice::Output(OutputNotification {
                session_id: owned(session_id),
                data: encode_base64(d.as_slice()),
            });
            let v = vec![n];
            assert(notice_views(v@) =~= seq![NoticeView::Output(session_id@, base64_encoded(d@))]);
            (v, PumpControl::Continue)
        },
        ChannelEvent::ExitStatus(s) => {
            #[verifier::truncate]
            let code = s as i32;
            let n = Notice::Status(SessionStatusNotification {
                session_id: owned(session_id),
                status: SessionStatus::Done,
                exit_code: Some(code),
            });
            let v = vec![n];
            assert(notice_views(v@) =~= seq![
                NoticeView::Status(session_id@, SessionStatus::Done, Some(exit_code_of(s))),
            ]);
            (v, PumpControl::Exit)
        },
        ChannelEvent::Eof | ChannelEvent::Close | ChannelEvent::Disconnected => {
            let v: Vec<Notice> = Vec::new();
            assert(notice_views(v@) =~= Seq::<NoticeView>::empty());
            (v, PumpControl::Exit)
        },
        ChannelEvent::Other => {
            let v: Vec<Notice> = Vec::new();
            assert(notice_views(v@) =~= Seq::<NoticeView>::empty());
            (v, PumpControl::Continue)
        },
    }
}

} // verus!

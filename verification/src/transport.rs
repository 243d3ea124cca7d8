//! The conversation between a transport session and the probe.
//!
//! A session never touches the device. It says in a [`Request`] what has to
//! be done next; whoever owns the device carries the request out and answers
//! with a [`Reply`]. This module holds those messages and the rules by which
//! a session goes from one to the next.

use crate::catalog::STLinkInfoView;
use crate::error::UsbError;
use crate::frame::{padded, CMD_LEN};
use vstd::prelude::*;

verus! {

/// The interface of the probe that carries the debug protocol.
pub const INTERFACE: u8 = 0;

/// The default timeout of a transfer, in milliseconds.
pub const TIMEOUT_MS: u64 = 1000;

/// How many stale bytes are read and thrown away when a session opens.
pub const DRAIN_LEN: usize = 1000;

/// How long the drain read waits for stale bytes, in milliseconds.
pub const DRAIN_TIMEOUT_MS: u64 = 10;

/// What a session asks the owner of the device to do.
#[derive(Debug, PartialEq, Eq)]
pub enum Request {
    /// Open the device and claim the interface.
    Claim { interface: u8 },
    /// Report the addresses of the endpoints of the first setting of the
    /// interface in the active configuration.
    Describe { interface: u8 },
    /// Release the interface and let go of the device.
    Release { interface: u8 },
    /// Send `data` to the endpoint in one bulk transfer.
    BulkOut { endpoint: u8, data: Vec<u8>, timeout_ms: u64 },
    /// Read up to `len` bytes from the endpoint in one bulk transfer.
    BulkIn { endpoint: u8, len: usize, timeout_ms: u64 },
}

/// The mathematical value of a [`Request`].
pub enum RequestView {
    Claim { interface: u8 },
    Describe { interface: u8 },
    Release { interface: u8 },
    BulkOut { endpoint: u8, data: Seq<u8>, timeout_ms: u64 },
    BulkIn { endpoint: u8, len: usize, timeout_ms: u64 },
}

impl View for Request {
    type V = RequestView;

    open spec fn view(&self) -> RequestView {
        match *self {
            Request::Claim { interface } => RequestView::Claim { interface },
            Request::Describe { interface } => RequestView::Describe { interface },
            Request::Release { interface } => RequestView::Release { interface },
            Request::BulkOut { endpoint, data, timeout_ms } => RequestView::BulkOut {
                endpoint,
                data: data@,
                timeout_ms,
            },
            Request::BulkIn { endpoint, len, timeout_ms } => RequestView::BulkIn {
                endpoint,
                len,
                timeout_ms,
            },
        }
    }
}

/// How a request ended.
#[derive(Debug, PartialEq, Eq)]
pub enum Reply {
    /// The interface is claimed.
    Claimed,
    /// The endpoint addresses that were asked for.
    Endpoints { addresses: Vec<u8> },
    /// The interface is released.
    Released,
    /// An outbound transfer moved `len` bytes.
    Sent { len: usize },
    /// An inbound transfer delivered `data`.
    Received { data: Vec<u8> },
    /// The request failed.
    Failed { error: UsbError },
}

/// The mathematical value of a [`Reply`].
pub enum ReplyView {
    Claimed,
    Endpoints { addresses: Seq<u8> },
    Released,
    Sent { len: usize },
    Received { data: Seq<u8> },
    Failed { error: UsbError },
}

impl View for Reply {
    type V = ReplyView;

    open spec fn view(&self) -> ReplyView {
        match *self {
            Reply::Claimed => ReplyView::Claimed,
            Reply::Endpoints { addresses } => ReplyView::Endpoints { addresses: addresses@ },
            Reply::Released => ReplyView::Released,
            Reply::Sent { len } => ReplyView::Sent { len },
            Reply::Received { data } => ReplyView::Received { data: data@ },
            Reply::Failed { error } => ReplyView::Failed { error },
        }
    }
}

/// Where an operation of a session stands.
#[derive(Debug, PartialEq, Eq)]
pub enum Progress {
    /// Carry the request out and hand its reply to the session.
    Perform(Request),
    /// The operation is over. Where it read something, these are the bytes.
    Done(Result<Vec<u8>, UsbError>),
}

/// The mathematical value of a [`Progress`].
pub enum ProgressView {
    Perform(RequestView),
    Done(Result<Seq<u8>, UsbError>),
}

impl View for Progress {
    type V = ProgressView;

    open spec fn view(&self) -> ProgressView {
        match *self {
            Progress::Perform(request) => ProgressView::Perform(request@),
            Progress::Done(Ok(bytes)) => ProgressView::Done(Ok(bytes@)),
            Progress::Done(Err(error)) => ProgressView::Done(Err(error)),
        }
    }
}

/// What a session is in the middle of.
#[derive(Clone, Copy, Debug, PartialEq, Eq, Structural)]
pub enum Stage {
    /// No interface is claimed.
    Closed,
    /// Opening: the interface is being claimed.
    Claiming,
    /// Opening: the endpoints of the claimed interface are being read.
    Describing,
    /// Opening: stale bytes are being drained.
    Draining,
    /// Opening has failed with `error`: the interface is being given back.
    Releasing { error: UsbError },
    /// Open, with nothing in flight.
    Idle,
    /// Closing: the interface is being released.
    Closing,
    /// A plain read of the response endpoint is in flight.
    Reading,
    /// Writing: the command frame is in flight.
    Command { read_len: usize, timeout_ms: u64 },
    /// Writing: the outbound data, `expected` bytes of it, is in flight.
    DataOut { expected: usize, read_len: usize, timeout_ms: u64 },
    /// Writing: the response of `expected` bytes is awaited.
    DataIn { expected: usize },
    /// A read of `expected` bytes of trace is in flight.
    Tracing { expected: usize },
}

/// The mathematical value of an [`STLinkUSBDevice`].
pub struct SessionView {
    /// The position of the device in the enumeration that found it.
    pub device: usize,
    /// The variant that the device was matched to.
    pub info: STLinkInfoView,
    pub stage: Stage,
    /// The outbound data of a write whose command frame is in flight.
    pub payload: Seq<u8>,
}

/// `session` at another stage.
pub open spec fn at(session: SessionView, stage: Stage) -> SessionView {
    SessionView { stage, ..session }
}

/// `session` open, with nothing in flight.
pub open spec fn idle(session: SessionView) -> SessionView {
    SessionView { stage: Stage::Idle, payload: Seq::empty(), ..session }
}

/// A finished operation that read nothing.
pub open spec fn done() -> ProgressView {
    ProgressView::Done(Ok(Seq::empty()))
}

/// A failed operation.
pub open spec fn failed(error: UsbError) -> ProgressView {
    ProgressView::Done(Err(error))
}

/// The error that a reply stands for where it is not the one that was
/// waited for: its own if it reports a failure, `Other` if it answers a
/// request that was never made.
pub open spec fn failure(reply: ReplyView) -> UsbError {
    match reply {
        ReplyView::Failed { error } => error,
        _ => UsbError::Other,
    }
}

/// Whether the three endpoints of `info` are among `addresses`.
pub open spec fn has_endpoints(info: STLinkInfoView, addresses: Seq<u8>) -> bool {
    addresses.contains(info.ep_out) && addresses.contains(info.ep_in) && addresses.contains(
        info.ep_swv,
    )
}

/// Why an operation cannot begin at `stage`, if it cannot.
pub open spec fn refusal(stage: Stage) -> Option<UsbError> {
    match stage {
        Stage::Idle => None,
        Stage::Closed => Some(UsbError::NotFound),
        _ => Some(UsbError::Busy),
    }
}

/// What follows the outbound data of a write, or its absence: the response
/// if one is expected, the end of the write otherwise.
pub open spec fn after_data_out(session: SessionView, read_len: usize, timeout_ms: u64) -> (
    SessionView,
    ProgressView,
) {
    if read_len > 0 {
        (
            SessionView {
                stage: Stage::DataIn { expected: read_len },
                payload: Seq::empty(),
                ..session
            },
            ProgressView::Perform(
                RequestView::BulkIn { endpoint: session.info.ep_in, len: read_len, timeout_ms },
            ),
        )
    } else {
        (idle(session), done())
    }
}

/// What follows the command frame of a write: the outbound data if there is
/// any, else what follows that.
pub open spec fn after_command(session: SessionView, read_len: usize, timeout_ms: u64) -> (
    SessionView,
    ProgressView,
) {
    if session.payload.len() > 0 {
        (
            SessionView {
                stage: Stage::DataOut {
                    expected: session.payload.len() as usize,
                    read_len,
                    timeout_ms,
                },
                payload: Seq::empty(),
                ..session
            },
            ProgressView::Perform(
                RequestView::BulkOut {
                    endpoint: session.info.ep_out,
                    data: session.payload,
                    timeout_ms,
                },
            ),
        )
    } else {
        after_data_out(session, read_len, timeout_ms)
    }
}

/// The session and the progress after `reply` has come in.
pub open spec fn step(session: SessionView, reply: ReplyView) -> (SessionView, ProgressView) {
    match session.stage {
        Stage::Closed | Stage::Idle => (session, failed(UsbError::InvalidParam)),
        Stage::Claiming => match reply {
            ReplyView::Claimed => (
                at(session, Stage::Describing),
                ProgressView::Perform(RequestView::Describe { interface: INTERFACE }),
            ),
            _ => (at(session, Stage::Closed), failed(failure(reply))),
        },
        Stage::Describing => match reply {
            ReplyView::Endpoints { addresses } if has_endpoints(session.info, addresses) => (
                at(session, Stage::Draining),
                ProgressView::Perform(
                    RequestView::BulkIn {
                        endpoint: session.info.ep_in,
                        len: DRAIN_LEN,
                        timeout_ms: DRAIN_TIMEOUT_MS,
                    },
                ),
            ),
            ReplyView::Endpoints { .. } => (
                at(session, Stage::Releasing { error: UsbError::NotFound }),
                ProgressView::Perform(RequestView::Release { interface: INTERFACE }),
            ),
            _ => (
                at(session, Stage::Releasing { error: failure(reply) }),
                ProgressView::Perform(RequestView::Release { interface: INTERFACE }),
            ),
        },
        Stage::Draining => match reply {
            ReplyView::Received { .. } | ReplyView::Failed { error: UsbError::Timeout } => (
                idle(session),
                done(),
            ),
            _ => (
                at(session, Stage::Releasing { error: failure(reply) }),
                ProgressView::Perform(RequestView::Release { interface: INTERFACE }),
            ),
        },
        Stage::Releasing { error } => (at(session, Stage::Closed), failed(error)),
        Stage::Closing => match reply {
            ReplyView::Released => (at(session, Stage::Closed), done()),
            _ => (idle(session), failed(failure(reply))),
        },
        Stage::Reading => match reply {
            ReplyView::Received { data } => (idle(session), ProgressView::Done(Ok(data))),
            _ => (idle(session), failed(failure(reply))),
        },
        Stage::Command { read_len, timeout_ms } => match reply {
            ReplyView::Sent { len } => if len == CMD_LEN {
                after_command(session, read_len, timeout_ms)
            } else {
                (idle(session), failed(UsbError::Io))
            },
            _ => (idle(session), failed(failure(reply))),
        },
        Stage::DataOut { expected, read_len, timeout_ms } => match reply {
            ReplyView::Sent { len } => if len == expected {
                after_data_out(session, read_len, timeout_ms)
            } else {
                (idle(session), failed(UsbError::Io))
            },
            _ => (idle(session), failed(failure(reply))),
        },
        Stage::DataIn { expected } | Stage::Tracing { expected } => match reply {
            ReplyView::Received { data } => if data.len() == expected {
                (idle(session), ProgressView::Done(Ok(data)))
            } else {
                (idle(session), failed(UsbError::Io))
            },
            _ => (idle(session), failed(failure(reply))),
        },
    }
}

/// A newly found probe: nothing claimed, nothing in flight.
pub open spec fn found(device: usize, info: STLinkInfoView) -> SessionView {
    SessionView { device, info, stage: Stage::Closed, payload: Seq::empty() }
}

/// The session and the progress after `open` has been asked for.
pub open spec fn begin_open(session: SessionView) -> (SessionView, ProgressView) {
    if session.stage == Stage::Closed {
        (
            at(session, Stage::Claiming),
            ProgressView::Perform(RequestView::Claim { interface: INTERFACE }),
        )
    } else {
        (session, failed(UsbError::Busy))
    }
}

/// The session and the progress after `close` has been asked for.
pub open spec fn begin_close(session: SessionView) -> (SessionView, ProgressView) {
    match refusal(session.stage) {
        Some(error) => (session, failed(error)),
        None => (
            at(session, Stage::Closing),
            ProgressView::Perform(RequestView::Release { interface: INTERFACE }),
        ),
    }
}

/// The session and the progress after `read` has been asked for.
pub open spec fn begin_read(session: SessionView, size: u16, timeout_ms: u64) -> (
    SessionView,
    ProgressView,
) {
    match refusal(session.stage) {
        Some(error) => (session, failed(error)),
        None => (
            at(session, Stage::Reading),
            ProgressView::Perform(
                RequestView::BulkIn {
                    endpoint: session.info.ep_in,
                    len: size as usize,
                    timeout_ms,
                },
            ),
        ),
    }
}

/// The session and the progress after `write` has been asked for.
pub open spec fn begin_write(
    session: SessionView,
    command: Seq<u8>,
    write_data: Seq<u8>,
    read_len: usize,
    timeout_ms: u64,
) -> (SessionView, ProgressView) {
    if command.len() > CMD_LEN {
        (session, failed(UsbError::InvalidParam))
    } else {
        match refusal(session.stage) {
            Some(error) => (session, failed(error)),
            None => (
                SessionView {
                    stage: Stage::Command { read_len, timeout_ms },
                    payload: write_data,
                    ..session
                },
                ProgressView::Perform(
                    RequestView::BulkOut {
                        endpoint: session.info.ep_out,
                        data: padded(command),
                        timeout_ms,
                    },
                ),
            ),
        }
    }
}

/// The session and the progress after `read_swv` has been asked for.
pub open spec fn begin_read_swv(session: SessionView, size: usize, timeout_ms: u64) -> (
    SessionView,
    ProgressView,
) {
    match refusal(session.stage) {
        Some(error) => (session, failed(error)),
        None => (
            at(session, Stage::Tracing { expected: size }),
            ProgressView::Perform(
                RequestView::BulkIn { endpoint: session.info.ep_swv, len: size, timeout_ms },
            ),
        ),
    }
}

/// Whether the interface is claimed and its endpoints are confirmed.
pub open spec fn is_open(stage: Stage) -> bool {
    match stage {
        Stage::Closed | Stage::Claiming | Stage::Describing | Stage::Draining | Stage::Releasing {
            ..
        } => false,
        _ => true,
    }
}

/// How many replies a session at `stage` waits for at most before its
/// operation is over, the one in flight included.
pub open spec fn pending(stage: Stage) -> nat {
    match stage {
        Stage::Closed | Stage::Idle => 0,
        Stage::Releasing { .. } | Stage::Closing | Stage::Reading | Stage::DataIn { .. }
        | Stage::Tracing { .. } => 1,
        Stage::Draining | Stage::DataOut { .. } => 2,
        Stage::Describing | Stage::Command { .. } => 3,
        Stage::Claiming => 4,
    }
}

/// What becomes of a session whose requests are answered by `replies`, one
/// after the other, until its operation is over or the replies run out: the
/// session at the end, the requests that it made, and where it stands.
pub open spec fn run(session: SessionView, progress: ProgressView, replies: Seq<ReplyView>) -> (
    SessionView,
    Seq<RequestView>,
    ProgressView,
)
    decreases replies.len(),
{
    match progress {
        ProgressView::Done(_) => (session, Seq::empty(), progress),
        ProgressView::Perform(request) => if replies.len() == 0 {
            (session, seq![request], progress)
        } else {
            let (next, then) = step(session, replies.first());
            let rest = run(next, then, replies.drop_first());
            (rest.0, seq![request] + rest.1, rest.2)
        },
    }
}

/// Whether `reply` reports a transfer of another length than the phase of a
/// write at `stage` fixes.
pub open spec fn falls_short(stage: Stage, reply: ReplyView) -> bool {
    match stage {
        Stage::Command { .. } => reply matches ReplyView::Sent { len } && len != CMD_LEN,
        Stage::DataOut { expected, .. } => reply matches ReplyView::Sent { len } && len
            != expected,
        Stage::DataIn { expected } => reply matches ReplyView::Received { data } && data.len()
            != expected,
        _ => false,
    }
}

/// The transfers of a write that nothing goes wrong with: the frame, the
/// outbound data if there is any, the response if one is expected.
pub open spec fn transfers(
    info: STLinkInfoView,
    command: Seq<u8>,
    write_data: Seq<u8>,
    read_len: usize,
    timeout_ms: u64,
) -> Seq<RequestView> {
    let frame = seq![
        RequestView::BulkOut { endpoint: info.ep_out, data: padded(command), timeout_ms },
    ];
    let outbound = if write_data.len() > 0 {
        seq![RequestView::BulkOut { endpoint: info.ep_out, data: write_data, timeout_ms }]
    } else {
        Seq::empty()
    };
    let inbound = if read_len > 0 {
        seq![RequestView::BulkIn { endpoint: info.ep_in, len: read_len, timeout_ms }]
    } else {
        Seq::empty()
    };
    frame + outbound + inbound
}

/// The replies of a probe that takes every transfer of a write in full and
/// answers with `response`.
pub open spec fn full_replies(write_data: Seq<u8>, read_len: usize, response: Seq<u8>) -> Seq<
    ReplyView,
> {
    let frame = seq![ReplyView::Sent { len: CMD_LEN }];
    let outbound = if write_data.len() > 0 {
        seq![ReplyView::Sent { len: write_data.len() as usize }]
    } else {
        Seq::empty()
    };
    let inbound = if read_len > 0 {
        seq![ReplyView::Received { data: response }]
    } else {
        Seq::empty()
    };
    frame + outbound + inbound
}

/// Every reply brings the operation in flight nearer to its end: a session
/// that asks for something more waits for fewer replies than before, and
/// one whose operation is over waits for none.
pub proof fn lemma_step_nears_the_end(session: SessionView, reply: ReplyView)
    ensures
        match step(session, reply).1 {
            ProgressView::Perform(_) => 0 < pending(step(session, reply).0.stage) < pending(
                session.stage,
            ),
            ProgressView::Done(_) => pending(step(session, reply).0.stage) == 0,
        },
{
}

/// An operation makes no more requests than its stage allows for, however
/// the probe answers.
pub proof fn lemma_run_is_bounded(session: SessionView, request: RequestView, replies: Seq<ReplyView>)
    requires
        pending(session.stage) > 0,
    ensures
        run(session, ProgressView::Perform(request), replies).1.len() <= pending(session.stage),
    decreases replies.len(),
{
    if replies.len() > 0 {
        let (next, then) = step(session, replies.first());
        let rest = run(next, then, replies.drop_first());
        assert(run(session, ProgressView::Perform(request), replies).1 == seq![request] + rest.1);
        lemma_step_nears_the_end(session, replies.first());
        match then {
            ProgressView::Perform(following) => {
                lemma_run_is_bounded(next, following, replies.drop_first());
            },
            ProgressView::Done(_) => {
                assert(rest.1.len() == 0);
            },
        }
    } else {
        assert(run(session, ProgressView::Perform(request), replies).1 == seq![request]);
    }
}

/// A command of at most sixteen bytes, given to an open session with nothing
/// in flight, goes out as one frame of exactly sixteen bytes on the command
/// endpoint: the command first, then zero bytes.
pub proof fn lemma_write_sends_the_frame(
    session: SessionView,
    command: Seq<u8>,
    write_data: Seq<u8>,
    read_len: usize,
    timeout_ms: u64,
)
    requires
        session.stage == Stage::Idle,
        command.len() <= CMD_LEN,
    ensures
        begin_write(session, command, write_data, read_len, timeout_ms).1 matches ProgressView::Perform(
            RequestView::BulkOut { endpoint, data, timeout_ms: limit },
        ) && {
            &&& endpoint == session.info.ep_out
            &&& limit == timeout_ms
            &&& data.len() == CMD_LEN
            &&& data.subrange(0, command.len() as int) == command
            &&& forall|i: int| command.len() <= i < CMD_LEN ==> data[i] == 0
        },
{
    crate::frame::lemma_padded_shape(command);
}

/// A command of more than sixteen bytes fails at once, whatever the session
/// is in the middle of: the session stays as it is and asks for nothing.
pub proof fn lemma_long_command_is_refused(
    session: SessionView,
    command: Seq<u8>,
    write_data: Seq<u8>,
    read_len: usize,
    timeout_ms: u64,
    replies: Seq<ReplyView>,
)
    requires
        command.len() > CMD_LEN,
    ensures
        begin_write(session, command, write_data, read_len, timeout_ms) == (
            session,
            failed(UsbError::InvalidParam),
        ),
        run(session, failed(UsbError::InvalidParam), replies).1 == Seq::<RequestView>::empty(),
{
}

/// In each of the three phases of a write, a transfer of another length than
/// the phase fixes ends the write with `Io`. The session stays open with
/// nothing in flight, and makes no further request whatever comes in.
pub proof fn lemma_short_transfer_ends_the_write(
    session: SessionView,
    reply: ReplyView,
    later: Seq<ReplyView>,
)
    requires
        falls_short(session.stage, reply),
    ensures
        step(session, reply) == (idle(session), failed(UsbError::Io)),
        run(idle(session), failed(UsbError::Io), later) == (
            idle(session),
            Seq::<RequestView>::empty(),
            failed(UsbError::Io),
        ),
        forall|next: ReplyView| #[trigger] step(idle(session), next).1 is Done,
{
}

/// A write that the probe takes in full makes its transfers in order, the
/// frame, the outbound data and the response, leaves out the phases that
/// have nothing to move, and ends with the response.
pub proof fn lemma_write_runs_its_phases(
    session: SessionView,
    command: Seq<u8>,
    write_data: Seq<u8>,
    response: Seq<u8>,
    timeout_ms: u64,
)
    requires
        session.stage == Stage::Idle,
        command.len() <= CMD_LEN,
        write_data.len() <= usize::MAX,
        response.len() <= usize::MAX,
    ensures
        ({
            let read_len = response.len() as usize;
            let begun = begin_write(session, command, write_data, read_len, timeout_ms);
            run(begun.0, begun.1, full_replies(write_data, read_len, response)) == (
                idle(session),
                transfers(session.info, command, write_data, read_len, timeout_ms),
                ProgressView::Done(Ok(response)),
            )
        }),
{
    reveal_with_fuel(run, 5);
    let read_len = response.len() as usize;
    let begun = begin_write(session, command, write_data, read_len, timeout_ms);
    let replies = full_replies(write_data, read_len, response);
    let end = run(begun.0, begun.1, replies);
    assert(end.1 =~= transfers(session.info, command, write_data, read_len, timeout_ms));
    if response.len() == 0 {
        assert(response =~= Seq::<u8>::empty());
    }
}

/// Where the interface lacks one of the three endpoints of the variant, the
/// session has the interface released and then fails with `NotFound`,
/// closed as it was before.
pub proof fn lemma_missing_endpoint_fails_open(
    session: SessionView,
    addresses: Seq<u8>,
    released: ReplyView,
)
    requires
        session.stage == Stage::Describing,
        !has_endpoints(session.info, addresses),
    ensures
        step(session, ReplyView::Endpoints { addresses }) == (
            at(session, Stage::Releasing { error: UsbError::NotFound }),
            ProgressView::Perform(RequestView::Release { interface: INTERFACE }),
        ),
        step(at(session, Stage::Releasing { error: UsbError::NotFound }), released) == (
            at(session, Stage::Closed),
            failed(UsbError::NotFound),
        ),
{
}

/// Whether the operation is over and has failed.
pub open spec fn has_failed(progress: ProgressView) -> bool {
    progress matches ProgressView::Done(Err(_))
}

/// A session is open only once the whole of `open` has gone well: while it
/// is being opened, and after any failure of it, the session is not open.
/// Where `open` fails after the interface was claimed, the last thing that
/// the session asks for is the release of the interface.
pub proof fn lemma_open_is_all_or_nothing(session: SessionView, replies: Seq<ReplyView>)
    requires
        session.stage == Stage::Closed,
    ensures
        ({
            let begun = begin_open(session);
            let end = run(begun.0, begun.1, replies);
            &&& is_open(end.0.stage) ==> end.2 == done() && end.0.stage == Stage::Idle
            &&& has_failed(end.2) ==> end.0.stage == Stage::Closed
            &&& has_failed(end.2) && replies.len() > 0 && replies[0] == ReplyView::Claimed
                ==> end.1.last() == (RequestView::Release { interface: INTERFACE })
        }),
{
    reveal_with_fuel(run, 6);
}

/// Closing a session that is not open fails with `NotFound`, and so does
/// closing it again once it has been closed.
pub proof fn lemma_close_needs_an_open_session(session: SessionView)
    ensures
        session.stage == Stage::Closed ==> begin_close(session) == (
            session,
            failed(UsbError::NotFound),
        ),
        session.stage == Stage::Idle ==> ({
            let closing = begin_close(session);
            let closed = step(closing.0, ReplyView::Released);
            &&& closing.1 == ProgressView::Perform(RequestView::Release { interface: INTERFACE })
            &&& closed.1 == done()
            &&& begin_close(closed.0) == (closed.0, failed(UsbError::NotFound))
        }),
{
}

/// No transfer begins on a session that is not open: `read`, `write` and
/// `read_swv` fail and ask for nothing.
pub proof fn lemma_transfers_need_an_open_session(
    session: SessionView,
    command: Seq<u8>,
    write_data: Seq<u8>,
    size: u16,
    len: usize,
    timeout_ms: u64,
)
    requires
        !is_open(session.stage),
    ensures
        begin_read(session, size, timeout_ms).1 matches ProgressView::Done(Err(_)),
        begin_write(session, command, write_data, len, timeout_ms).1 matches ProgressView::Done(
            Err(_),
        ),
        begin_read_swv(session, len, timeout_ms).1 matches ProgressView::Done(Err(_)),
        begin_read(session, size, timeout_ms).0 == session,
        begin_write(session, command, write_data, len, timeout_ms).0 == session,
        begin_read_swv(session, len, timeout_ms).0 == session,
{
}

} // verus!

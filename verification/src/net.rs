//! The HTTP service: its network configuration, the response it serves, and
//! the state machine that drives its single TCP connection.
//!
//! The caller owns the network interface and the socket. On every pass of its
//! polling loop it reports what it observes of the socket to an [`HttpServer`]
//! and carries out the action that comes back: listen, abort, send the
//! response, close.
use vstd::prelude::*;
use vstd::utf8::{encode_utf8, is_ascii_chars, is_ascii_chars_encode_utf8};

verus! {

/// Static IPv4 address of the guest, one octet per element.
pub const GUEST_IP: [u8; 4] = [10, 0, 2, 15];

/// Prefix length of the guest's subnet.
pub const GUEST_PREFIX_LEN: u8 = 24;

/// TCP port of the HTTP service.
pub const HTTP_PORT: u16 = 8080;

/// Number of descriptors in each virtio queue.
pub const QUEUE_SIZE: usize = 8;

/// Size of each Ethernet receive buffer.
pub const ETH_BUFFER_LEN: usize = 2048;

/// Size of the TCP socket's receive buffer and of its send buffer.
pub const SOCKET_BUFFER_LEN: usize = 1024;

/// Interval of TCP keep-alive probes, in seconds.
pub const HTTP_KEEP_ALIVE_SECS: u64 = 2;

/// Inactivity after which the TCP stack drops the connection, in seconds.
pub const HTTP_SOCKET_TIMEOUT_SECS: u64 = 10;

/// Time a client has, from the moment its connection is seen, to send its
/// request, in milliseconds.
pub const HTTP_REQUEST_TIMEOUT_MS: i64 = 5_000;

/// Maximum transmission unit announced by the network device.
pub const DEVICE_MTU: usize = 1500;

/// Number of frames the network device handles in one burst.
pub const DEVICE_MAX_BURST: usize = 1;

/// Size and alignment of a DMA page.
pub const DMA_PAGE_SIZE: usize = 4096;

// ---------------------------------------------------------------------------
// The response
// ---------------------------------------------------------------------------

/// The body served to every request.
pub open spec fn response_body() -> Seq<char> {
    "UniEdge is alive!\n"@
}

/// The decimal digit for `d`.
pub open spec fn decimal_digit(d: nat) -> char {
    if d == 0 {
        '0'
    } else if d == 1 {
        '1'
    } else if d == 2 {
        '2'
    } else if d == 3 {
        '3'
    } else if d == 4 {
        '4'
    } else if d == 5 {
        '5'
    } else if d == 6 {
        '6'
    } else if d == 7 {
        '7'
    } else if d == 8 {
        '8'
    } else {
        '9'
    }
}

/// `n` written in decimal, without leading zeros.
pub open spec fn decimal(n: nat) -> Seq<char>
    decreases n,
{
    if n < 10 {
        seq![decimal_digit(n)]
    } else {
        decimal(n / 10).push(decimal_digit(n % 10))
    }
}

/// A complete `200 OK` plain-text response carrying `body`, which closes the
/// connection and declares as `Content-Length` the number of bytes of the
/// UTF-8 encoding of `body`.
pub open spec fn http_response_for(body: Seq<char>) -> Seq<char> {
    "HTTP/1.1 200 OK\r\n"@ + "Content-Type: text/plain; charset=utf-8\r\n"@
        + "Connection: close\r\n"@ + "Content-Length: "@ + decimal(encode_utf8(body).len())
        + "\r\n"@ + "\r\n"@ + body
}

/// The response served to every request: [`http_response_for`] the fixed
/// [`response_body`]. It is plain ASCII, so its characters are its bytes.
pub fn http_response() -> (r: String)
    ensures
        r@ == http_response_for(response_body()),
        is_ascii_chars(r@),
{
    proof {
        reveal_strlit("UniEdge is alive!\n");
        reveal_strlit("18");
        reveal_strlit("HTTP/1.1 200 OK\r\n");
        reveal_strlit("Content-Type: text/plain; charset=utf-8\r\n");
        reveal_strlit("Connection: close\r\n");
        reveal_strlit("Content-Length: ");
        reveal_strlit("\r\n");
        assert(is_ascii_chars(response_body()));
        is_ascii_chars_encode_utf8(response_body());
        assert(decimal(1) =~= seq!['1']);
        assert(decimal(18) =~= decimal(1).push('8'));
        assert(decimal(18) =~= "18"@);
    }
    let mut r = String::from_str("HTTP/1.1 200 OK\r\n");
    r.append("Content-Type: text/plain; charset=utf-8\r\n");
    r.append("Connection: close\r\n");
    r.append("Content-Length: ");
    r.append("18");
    r.append("\r\n");
    r.append("\r\n");
    r.append("UniEdge is alive!\n");
    assert(r@ =~= http_response_for(response_body()));
    r
}

// ---------------------------------------------------------------------------
// DMA regions
// ---------------------------------------------------------------------------

/// Bytes of a DMA region of `pages` pages, when such a region can be laid
/// out: `pages * 4096`, provided it does not exceed `isize::MAX`; `None`
/// otherwise.
pub fn dma_region_bytes(pages: usize) -> (r: Option<usize>)
    ensures
        r == (if pages * DMA_PAGE_SIZE <= isize::MAX {
            Some((pages * DMA_PAGE_SIZE) as usize)
        } else {
            None::<usize>
        }),
{
    match pages.checked_mul(DMA_PAGE_SIZE) {
        Some(bytes) => {
            if bytes <= isize::MAX as usize {
                Some(bytes)
            } else {
                None
            }
        },
        None => None,
    }
}

// ---------------------------------------------------------------------------
// The connection state machine
// ---------------------------------------------------------------------------

/// What the server remembers about the current connection.
#[derive(Clone, Copy, Debug, PartialEq, Eq, Structural)]
pub struct ConnectionView {
    /// Request bytes have arrived on the connection.
    pub request_seen: bool,
    /// When the connection was first seen active, in milliseconds; `None`
    /// while no connection has been seen.
    pub connection_start_ms: Option<i64>,
}

/// The state with no connection: nothing received, no connection seen.
pub open spec fn idle() -> ConnectionView {
    ConnectionView { request_seen: false, connection_start_ms: None }
}

/// What the caller does after reporting the socket's activity.
#[derive(Clone, Copy, Debug, PartialEq, Eq, Structural)]
pub enum Activity {
    /// Nothing to do.
    Quiet,
    /// A new connection is active: report it.
    Connected,
    /// The client sent nothing in time: abort the connection and start over.
    TimedOut,
}

/// What a receive on the socket gave.
#[derive(Clone, Copy, Debug, PartialEq, Eq, Structural)]
pub enum Receive {
    /// This many bytes were taken from the receive buffer.
    Bytes(usize),
    /// The receive failed.
    Failed,
}

/// How the connection ends after the response.
#[derive(Clone, Copy, Debug, PartialEq, Eq, Structural)]
pub enum Finish {
    /// The response was queued: close the connection gracefully.
    Close,
    /// The response could not be queued: abort the connection.
    Abort,
}

/// Whether, at `now_ms`, the deadline for the request of a connection seen at
/// `start_ms` has passed.
pub open spec fn request_overdue(start_ms: i64, now_ms: i64) -> bool {
    now_ms - start_ms >= HTTP_REQUEST_TIMEOUT_MS
}

/// The socket's openness is reported: a socket that is not open makes the
/// server forget the connection and listen again.
pub open spec fn open_step(v: ConnectionView, is_open: bool) -> (ConnectionView, bool) {
    if is_open {
        (v, false)
    } else {
        (idle(), true)
    }
}

/// The socket's activity is reported at `now_ms`: an active socket not seen
/// before starts the request timer; an active socket whose request is overdue
/// is given up.
pub open spec fn activity_step(v: ConnectionView, is_active: bool, now_ms: i64) -> (
    ConnectionView,
    Activity,
) {
    if is_active && v.connection_start_ms is None {
        (ConnectionView { connection_start_ms: Some(now_ms), ..v }, Activity::Connected)
    } else if is_active && !v.request_seen && v.connection_start_ms is Some && request_overdue(
        v.connection_start_ms->0,
        now_ms,
    ) {
        (idle(), Activity::TimedOut)
    } else {
        (v, Activity::Quiet)
    }
}

/// The outcome of a receive is reported: bytes mark the request as seen; a
/// failure gives the connection up. The flag says whether to abort.
pub open spec fn receive_step(v: ConnectionView, received: Receive) -> (ConnectionView, bool) {
    match received {
        Receive::Bytes(n) => if n > 0 {
            (ConnectionView { request_seen: true, ..v }, false)
        } else {
            (v, false)
        },
        Receive::Failed => (idle(), true),
    }
}

/// Whether the response is to be sent now.
pub open spec fn respond_now(v: ConnectionView, can_send: bool) -> bool {
    v.request_seen && can_send
}

/// The outcome of sending the response is reported: either way the server
/// forgets the connection; it is closed if the response went out and aborted
/// otherwise.
pub open spec fn finish_step(v: ConnectionView, sent: bool) -> (ConnectionView, Finish) {
    (idle(), if sent {
        Finish::Close
    } else {
        Finish::Abort
    })
}

/// Drives the single HTTP connection.
pub struct HttpServer {
    request_seen: bool,
    announced_connection: bool,
    connection_start_ms: Option<i64>,
}

impl View for HttpServer {
    type V = ConnectionView;

    closed spec fn view(&self) -> ConnectionView {
        ConnectionView {
            request_seen: self.request_seen,
            connection_start_ms: self.connection_start_ms,
        }
    }
}

impl HttpServer {
    /// A connection is announced exactly when its start time is known.
    #[verifier::type_invariant]
    spec fn announced_iff_started(self) -> bool {
        self.announced_connection == self.connection_start_ms.is_some()
    }

    /// A server with no connection.
    pub fn new() -> (r: Self)
        ensures
            r@ == idle(),
    {
        HttpServer { request_seen: false, announced_connection: false, connection_start_ms: None }
    }

    fn reset(&mut self)
        ensures
            final(self)@ == idle(),
    {
        *self = HttpServer::new();
    }

    /// Reports whether the socket is open; returns whether to listen on
    /// [`HTTP_PORT`], which is the case exactly when it is not, and then the
    /// connection is forgotten.
    pub fn check_listening(&mut self, is_open: bool) -> (listen: bool)
        ensures
            (final(self)@, listen) == open_step(old(self)@, is_open),
    {
        if !is_open {
            self.reset();
            true
        } else {
            false
        }
    }

    /// Reports whether the socket is active at `now_ms`; returns what to do.
    pub fn observe_activity(&mut self, is_active: bool, now_ms: i64) -> (r: Activity)
        ensures
            (final(self)@, r) == activity_step(old(self)@, is_active, now_ms),
    {
        proof {
            use_type_invariant(&*self);
        }
        let mut r = Activity::Quiet;
        if is_active && !self.announced_connection {
            *self = HttpServer {
                request_seen: self.request_seen,
                announced_connection: true,
                connection_start_ms: Some(now_ms),
            };
            r = Activity::Connected;
        }
        if is_active && !self.request_seen {
            if let Some(start_ms) = self.connection_start_ms {
                let overdue = match now_ms.checked_sub(start_ms) {
                    Some(elapsed) => elapsed >= HTTP_REQUEST_TIMEOUT_MS,
                    None => now_ms > start_ms,
                };
                if overdue {
                    self.reset();
                    r = Activity::TimedOut;
                }
            }
        }
        r
    }

    /// Reports the outcome of a receive; returns whether to abort the
    /// connection.
    pub fn on_receive(&mut self, received: Receive) -> (abort: bool)
        ensures
            (final(self)@, abort) == receive_step(old(self)@, received),
    {
        proof {
            use_type_invariant(&*self);
        }
        match received {
            Receive::Bytes(n) => {
                if n > 0 {
                    *self = HttpServer {
                        request_seen: true,
                        announced_connection: self.announced_connection,
                        connection_start_ms: self.connection_start_ms,
                    };
                }
                false
            },
            Receive::Failed => {
                self.reset();
                true
            },
        }
    }

    /// Whether to send the response now: a request has been seen and the
    /// socket can take data.
    pub fn should_respond(&self, can_send: bool) -> (r: bool)
        ensures
            r == respond_now(self@, can_send),
    {
        self.request_seen && can_send
    }

    /// Reports whether the response was queued; returns how to end the
    /// connection.
    pub fn finish_response(&mut self, sent: bool) -> (r: Finish)
        ensures
            (final(self)@, r) == finish_step(old(self)@, sent),
    {
        self.reset();
        if sent {
            Finish::Close
        } else {
            Finish::Abort
        }
    }
}

} // verus!

verus! {

/// One report to the server, as seen from outside.
#[derive(Clone, Copy, Debug, PartialEq, Eq, Structural)]
pub enum ServerEvent {
    /// [`HttpServer::check_listening`] with this openness.
    Open(bool),
    /// [`HttpServer::observe_activity`] with this activity and time.
    Active(bool, i64),
    /// [`HttpServer::on_receive`] with this outcome.
    Received(Receive),
    /// [`HttpServer::finish_response`] with this outcome.
    Finished(bool),
}

/// The state after one report.
pub open spec fn server_step(v: ConnectionView, e: ServerEvent) -> ConnectionView {
    match e {
        ServerEvent::Open(is_open) => open_step(v, is_open).0,
        ServerEvent::Active(is_active, now_ms) => activity_step(v, is_active, now_ms).0,
        ServerEvent::Received(received) => receive_step(v, received).0,
        ServerEvent::Finished(sent) => finish_step(v, sent).0,
    }
}

/// The state after a sequence of reports, in order.
pub open spec fn server_run(v: ConnectionView, events: Seq<ServerEvent>) -> ConnectionView
    decreases events.len(),
{
    if events.len() == 0 {
        v
    } else {
        server_run(server_step(v, events[0]), events.drop_first())
    }
}

/// Whether the report delivers request bytes.
pub open spec fn delivers_request(e: ServerEvent) -> bool {
    match e {
        ServerEvent::Received(Receive::Bytes(n)) => n > 0,
        _ => false,
    }
}

/// No request, no response: from a state where no request bytes have been
/// seen, no sequence of reports that delivers no request bytes leads to a
/// state in which the response is sent.
pub proof fn no_response_without_request(
    v: ConnectionView,
    events: Seq<ServerEvent>,
    can_send: bool,
)
    requires
        !v.request_seen,
        forall|i: int| 0 <= i < events.len() ==> !delivers_request(#[trigger] events[i]),
    ensures
        !respond_now(server_run(v, events), can_send),
        !server_run(v, events).request_seen,
    decreases events.len(),
{
    if events.len() > 0 {
        let next = server_step(v, events[0]);
        assert(!delivers_request(events[0]));
        assert(!next.request_seen);
        assert forall|i: int| 0 <= i < events.drop_first().len() implies !delivers_request(
            #[trigger] events.drop_first()[i],
        ) by {
            assert(events.drop_first()[i] == events[i + 1]);
        }
        no_response_without_request(next, events.drop_first(), can_send);
    }
}

/// One response per request: once the outcome of a response has been
/// reported, the server sends no further response until new request bytes
/// arrive, whatever else is reported in between.
pub proof fn one_response_per_request(
    v: ConnectionView,
    sent: bool,
    events: Seq<ServerEvent>,
    can_send: bool,
)
    requires
        forall|i: int| 0 <= i < events.len() ==> !delivers_request(#[trigger] events[i]),
    ensures
        finish_step(v, sent).0 == idle(),
        !respond_now(server_run(finish_step(v, sent).0, events), can_send),
{
    no_response_without_request(finish_step(v, sent).0, events, can_send);
}

/// The socket is told to listen exactly when it is not open, and then the
/// server has forgotten everything about the previous connection; an open
/// socket changes nothing.
pub proof fn listen_exactly_when_closed(v: ConnectionView, is_open: bool)
    ensures
        open_step(v, is_open).1 == !is_open,
        !is_open ==> open_step(v, is_open).0 == (ConnectionView {
            request_seen: false,
            connection_start_ms: None,
        }),
        is_open ==> open_step(v, is_open).0 == v,
{
}

/// Receiving: a non-empty read marks the request as seen and keeps the
/// connection; an empty read changes nothing; a failed read aborts the
/// connection and forgets it.
pub proof fn receive_outcomes(v: ConnectionView, n: usize)
    ensures
        n > 0 ==> receive_step(v, Receive::Bytes(n)) == (ConnectionView {
            request_seen: true,
            connection_start_ms: v.connection_start_ms,
        }, false),
        n == 0 ==> receive_step(v, Receive::Bytes(n)) == (v, false),
        receive_step(v, Receive::Failed) == (ConnectionView {
            request_seen: false,
            connection_start_ms: None,
        }, true),
{
}

/// The response goes out only once a request has been seen and the socket
/// can take data; once it is reported, a response that was queued leads to a
/// graceful close, one that was not to an abort, and the connection is
/// forgotten either way.
pub proof fn response_then_close_or_abort(v: ConnectionView, can_send: bool, sent: bool)
    ensures
        respond_now(v, can_send) == (v.request_seen && can_send),
        finish_step(v, sent).1 == (if sent {
            Finish::Close
        } else {
            Finish::Abort
        }),
        finish_step(v, sent).0 == (ConnectionView { request_seen: false, connection_start_ms: None }),
{
}

/// Request deadline: a connection that is still active and has sent nothing
/// is given up exactly when at least [`HTTP_REQUEST_TIMEOUT_MS`] milliseconds
/// have passed since it was first seen, and the server is then idle again.
pub proof fn request_deadline_is_exact(v: ConnectionView, now_ms: i64)
    requires
        v.connection_start_ms is Some,
        !v.request_seen,
    ensures
        (activity_step(v, true, now_ms).1 == Activity::TimedOut) == (now_ms
            - v.connection_start_ms->0 >= HTTP_REQUEST_TIMEOUT_MS),
        activity_step(v, true, now_ms).1 == Activity::TimedOut ==> activity_step(
            v,
            true,
            now_ms,
        ).0 == idle(),
        activity_step(v, true, now_ms).1 != Activity::TimedOut ==> activity_step(
            v,
            true,
            now_ms,
        ).0 == v,
{
}

/// A connection is never given up in the report in which it is first seen:
/// its request timer starts at that moment.
pub proof fn new_connection_starts_timer(v: ConnectionView, now_ms: i64)
    requires
        v.connection_start_ms is None,
    ensures
        activity_step(v, true, now_ms).1 == Activity::Connected,
        activity_step(v, true, now_ms).0.connection_start_ms == Some(now_ms),
        activity_step(v, true, now_ms).0.request_seen == v.request_seen,
{
}

} // verus!

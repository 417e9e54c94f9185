use vstd::prelude::*;
use vstd::slice::slice_to_vec;
use crate::config::is_fake_random;
use crate::upstream::{
    missing_name_is_authorized, name_is_authorized, upstream_for, JlsServerConfig, ServerView, Upstream, UpstreamError,
    UpstreamView,
};

verus! {

/// Offset of the random field in an encoded ClientHello handshake message,
/// after the message type (1 byte), its length (3) and the legacy version (2).
pub const RANDOM_OFFSET: usize = 6;

/// Length of the random field.
pub const RANDOM_LEN: usize = 32;

/// Record content type of a handshake message.
pub const HANDSHAKE_CONTENT_TYPE: u8 = 22;

/// Capacity of the scratch buffer for bytes that arrive from the upstream.
pub const FORWARD_BUFFER_LEN: usize = 4096;

/// Largest payload that one record's 16-bit length can frame.
pub const MAX_RECORD_PAYLOAD: usize = 65535;

/// Where one PSK binder value lies in an encoded ClientHello.
#[derive(Clone, Copy, Debug, PartialEq, Eq)]
pub struct BinderSpan {
    pub start: usize,
    pub len: usize,
}

/// Whether byte `i` lies in one of the spans.
pub open spec fn in_span(spans: Seq<BinderSpan>, i: int) -> bool {
    exists|k: int| 0 <= k < spans.len() && #[trigger] spans[k].start <= i < spans[k].start + spans[k].len
}

/// Whether every span lies within a message of `n` bytes.
pub open spec fn spans_in_bounds(spans: Seq<BinderSpan>, n: int) -> bool {
    forall|k: int| 0 <= k < spans.len() ==> spans[k].start + spans[k].len <= n
}

/// Whether byte `i` lies in the random field.
pub open spec fn in_random(i: int) -> bool {
    RANDOM_OFFSET <= i < RANDOM_OFFSET + RANDOM_LEN
}

/// The message with every byte of the spans set to zero.
pub open spec fn binders_zeroed(msg: Seq<u8>, spans: Seq<BinderSpan>) -> Seq<u8> {
    Seq::new(msg.len(), |i: int| if in_span(spans, i) { 0u8 } else { msg[i] })
}

/// The authentication context of a ClientHello: the message with its random
/// field and its PSK binders set to zero.
pub open spec fn canonical_of(msg: Seq<u8>, spans: Seq<BinderSpan>) -> Seq<u8> {
    Seq::new(msg.len(), |i: int| if in_random(i) || in_span(spans, i) { 0u8 } else { msg[i] })
}

/// The client random carried by an encoded ClientHello.
pub open spec fn random_of(msg: Seq<u8>) -> Seq<u8> {
    msg.subrange(RANDOM_OFFSET as int, RANDOM_OFFSET + RANDOM_LEN)
}

/// A handshake message wrapped in a plaintext record of the given version.
pub open spec fn record_of(version: u16, msg: Seq<u8>) -> Seq<u8> {
    seq![
        HANDSHAKE_CONTENT_TYPE,
        (version / 256) as u8,
        (version % 256) as u8,
        (msg.len() / 256) as u8,
        (msg.len() % 256) as u8,
    ] + msg
}

/// Whether byte `i` lies in one of the spans.
fn span_covers(spans: &Vec<BinderSpan>, i: usize) -> (r: bool)
    ensures
        r == in_span(spans@, i as int),
{
    let mut k: usize = 0;
    while k < spans.len()
        invariant
            0 <= k <= spans@.len(),
            forall|j: int| 0 <= j < k ==> !(#[trigger] spans@[j].start <= i < spans@[j].start + spans@[j].len),
        decreases spans@.len() - k,
    {
        let s = spans[k];
        if s.start <= i && i - s.start < s.len {
            return true;
        }
        k = k + 1;
    }
    false
}

/// Fill zero in the PSK binders of an encoded ClientHello, keeping their lengths.
pub fn set_zero_psk_binders(msg: &mut Vec<u8>, binders: &Vec<BinderSpan>)
    ensures
        final(msg)@ == binders_zeroed(old(msg)@, binders@),
{
    let n = msg.len();
    let mut i: usize = 0;
    while i < n
        invariant
            n == msg@.len(),
            n == old(msg)@.len(),
            0 <= i <= n,
            forall|j: int| 0 <= j < i ==> msg@[j] == binders_zeroed(old(msg)@, binders@)[j],
            forall|j: int| i <= j < n ==> msg@[j] == old(msg)@[j],
        decreases n - i,
    {
        if span_covers(binders, i) {
            msg.set(i, 0u8);
        }
        i = i + 1;
    }
    assert(msg@ =~= binders_zeroed(old(msg)@, binders@));
}

/// The authentication context of an encoded ClientHello.
pub fn canonicalize(msg: &[u8], binders: &Vec<BinderSpan>) -> (r: Vec<u8>)
    requires
        msg@.len() >= RANDOM_OFFSET + RANDOM_LEN,
    ensures
        r@ == canonical_of(msg@, binders@),
{
    let mut out = slice_to_vec(msg);
    let mut i: usize = RANDOM_OFFSET;
    while i < RANDOM_OFFSET + RANDOM_LEN
        invariant
            out@.len() == msg@.len(),
            msg@.len() >= RANDOM_OFFSET + RANDOM_LEN,
            RANDOM_OFFSET <= i <= RANDOM_OFFSET + RANDOM_LEN,
            forall|j: int| 0 <= j < msg@.len() ==> out@[j] == if RANDOM_OFFSET <= j < i { 0u8 } else { msg@[j] },
        decreases RANDOM_OFFSET + RANDOM_LEN - i,
    {
        out.set(i, 0u8);
        i = i + 1;
    }
    set_zero_psk_binders(&mut out, binders);
    assert(out@ =~= canonical_of(msg@, binders@));
    out
}

/// The client random of an encoded ClientHello.
pub fn client_random(msg: &[u8]) -> (r: [u8; 32])
    requires
        msg@.len() >= RANDOM_OFFSET + RANDOM_LEN,
    ensures
        r@ == random_of(msg@),
{
    let mut r = [0u8; 32];
    let mut i: usize = 0;
    while i < RANDOM_LEN
        invariant
            msg@.len() >= RANDOM_OFFSET + RANDOM_LEN,
            0 <= i <= RANDOM_LEN,
            forall|j: int| 0 <= j < i ==> r@[j] == msg@[RANDOM_OFFSET + j],
        decreases RANDOM_LEN - i,
    {
        r[i] = msg[RANDOM_OFFSET + i];
        i = i + 1;
    }
    assert(r@ =~= random_of(msg@));
    r
}

/// An encoded handshake message wrapped in a plaintext handshake record.
pub fn frame_record(version: u16, msg: &[u8]) -> (r: Vec<u8>)
    requires
        msg@.len() <= MAX_RECORD_PAYLOAD,
    ensures
        r@ == record_of(version, msg@),
{
    let len = msg.len();
    let mut out: Vec<u8> = Vec::new();
    out.push(HANDSHAKE_CONTENT_TYPE);
    out.push((version / 256) as u8);
    out.push((version % 256) as u8);
    out.push((len / 256) as u8);
    out.push((len % 256) as u8);
    let mut i: usize = 0;
    while i < len
        invariant
            len == msg@.len(),
            0 <= i <= len,
            out@ =~= record_of(version, msg@).subrange(0, 5 + i as int),
        decreases len - i,
    {
        out.push(msg[i]);
        i = i + 1;
    }
    assert(out@ =~= record_of(version, msg@));
    out
}

/// A ClientHello as the handshake layer hands it over: the encoded handshake
/// message as received, where its PSK binders lie, the server name it
/// carries, and the version of the record that brought it.
pub struct ClientHelloMsg {
    pub bytes: Vec<u8>,
    pub binders: Vec<BinderSpan>,
    pub server_name: Option<String>,
    pub record_version: u16,
}

impl ClientHelloMsg {
    /// Whether the message holds a whole random field, fits one record, and
    /// its binder spans lie within it.
    pub open spec fn wf(&self) -> bool {
        &&& RANDOM_OFFSET + RANDOM_LEN <= self.bytes@.len() <= MAX_RECORD_PAYLOAD
        &&& spans_in_bounds(self.binders@, self.bytes@.len() as int)
    }

    /// The server name, as characters.
    pub open spec fn name_view(&self) -> Option<Seq<char>> {
        match self.server_name {
            Some(s) => Some(s@),
            None => None,
        }
    }
}

/// Whether the client proves knowledge of the secret and presents an authorized server name.
pub open spec fn hello_authenticated(v: ServerView, hello: ClientHelloMsg) -> bool {
    &&& match hello.name_view() {
        Some(n) => name_is_authorized(v, n),
        None => missing_name_is_authorized(v),
    }
    &&& is_fake_random(v.pwd, v.iv, random_of(hello.bytes@), canonical_of(hello.bytes@, hello.binders@))
}

/// Where an unauthenticated client is forwarded.
pub open spec fn forward_target(v: ServerView, name: Option<Seq<char>>) -> Option<UpstreamView> {
    match name {
        Some(n) => upstream_for(v, n),
        None => v.default,
    }
}

/// A connection that is relayed to an upstream instead of being served.
pub struct ForwardConn {
    /// Scratch space for bytes that arrive from the upstream.
    pub from_upstream: Vec<u8>,
    /// Bytes queued for the upstream.
    pub to_upstream: Vec<u8>,
    /// Where the connection is relayed.
    pub upstream: Upstream,
}

/// The per-connection state that the authenticator sets.
pub struct JlsSession {
    /// `None` until the ClientHello is processed, then whether the client authenticated.
    pub authed: Option<bool>,
    /// The relay set up for a rejected client.
    pub forward: Option<ForwardConn>,
    pub may_send_application_data: bool,
    pub may_receive_application_data: bool,
}

impl JlsSession {
    /// A session whose ClientHello has not been processed yet.
    pub fn new() -> (r: JlsSession)
        ensures
            r.authed is None,
            r.forward is None,
            !r.may_send_application_data,
            !r.may_receive_application_data,
    {
        JlsSession {
            authed: None,
            forward: None,
            may_send_application_data: false,
            may_receive_application_data: false,
        }
    }
}

/// Whether the client behind this ClientHello authenticates to the server.
pub fn authenticate(config: &JlsServerConfig, hello: &ClientHelloMsg) -> (r: bool)
    requires
        hello.wf(),
    ensures
        r == hello_authenticated(config@, *hello),
{
    let context = canonicalize(hello.bytes.as_slice(), &hello.binders);
    let random = client_random(hello.bytes.as_slice());
    let secret_ok = config.check_fake_random(&random, context.as_slice());
    let name_ok = match &hello.server_name {
        Some(name) => config.check_server_name(name.as_str()),
        None => config.check_missing_server_name(),
    };
    secret_ok && name_ok
}

/// Authenticate a ClientHello and record the verdict in the session. A
/// rejected client is set up to be relayed to its upstream, starting with
/// the ClientHello exactly as it was received. Returns whether the client
/// authenticated, or why no upstream could take a rejected one.
pub fn handle_client_hello_tls13(
    config: &JlsServerConfig,
    session: &mut JlsSession,
    hello: &ClientHelloMsg,
) -> (r: Result<bool, UpstreamError>)
    requires
        hello.wf(),
        old(session).authed is None,
        old(session).forward is None,
    ensures
        hello_authenticated(config@, *hello) ==> {
            &&& r == Ok::<bool, UpstreamError>(true)
            &&& final(session).authed == Some(true)
            &&& final(session).forward is None
            &&& final(session).may_send_application_data == old(session).may_send_application_data
            &&& final(session).may_receive_application_data == old(session).may_receive_application_data
        },
        !hello_authenticated(config@, *hello) ==> {
            &&& final(session).authed == Some(false)
            &&& match forward_target(config@, hello.name_view()) {
                Some(t) => {
                    &&& r == Ok::<bool, UpstreamError>(false)
                    &&& final(session).forward matches Some(f) && f.upstream@ == t
                        && f.to_upstream@ == record_of(hello.record_version, hello.bytes@)
                        && f.from_upstream@ == Seq::new(FORWARD_BUFFER_LEN as nat, |i: int| 0u8)
                    &&& final(session).may_send_application_data
                    &&& final(session).may_receive_application_data
                },
                None => {
                    &&& r matches Err(UpstreamError::Empty)
                    &&& final(session).forward is None
                },
            }
        },
{
    if authenticate(config, hello) {
        session.authed = Some(true);
        return Ok(true);
    }
    session.authed = Some(false);
    let target = match &hello.server_name {
        Some(name) => config.find_upstream(name.as_str()),
        None => config.get_jls_upstream(),
    };
    match target {
        Ok(upstream) => {
            let to_upstream = frame_record(hello.record_version, hello.bytes.as_slice());
            let from_upstream = vec![0u8; FORWARD_BUFFER_LEN];
            assert(from_upstream@ =~= Seq::new(FORWARD_BUFFER_LEN as nat, |i: int| 0u8));
            session.forward = Some(ForwardConn {
                from_upstream,
                to_upstream,
                upstream: upstream.duplicate(),
            });
            session.may_send_application_data = true;
            session.may_receive_application_data = true;
            Ok(false)
        },
        Err(e) => Err(e),
    }
}

/// The authentication context does not depend on what the random field
/// holds, so a client can compute it before it fills that field in.
pub proof fn lemma_context_ignores_random(a: Seq<u8>, b: Seq<u8>, spans: Seq<BinderSpan>)
    requires
        a.len() == b.len(),
        forall|i: int| 0 <= i < a.len() && !in_random(i) ==> a[i] == b[i],
    ensures
        canonical_of(a, spans) == canonical_of(b, spans),
{
    assert(canonical_of(a, spans) =~= canonical_of(b, spans));
}

/// A ClientHello whose random field holds a fake random built under the
/// server's secret and the hello's own context, and whose server name the
/// server authorizes, authenticates.
pub proof fn lemma_client_hello_authenticates(v: ServerView, hello: ClientHelloMsg, random: Seq<u8>)
    requires
        random_of(hello.bytes@) == crate::config::fake_random_of(
            v.pwd,
            v.iv,
            random,
            canonical_of(hello.bytes@, hello.binders@),
        ),
        match hello.name_view() {
            Some(n) => name_is_authorized(v, n),
            None => missing_name_is_authorized(v),
        },
    ensures
        hello_authenticated(v, hello),
{
    crate::config::lemma_round_trip(v.pwd, v.iv, random, canonical_of(hello.bytes@, hello.binders@));
}

/// A handshake message arrived on a connection that only relays bytes.
#[derive(Clone, Copy, Debug, PartialEq, Eq)]
pub enum ForwardError {
    UnexpectedMessage,
}

/// The handshake state of a relayed connection: it accepts no message.
#[derive(Clone, Copy, Debug)]
pub struct ExpectForward {}

impl ExpectForward {
    /// Any handshake message in this state is a protocol violation.
    pub fn handle(&self, handshake_type: u8) -> (r: Result<(), ForwardError>)
        ensures
            r == Err::<(), ForwardError>(ForwardError::UnexpectedMessage),
    {
        Err(ForwardError::UnexpectedMessage)
    }
}

} // verus!

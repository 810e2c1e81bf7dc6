//! Reading the proxy's reply to a CONNECT request: finding the end of the
//! header block, taking its status line and deciding the outcome.
use vstd::prelude::*;

use crate::codec::{decode_lossy, lossy_text};
use crate::error::{ProxyError, ProxyResult};
use crate::text::{contains, has_infix, occurs_at, starts_with};

verus! {

/// `buf` holds the header terminator `\r\n\r\n` starting at index `i`.
pub open spec fn crlf_crlf_at(buf: Seq<u8>, i: int) -> bool {
    &&& 0 <= i
    &&& i + 4 <= buf.len()
    &&& buf[i] == 13u8
    &&& buf[i + 1] == 10u8
    &&& buf[i + 2] == 13u8
    &&& buf[i + 3] == 10u8
}

/// The first index at or after `i` where the header terminator starts.
pub open spec fn crlf_crlf_from(buf: Seq<u8>, i: nat) -> Option<nat>
    decreases buf.len() - i,
{
    if i + 4 > buf.len() {
        None
    } else if crlf_crlf_at(buf, i as int) {
        Some(i)
    } else {
        crlf_crlf_from(buf, i + 1)
    }
}

/// The length of the header block including its terminator, once the
/// terminator has arrived.
pub open spec fn header_end(buf: Seq<u8>) -> Option<nat> {
    match crlf_crlf_from(buf, 0) {
        Some(p) => Some(p + 4),
        None => None,
    }
}

/// The index of the first `\r` or `\n` at or after `i`, or the length of `h`.
pub open spec fn line_end_from(h: Seq<u8>, i: nat) -> nat
    decreases h.len() - i,
{
    if i >= h.len() {
        h.len()
    } else if h[i as int] == 13u8 || h[i as int] == 10u8 {
        i
    } else {
        line_end_from(h, i + 1)
    }
}

/// The status line of the header block `buf[..end]`: its bytes up to the first
/// line break.
pub open spec fn status_line_bytes(buf: Seq<u8>, end: nat) -> Seq<u8> {
    let h = buf.subrange(0, end as int);
    h.subrange(0, line_end_from(h, 0) as int)
}

/// How a proxy answered a CONNECT request, judged from its status line.
pub enum StatusVerdict {
    /// `HTTP/1.1 200` or `HTTP/1.0 200`: the tunnel is open.
    Established,
    /// Any other line that mentions `407`: the proxy wants credentials.
    AuthRequired,
    /// Anything else.
    Rejected,
}

/// The verdict for a status line.
pub open spec fn status_verdict(line: Seq<char>) -> StatusVerdict {
    if "HTTP/1.1 200"@.is_prefix_of(line) || "HTTP/1.0 200"@.is_prefix_of(line) {
        StatusVerdict::Established
    } else if has_infix(line, "407"@) {
        StatusVerdict::AuthRequired
    } else {
        StatusVerdict::Rejected
    }
}

/// `r` is what the library reports for the status line `line`: success when
/// established, `AuthFailed(line)` when credentials are wanted, otherwise
/// `InvalidResponse(line)`.
pub open spec fn reports_status(r: ProxyResult<()>, line: Seq<char>) -> bool {
    match status_verdict(line) {
        StatusVerdict::Established => r is Ok,
        StatusVerdict::AuthRequired => r matches Err(ProxyError::AuthFailed(m)) && m@ == line,
        StatusVerdict::Rejected => r matches Err(ProxyError::InvalidResponse(m)) && m@ == line,
    }
}

/// Law: how a proxy's status line is reported, whatever its HTTP version.
/// A line beginning `HTTP/1.1 200` or `HTTP/1.0 200` opens the tunnel; any
/// other line that mentions `407` (an HTTP/1.0 proxy asking for credentials as
/// much as an HTTP/1.1 one) is `AuthFailed` carrying the line; any other line
/// is `InvalidResponse` carrying the line.
pub proof fn lemma_status_line_outcomes(r: ProxyResult<()>, line: Seq<char>)
    requires
        reports_status(r, line),
    ensures
        ("HTTP/1.1 200"@.is_prefix_of(line) || "HTTP/1.0 200"@.is_prefix_of(line)) ==> r is Ok,
        !("HTTP/1.1 200"@.is_prefix_of(line) || "HTTP/1.0 200"@.is_prefix_of(line))
            && (exists|i: int| 0 <= i && i + 3 <= line.len() && #[trigger] line.subrange(i, i + 3) == "407"@)
            ==> (r matches Err(ProxyError::AuthFailed(m)) && m@ == line),
        !("HTTP/1.1 200"@.is_prefix_of(line) || "HTTP/1.0 200"@.is_prefix_of(line))
            && !(exists|i: int| 0 <= i && i + 3 <= line.len() && #[trigger] line.subrange(i, i + 3) == "407"@)
            ==> (r matches Err(ProxyError::InvalidResponse(m)) && m@ == line),
{
    reveal_strlit("407");
    if exists|i: int| 0 <= i && i + 3 <= line.len() && #[trigger] line.subrange(i, i + 3) == "407"@ {
        let i = choose|i: int| 0 <= i && i + 3 <= line.len() && #[trigger] line.subrange(i, i + 3) == "407"@;
        assert(occurs_at(line, "407"@, i));
    }
}

/// `r` is what the library reports for the header bytes received so far:
/// nothing until the terminator has arrived, then the outcome of the status line.
pub open spec fn reports_response(r: Option<ProxyResult<()>>, buf: Seq<u8>) -> bool {
    match header_end(buf) {
        None => r is None,
        Some(end) => r matches Some(v) && reports_status(v, lossy_text(status_line_bytes(buf, end))),
    }
}

proof fn lemma_crlf_crlf_from_bounds(buf: Seq<u8>, i: nat)
    ensures
        crlf_crlf_from(buf, i) matches Some(p) ==> i <= p && p + 4 <= buf.len(),
    decreases buf.len() - i,
{
    if i + 4 <= buf.len() && !crlf_crlf_at(buf, i as int) {
        lemma_crlf_crlf_from_bounds(buf, i + 1);
    }
}

proof fn lemma_crlf_crlf_from_first(buf: Seq<u8>, i: nat)
    ensures
        match crlf_crlf_from(buf, i) {
            Some(p) => crlf_crlf_at(buf, p as int) && forall|j: int| i <= j < p ==> !crlf_crlf_at(buf, j),
            None => forall|j: int| i <= j ==> !crlf_crlf_at(buf, j),
        },
    decreases buf.len() - i,
{
    if i + 4 <= buf.len() && !crlf_crlf_at(buf, i as int) {
        lemma_crlf_crlf_from_first(buf, i + 1);
    }
}

/// The header block ends just past the first `\r\n\r\n` in the bytes
/// received; there is no end while none has arrived.
pub proof fn lemma_header_end_is_first_terminator(buf: Seq<u8>)
    ensures
        match header_end(buf) {
            Some(e) => e >= 4 && crlf_crlf_at(buf, e - 4) && forall|j: int| 0 <= j < e - 4 ==> !crlf_crlf_at(buf, j),
            None => forall|j: int| !crlf_crlf_at(buf, j),
        },
{
    lemma_crlf_crlf_from_first(buf, 0);
}

proof fn lemma_line_end_bounds(h: Seq<u8>, i: nat)
    requires
        i <= h.len(),
    ensures
        i <= line_end_from(h, i) <= h.len(),
    decreases h.len() - i,
{
    if i < h.len() && !(h[i as int] == 13u8 || h[i as int] == 10u8) {
        lemma_line_end_bounds(h, i + 1);
    }
}

proof fn lemma_line_end_first_break(h: Seq<u8>, i: nat)
    requires
        i <= h.len(),
    ensures
        forall|j: int| i <= j < line_end_from(h, i) ==> h[j] != 13u8 && h[j] != 10u8,
        line_end_from(h, i) < h.len() ==> (h[line_end_from(h, i) as int] == 13u8 || h[line_end_from(
            h,
            i,
        ) as int] == 10u8),
    decreases h.len() - i,
{
    if i < h.len() && !(h[i as int] == 13u8 || h[i as int] == 10u8) {
        lemma_line_end_first_break(h, i + 1);
    }
}

/// Law: the status line judged is the start of the header block up to its
/// first line break: it is a prefix of the bytes received, holds no `\r` or
/// `\n`, and is followed by one (the header block always holds its
/// terminator, so a break always follows).
pub proof fn lemma_status_line_is_first_line(buf: Seq<u8>)
    requires
        header_end(buf) is Some,
    ensures
        ({
            let line = status_line_bytes(buf, header_end(buf).unwrap());
            &&& line.is_prefix_of(buf)
            &&& forall|j: int| 0 <= j < line.len() ==> line[j] != 13u8 && line[j] != 10u8
            &&& line.len() < buf.len()
            &&& (buf[line.len() as int] == 13u8 || buf[line.len() as int] == 10u8)
        }),
{
    lemma_crlf_crlf_from_bounds(buf, 0);
    lemma_crlf_crlf_from_first(buf, 0);
    let end = header_end(buf).unwrap();
    let h = buf.subrange(0, end as int);
    lemma_line_end_bounds(h, 0);
    lemma_line_end_first_break(h, 0);
    let e = line_end_from(h, 0);
    let p = (end - 4) as int;
    assert(h[p] == 13u8);
    assert(e <= p);
    let line = status_line_bytes(buf, end);
    assert(line =~= buf.subrange(0, e as int));
    assert forall|j: int| 0 <= j < line.len() implies line[j] != 13u8 && line[j] != 10u8 by {
        assert(line[j] == h[j]);
    }
    assert(buf[e as int] == h[e as int]);
}

/// Finds the end of the header block: the index just past the first
/// `\r\n\r\n`, or `None` while it has not arrived.
pub fn find_crlf_crlf(buf: &[u8]) -> (r: Option<usize>)
    ensures
        r matches Some(e) ==> header_end(buf@) == Some(e as nat),
        r is None ==> header_end(buf@) is None,
{
    let len = buf.len();
    if len < 4 {
        return None;
    }
    let mut i: usize = 0;
    while i <= len - 4
        invariant
            len == buf@.len(),
            len >= 4,
            i <= len - 3,
            crlf_crlf_from(buf@, 0) == crlf_crlf_from(buf@, i as nat),
        decreases len - i,
    {
        if buf[i] == 13 && buf[i + 1] == 10 && buf[i + 2] == 13 && buf[i + 3] == 10 {
            return Some(i + 4);
        }
        i = i + 1;
    }
    None
}

/// The index of the first `\r` or `\n` in `h`, or its length.
fn line_end(h: &[u8]) -> (r: usize)
    ensures
        r == line_end_from(h@, 0),
        r <= h@.len(),
{
    proof { lemma_line_end_bounds(h@, 0); }
    let len = h.len();
    let mut i: usize = 0;
    while i < len
        invariant
            len == h@.len(),
            i <= len,
            line_end_from(h@, 0) == line_end_from(h@, i as nat),
        decreases len - i,
    {
        if h[i] == 13 || h[i] == 10 {
            return i;
        }
        i = i + 1;
    }
    i
}

/// Whether a status line (or reply text) reports an open tunnel: it begins
/// with `HTTP/1.1 200` or `HTTP/1.0 200`.
pub fn is_established(line: &str) -> (r: bool)
    ensures
        r == (status_verdict(line@) is Established),
{
    starts_with(line, "HTTP/1.1 200") || starts_with(line, "HTTP/1.0 200")
}

/// The verdict on the first bytes a proxy sent back to a plain tunnel's
/// CONNECT: accepted when, lossily decoded, they report an open tunnel;
/// otherwise refused with `Proxy connection failed: ` and the decoded reply.
pub fn tunnel_reply(reply: &[u8]) -> (r: Result<(), String>)
    ensures
        status_verdict(lossy_text(reply@)) is Established ==> r is Ok,
        !(status_verdict(lossy_text(reply@)) is Established) ==> (r matches Err(m)
            && m@ == "Proxy connection failed: "@ + lossy_text(reply@)),
{
    let text = decode_lossy(reply);
    if is_established(text.as_str()) {
        Ok(())
    } else {
        let mut m = String::from_str("Proxy connection failed: ");
        m.append(text.as_str());
        Err(m)
    }
}

/// The outcome the library reports for a proxy's status line.
pub fn classify_status_line(line: String) -> (r: ProxyResult<()>)
    ensures
        reports_status(r, line@),
{
    if is_established(line.as_str()) {
        Ok(())
    } else if contains(line.as_str(), "407") {
        Err(ProxyError::AuthFailed(line))
    } else {
        Err(ProxyError::InvalidResponse(line))
    }
}

/// The outcome for the header bytes received so far: `None` until the header
/// terminator has arrived, then the outcome for the (lossily decoded) status line.
pub fn parse_connect_response(buf: &[u8]) -> (r: Option<ProxyResult<()>>)
    ensures
        reports_response(r, buf@),
{
    match find_crlf_crlf(buf) {
        None => None,
        Some(end) => {
            proof { lemma_crlf_crlf_from_bounds(buf@, 0); }
            let headers = &buf[0..end];
            let eol = line_end(headers);
            let status = decode_lossy(&headers[0..eol]);
            assert(headers@.subrange(0, eol as int) == status_line_bytes(buf@, end as nat));
            Some(classify_status_line(status))
        },
    }
}

/// Once the header terminator is in `a`, appending more bytes changes neither
/// where the header block ends nor its status line.
proof fn lemma_crlf_crlf_from_extend(a: Seq<u8>, b: Seq<u8>, i: nat)
    requires
        crlf_crlf_from(a, i) is Some,
    ensures
        crlf_crlf_from(a + b, i) == crlf_crlf_from(a, i),
    decreases a.len() - i,
{
    let ab = a + b;
    if i + 4 <= a.len() {
        let k = i as int;
        assert(ab[k] == a[k] && ab[k + 1] == a[k + 1] && ab[k + 2] == a[k + 2]
            && ab[k + 3] == a[k + 3]);
        if !crlf_crlf_at(a, i as int) {
            lemma_crlf_crlf_from_extend(a, b, i + 1);
        }
    }
}

/// Law: the outcome of a reply is decided by the bytes up to the end of its
/// header block. Bytes that arrive after the terminator change neither where
/// the header block ends nor the status line that is judged.
pub proof fn lemma_reply_decided_by_header_block(a: Seq<u8>, b: Seq<u8>)
    requires
        header_end(a) is Some,
    ensures
        header_end(a + b) == header_end(a),
        status_line_bytes(a + b, header_end(a).unwrap()) == status_line_bytes(a, header_end(a).unwrap()),
{
    lemma_crlf_crlf_from_extend(a, b, 0);
    lemma_crlf_crlf_from_bounds(a, 0);
    let end = header_end(a).unwrap();
    assert((a + b).subrange(0, end as int) =~= a.subrange(0, end as int));
}

/// What a handshake step tells the caller.
pub enum HandshakeStep {
    /// The header block is incomplete: read more and call `receive` again.
    NeedMore,
    /// The handshake is over, with this outcome.
    Done(ProxyResult<()>),
}

/// `r` is the step reported for the bytes `buf` received so far: `NeedMore`
/// until the header terminator has arrived, then the outcome of the status line.
pub open spec fn reports_step(r: HandshakeStep, buf: Seq<u8>) -> bool {
    match header_end(buf) {
        None => r is NeedMore,
        Some(end) => r matches HandshakeStep::Done(v) && reports_status(
            v,
            lossy_text(status_line_bytes(buf, end)),
        ),
    }
}

/// The reading side of the CONNECT handshake. The caller writes the request,
/// then passes every chunk it reads from the proxy to `receive` until the step
/// is `Done`; an empty chunk means that the proxy closed the connection.
pub struct ConnectHandshake {
    received: Vec<u8>,
}

impl View for ConnectHandshake {
    type V = Seq<u8>;

    /// All bytes received from the proxy so far.
    closed spec fn view(&self) -> Seq<u8> {
        self.received@
    }
}

impl ConnectHandshake {
    /// A handshake that has received nothing yet.
    pub fn new() -> (r: Self)
        ensures
            r@ == Seq::<u8>::empty(),
    {
        ConnectHandshake { received: Vec::new() }
    }

    /// Takes the next chunk read from the proxy. An empty chunk (end of
    /// stream) ends the handshake with `ConnectionClosed`; otherwise the chunk
    /// is appended and the step is judged on everything received.
    pub fn receive(&mut self, chunk: &[u8]) -> (r: HandshakeStep)
        ensures
            chunk@.len() == 0 ==> final(self)@ == old(self)@ && r matches HandshakeStep::Done(
                Err(ProxyError::ConnectionClosed),
            ),
            chunk@.len() > 0 ==> final(self)@ == old(self)@ + chunk@ && reports_step(r, final(self)@),
    {
        if chunk.len() == 0 {
            return HandshakeStep::Done(Err(ProxyError::ConnectionClosed));
        }
        self.received.extend_from_slice(chunk);
        match parse_connect_response(self.received.as_slice()) {
            None => HandshakeStep::NeedMore,
            Some(v) => HandshakeStep::Done(v),
        }
    }
}

} // verus!

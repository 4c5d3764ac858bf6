//! The TLS session of one connection and the two data-path operations:
//! decrypt-on-read and encrypt-on-write between byte queues.
use vstd::prelude::*;
use std::sync::Arc;
use crate::query::{answer_query, answers, Capability, CapabilityValue, SessionFacts};

verus! {

#[verifier::external_type_specification]
#[verifier::external_body]
pub struct ExServerConnection(rustls::ServerConnection);

#[verifier::external_type_specification]
#[verifier::external_body]
pub struct ExServerConfig(rustls::ServerConfig);

#[verifier::external_type_specification]
#[verifier::external_body]
pub struct ExRustlsError(rustls::Error);

#[verifier::external_type_specification]
#[verifier::external_body]
pub struct ExIoError(std::io::Error);

/// Why a session operation or a handshake failed.
#[derive(Debug)]
pub enum TlsError {
    /// The engine rejected the bytes it was given (a malformed record or a
    /// protocol violation). The connection is unusable.
    Engine(rustls::Error),
    /// Moving bytes into or out of the engine failed.
    Io(std::io::Error),
    /// The session could not be created from its configuration.
    Config(rustls::Error),
    /// The transport closed while the handshake was in progress.
    Disconnected,
    /// The handshake did not finish before its deadline.
    TimedOut,
}

/// Relies on rustls::ServerConnection::new: builds the session for one
/// connection, or fails on a configuration that cannot serve.
#[verifier::external_body]
fn engine_new(cfg: Arc<rustls::ServerConfig>) -> (r: Result<rustls::ServerConnection, rustls::Error>) {
    rustls::ServerConnection::new(cfg)
}

/// Relies on ConnectionCommon::read_tls over a cursor on `wire`: one read of
/// the cursor, whose count (io::Read) is at most the bytes it holds.
#[verifier::external_body]
fn engine_read_tls(conn: &mut rustls::ServerConnection, wire: &[u8]) -> (r: Result<usize, std::io::Error>)
    ensures
        r matches Ok(n) ==> n <= wire@.len(),
{
    conn.read_tls(&mut std::io::Cursor::new(wire))
}

/// Relies on ConnectionCommon::process_new_packets and
/// IoState::plaintext_bytes_to_read: the plaintext ready after processing.
#[verifier::external_body]
fn engine_process(conn: &mut rustls::ServerConnection) -> (r: Result<usize, rustls::Error>) {
    conn.process_new_packets().map(|state| state.plaintext_bytes_to_read())
}

/// Relies on rustls::Reader's io::Read::read into a buffer of `max` bytes,
/// whose count is at most `max`; the bytes read are returned.
#[verifier::external_body]
fn engine_read_plaintext(conn: &mut rustls::ServerConnection, max: usize) -> (r: Result<Vec<u8>, std::io::Error>)
    ensures
        r matches Ok(v) ==> v@.len() <= max,
{
    let mut buf = vec![0u8; max];
    let n: usize = std::io::Read::read(&mut conn.reader(), &mut buf)?;
    buf.truncate(n);
    Ok(buf)
}

/// Relies on rustls::Writer's io::Write::write: it takes a prefix of `data`
/// and returns its length, at most `data`'s length.
#[verifier::external_body]
fn engine_write_plaintext(conn: &mut rustls::ServerConnection, data: &[u8]) -> (r: Result<usize, std::io::Error>)
    ensures
        r matches Ok(n) ==> n <= data@.len(),
{
    std::io::Write::write(&mut conn.writer(), data)
}

/// Relies on ConnectionCommon::write_tls into a `Vec<u8>`, whose io::Write
/// appends: the count returned is the number of bytes appended.
#[verifier::external_body]
fn engine_write_tls(conn: &mut rustls::ServerConnection, out: &mut Vec<u8>) -> (r: Result<usize, std::io::Error>)
    ensures
        old(out)@.len() <= final(out)@.len(),
        final(out)@.subrange(0, old(out)@.len() as int) == old(out)@,
        r matches Ok(n) ==> final(out)@.len() == old(out)@.len() + n,
{
    conn.write_tls(out)
}

/// Relies on CommonState::wants_write: whether ciphertext waits to be sent.
#[verifier::external_body]
fn engine_wants_write(conn: &rustls::ServerConnection) -> (r: bool) {
    conn.wants_write()
}

/// Relies on CommonState::wants_read: whether the engine waits for input.
#[verifier::external_body]
fn engine_wants_read(conn: &rustls::ServerConnection) -> (r: bool) {
    conn.wants_read()
}

/// Relies on CommonState::is_handshaking.
#[verifier::external_body]
fn engine_is_handshaking(conn: &rustls::ServerConnection) -> (r: bool) {
    conn.is_handshaking()
}

/// Relies on CommonState::alpn_protocol: the protocol agreed through ALPN.
#[verifier::external_body]
fn engine_alpn(conn: &rustls::ServerConnection) -> (r: Option<Vec<u8>>) {
    conn.alpn_protocol().map(|p| p.to_vec())
}

/// Relies on CommonState::peer_certificates: the chain in the order the
/// peer presented it, each certificate as its DER bytes.
#[verifier::external_body]
fn engine_peer_certs(conn: &rustls::ServerConnection) -> (r: Option<Vec<Vec<u8>>>) {
    conn.peer_certificates().map(|chain| chain.iter().map(|c| c.to_vec()).collect())
}

/// Relies on ServerConnection::server_name: the SNI name the client sent.
#[verifier::external_body]
fn engine_server_name(conn: &rustls::ServerConnection) -> (r: Option<String>) {
    conn.server_name().map(|n| n.to_string())
}

/// `after` is what is left of `before` once a prefix has been taken.
pub open spec fn is_suffix_of(after: Seq<u8>, before: Seq<u8>) -> bool {
    after.len() <= before.len() && after == before.subrange(before.len() - after.len(), before.len() as int)
}

/// `after` is `before` with bytes appended.
pub open spec fn extends(after: Seq<u8>, before: Seq<u8>) -> bool {
    before.len() <= after.len() && after.subrange(0, before.len() as int) == before
}

proof fn lemma_queue_unchanged(q: Seq<u8>)
    ensures
        is_suffix_of(q, q),
        extends(q, q),
{
    assert(q.subrange(0, q.len() as int) =~= q);
}

proof fn lemma_suffix_of_suffix(a: Seq<u8>, b: Seq<u8>, n: int)
    requires
        is_suffix_of(b, a),
        0 <= n <= b.len(),
    ensures
        is_suffix_of(b.subrange(n, b.len() as int), a),
{
    assert(b.subrange(n, b.len() as int) =~= a.subrange(
        a.len() - (b.len() - n),
        a.len() as int,
    ));
}

proof fn lemma_extends_extends(a: Seq<u8>, b: Seq<u8>, c: Seq<u8>)
    requires
        extends(b, a),
        extends(c, b),
    ensures
        extends(c, a),
{
    assert(c.subrange(0, a.len() as int) =~= b.subrange(0, a.len() as int));
}

/// Creates the session for one connection. Fails, before any I/O, where the
/// configuration cannot serve.
pub fn new_session(cfg: Arc<rustls::ServerConfig>) -> (r: Result<rustls::ServerConnection, TlsError>)
    ensures
        r is Err ==> r->Err_0 is Config,
{
    match engine_new(cfg) {
        Ok(c) => Ok(c),
        Err(e) => Err(TlsError::Config(e)),
    }
}

/// Removes the first `n` bytes of `q`.
fn consume_prefix(q: &mut Vec<u8>, n: usize)
    requires
        n <= old(q)@.len(),
    ensures
        final(q)@ == old(q)@.subrange(n as int, old(q)@.len() as int),
{
    let rest = q.split_off(n);
    *q = rest;
}

/// One pass of the read processor, given what the engine did in it: the
/// first `accepted` bytes of `src` were fed to the engine, and `plain` is the
/// plaintext it released. Those bytes leave `src`, `plain` is appended to
/// `dst`, and another pass follows exactly when the pass released plaintext.
pub fn read_pass(src: &mut Vec<u8>, dst: &mut Vec<u8>, accepted: usize, plain: Vec<u8>) -> (more: bool)
    requires
        accepted <= old(src)@.len(),
    ensures
        final(src)@ == old(src)@.subrange(accepted as int, old(src)@.len() as int),
        final(dst)@ == old(dst)@ + plain@,
        more == (plain@.len() > 0),
{
    let mut plain = plain;
    let more = plain.len() > 0;
    consume_prefix(src, accepted);
    dst.append(&mut plain);
    more
}

/// One pass of the write processor, given what the engine did in it: it
/// took the first `taken` bytes of `src`, then reported `wants_write`, and
/// wrote `sent` bytes of ciphertext. The taken bytes leave `src`; another
/// pass follows exactly when output was pending and the pass moved bytes.
pub fn write_pass(src: &mut Vec<u8>, taken: usize, wants_write: bool, sent: usize) -> (more: bool)
    requires
        taken <= old(src)@.len(),
    ensures
        final(src)@ == old(src)@.subrange(taken as int, old(src)@.len() as int),
        more == (wants_write && (taken > 0 || sent > 0)),
{
    consume_prefix(src, taken);
    wants_write && (taken > 0 || sent > 0)
}

/// Decrypts what the engine accepts of the wire bytes in `src` and appends
/// the plaintext to `dst`, one `read_pass` at a time, until a pass releases
/// no plaintext. Every pass hands the whole remaining `src` to the engine.
/// Returns the number of plaintext bytes appended.
pub fn process_read_buf(
    conn: &mut rustls::ServerConnection,
    src: &mut Vec<u8>,
    dst: &mut Vec<u8>,
) -> (r: Result<usize, TlsError>)
    ensures
        is_suffix_of(final(src)@, old(src)@),
        old(src)@.len() == 0 ==> final(src)@.len() == 0,
        extends(final(dst)@, old(dst)@),
        r matches Ok(n) ==> final(dst)@.len() == old(dst)@.len() + n,
        r matches Err(e) ==> e is Engine || e is Io,
{
    let ghost src0 = src@;
    let ghost dst0 = dst@;
    proof {
        lemma_queue_unchanged(src0);
        lemma_queue_unchanged(dst0);
    }
    let mut new_bytes: usize = 0;
    let _len: usize = dst.len();
    loop
        invariant
            src0 == old(src)@,
            dst0 == old(dst)@,
            is_suffix_of(src@, src0),
            extends(dst@, dst0),
            dst@.len() == dst0.len() + new_bytes,
            dst@.len() <= usize::MAX,
        decreases usize::MAX - dst@.len(),
    {
        let n: usize = match engine_read_tls(conn, src.as_slice()) {
            Ok(n) => n,
            Err(e) => return Err(TlsError::Io(e)),
        };
        proof {
            lemma_suffix_of_suffix(src0, src@, n as int);
        }
        let ghost before = dst@;
        let plain: Vec<u8> = match engine_process(conn) {
            Ok(0) => Vec::new(),
            Ok(ready) => match engine_read_plaintext(conn, ready) {
                Ok(chunk) => chunk,
                Err(e) => {
                    read_pass(src, dst, n, Vec::new());
                    proof {
                        assert(dst@ =~= before);
                    }
                    return Err(TlsError::Io(e));
                },
            },
            Err(e) => {
                read_pass(src, dst, n, Vec::new());
                proof {
                    assert(dst@ =~= before);
                }
                return Err(TlsError::Engine(e));
            },
        };
        let v: usize = plain.len();
        let more = read_pass(src, dst, n, plain);
        // A vector's length fits in usize, which bounds the loop.
        let _len: usize = dst.len();
        proof {
            lemma_queue_unchanged(before);
            assert(dst@.subrange(0, before.len() as int) =~= before);
            lemma_extends_extends(dst0, before, dst@);
        }
        if !more {
            break;
        }
        new_bytes = new_bytes + v;
    }
    Ok(new_bytes)
}

/// Encrypts what the engine accepts of the application bytes in `src` and
/// appends the ciphertext it produces to `out`, one `write_pass` at a time,
/// until no output is pending or a pass moves nothing. Every pass hands the
/// whole remaining `src` to the engine.
pub fn process_write_buf(
    conn: &mut rustls::ServerConnection,
    src: &mut Vec<u8>,
    out: &mut Vec<u8>,
) -> (r: Result<(), TlsError>)
    ensures
        is_suffix_of(final(src)@, old(src)@),
        old(src)@.len() == 0 ==> final(src)@.len() == 0,
        extends(final(out)@, old(out)@),
        r matches Err(e) ==> e is Io,
{
    let ghost src0 = src@;
    let ghost out0 = out@;
    proof {
        lemma_queue_unchanged(src0);
        lemma_queue_unchanged(out0);
    }
    let _len: usize = out.len();
    loop
        invariant
            src0 == old(src)@,
            out0 == old(out)@,
            is_suffix_of(src@, src0),
            extends(out@, out0),
            out@.len() <= usize::MAX,
        decreases src@.len() + (usize::MAX - out@.len()),
    {
        let mut taken: usize = 0;
        if src.len() > 0 {
            taken = match engine_write_plaintext(conn, src.as_slice()) {
                Ok(n) => n,
                Err(e) => return Err(TlsError::Io(e)),
            };
        }
        proof {
            lemma_suffix_of_suffix(src0, src@, taken as int);
        }
        let pending = engine_wants_write(conn);
        let ghost before = out@;
        let mut sent: usize = 0;
        if pending {
            sent = match engine_write_tls(conn, out) {
                Ok(k) => k,
                Err(e) => {
                    write_pass(src, taken, false, 0);
                    proof {
                        lemma_extends_extends(out0, before, out@);
                    }
                    return Err(TlsError::Io(e));
                },
            };
        }
        let _len: usize = out.len();
        proof {
            lemma_queue_unchanged(before);
            lemma_extends_extends(out0, before, out@);
        }
        if !write_pass(src, taken, pending, sent) {
            break;
        }
    }
    Ok(())
}

/// Whether the session is still in its handshake.
pub fn is_handshaking(conn: &rustls::ServerConnection) -> (r: bool) {
    engine_is_handshaking(conn)
}

/// Whether the session waits for more wire bytes.
pub fn wants_read(conn: &rustls::ServerConnection) -> (r: bool) {
    engine_wants_read(conn)
}

/// Whether the session holds ciphertext that waits to be sent.
pub fn wants_write(conn: &rustls::ServerConnection) -> (r: bool) {
    engine_wants_write(conn)
}

/// A snapshot of what the session has negotiated so far.
pub fn session_facts(conn: &rustls::ServerConnection) -> (r: SessionFacts) {
    SessionFacts {
        handshaking: engine_is_handshaking(conn),
        alpn: engine_alpn(conn),
        peer_certs: engine_peer_certs(conn),
        server_name: engine_server_name(conn),
    }
}

/// Answers a capability query from the session's current state: the answer
/// is the one `answer_query` gives on a snapshot of the session, so of the
/// kind asked for, and nothing while the handshake is in progress.
pub fn query(conn: &rustls::ServerConnection, cap: Capability) -> (r: Option<CapabilityValue>)
    ensures
        exists|facts: SessionFacts| answers(facts, cap, r),
{
    let facts = session_facts(conn);
    let ghost snapshot = facts;
    let r = answer_query(facts, cap);
    assert(answers(snapshot, cap, r));
    r
}

} // verus!

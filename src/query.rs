//! Capability queries: protocol facts that upper layers ask of a TLS
//! session without knowing about TLS.
use vstd::prelude::*;

verus! {

/// The HTTP version that the negotiated application protocol selects.
#[derive(PartialEq, Eq, Clone, Copy, Debug, Structural)]
pub enum HttpProtocol {
    Http1,
    Http2,
}

/// The facts that can be asked of a session.
#[derive(PartialEq, Eq, Clone, Copy, Debug, Structural)]
pub enum Capability {
    /// The application protocol negotiated through ALPN.
    ApplicationProtocol,
    /// The first certificate that the peer presented.
    PeerCertificate,
    /// Every certificate that the peer presented, in the order presented.
    PeerCertificateChain,
    /// The server name that the client asked for.
    ServerName,
}

/// The answer to a capability query.
#[derive(Debug)]
pub enum CapabilityValue {
    Protocol(HttpProtocol),
    PeerCert(Vec<u8>),
    PeerCertChain(Vec<Vec<u8>>),
    ServerName(String),
}

/// A snapshot of what a session has negotiated, taken at query time.
/// Certificates are kept as their DER bytes.
#[derive(Debug)]
pub struct SessionFacts {
    pub handshaking: bool,
    pub alpn: Option<Vec<u8>>,
    pub peer_certs: Option<Vec<Vec<u8>>>,
    pub server_name: Option<String>,
}

/// The one protocol token that selects HTTP/2: the bytes `h2`.
pub open spec fn is_h2(p: Seq<u8>) -> bool {
    p == seq![0x68u8, 0x32u8]
}

/// The HTTP version for a negotiated ALPN protocol: HTTP/2 where it is the
/// `h2` token, HTTP/1 for any other protocol and when nothing was negotiated.
pub open spec fn protocol_of(alpn: Option<Seq<u8>>) -> HttpProtocol {
    match alpn {
        Some(p) => if is_h2(p) { HttpProtocol::Http2 } else { HttpProtocol::Http1 },
        None => HttpProtocol::Http1,
    }
}

pub open spec fn alpn_view(alpn: Option<Vec<u8>>) -> Option<Seq<u8>> {
    match alpn {
        Some(p) => Some(p@),
        None => None,
    }
}

/// The certificates of a chain, each as its bytes.
pub open spec fn chain_view(c: Seq<Vec<u8>>) -> Seq<Seq<u8>> {
    c.map_values(|v: Vec<u8>| v@)
}

/// What `answer_query` returns on `facts` for `cap`: nothing while the
/// handshake is in progress; after it, the fact asked for, where the
/// session has it.
pub open spec fn answers(facts: SessionFacts, cap: Capability, r: Option<CapabilityValue>) -> bool {
    if facts.handshaking {
        r is None
    } else {
        match cap {
            Capability::ApplicationProtocol => r == Some(
                CapabilityValue::Protocol(protocol_of(alpn_view(facts.alpn))),
            ),
            Capability::PeerCertificate => match facts.peer_certs {
                Some(c) if c@.len() > 0 => match r {
                    Some(CapabilityValue::PeerCert(x)) => x@ == c@[0]@,
                    _ => false,
                },
                _ => r is None,
            },
            Capability::PeerCertificateChain => match facts.peer_certs {
                Some(c) if c@.len() > 0 => match r {
                    Some(CapabilityValue::PeerCertChain(x)) => chain_view(x@) == chain_view(c@),
                    _ => false,
                },
                _ => r is None,
            },
            Capability::ServerName => match facts.server_name {
                Some(n) => match r {
                    Some(CapabilityValue::ServerName(x)) => x@ == n@,
                    _ => false,
                },
                None => r is None,
            },
        }
    }
}

/// Whether the ALPN protocol bytes are the `h2` token.
pub fn alpn_selects_h2(p: &[u8]) -> (r: bool)
    ensures
        r == is_h2(p@),
{
    let r = p.len() == 2 && p[0] == 0x68u8 && p[1] == 0x32u8;
    proof {
        if r {
            assert(p@ =~= seq![0x68u8, 0x32u8]);
        }
    }
    r
}

/// The HTTP version selected by the negotiated ALPN protocol.
pub fn protocol_from_alpn(alpn: &Option<Vec<u8>>) -> (r: HttpProtocol)
    ensures
        r == protocol_of(alpn_view(*alpn)),
{
    match alpn {
        Some(p) => if alpn_selects_h2(p.as_slice()) {
            HttpProtocol::Http2
        } else {
            HttpProtocol::Http1
        },
        None => HttpProtocol::Http1,
    }
}

/// Answers a capability query from a snapshot of the session.
pub fn answer_query(facts: SessionFacts, cap: Capability) -> (r: Option<CapabilityValue>)
    ensures
        answers(facts, cap, r),
{
    if facts.handshaking {
        return None;
    }
    let ghost orig = facts;
    match cap {
        Capability::ApplicationProtocol => Some(
            CapabilityValue::Protocol(protocol_from_alpn(&facts.alpn)),
        ),
        Capability::PeerCertificate => match facts.peer_certs {
            Some(mut c) => {
                if c.len() > 0 {
                    let first = c.swap_remove(0);
                    Some(CapabilityValue::PeerCert(first))
                } else {
                    None
                }
            },
            None => None,
        },
        Capability::PeerCertificateChain => match facts.peer_certs {
            Some(c) => {
                if c.len() > 0 {
                    Some(CapabilityValue::PeerCertChain(c))
                } else {
                    None
                }
            },
            None => None,
        },
        Capability::ServerName => match facts.server_name {
            Some(n) => Some(CapabilityValue::ServerName(n)),
            None => None,
        },
    }
}

/// Once the handshake is over, the protocol query answers HTTP/2 exactly
/// when the negotiated protocol is the `h2` token, and HTTP/1 when it is
/// another or when no protocol was negotiated; while the handshake is in
/// progress every query answers nothing.
pub proof fn lemma_protocol_answer(facts: SessionFacts, cap: Capability, r: Option<CapabilityValue>)
    requires
        answers(facts, cap, r),
    ensures
        facts.handshaking ==> r is None,
        !facts.handshaking && cap == Capability::ApplicationProtocol ==> match facts.alpn {
            Some(p) => is_h2(p@) ==> r == Some(CapabilityValue::Protocol(HttpProtocol::Http2)),
            None => r == Some(CapabilityValue::Protocol(HttpProtocol::Http1)),
        },
        !facts.handshaking && cap == Capability::ApplicationProtocol ==> match facts.alpn {
            Some(p) => !is_h2(p@) ==> r == Some(CapabilityValue::Protocol(HttpProtocol::Http1)),
            None => true,
        },
{
}

/// After the handshake, the certificate query answers the first certificate
/// of the presented chain and the chain query the whole chain in the order
/// presented; where the peer presented no certificate, or an empty chain,
/// both answer nothing.
pub proof fn lemma_certificate_answers(
    facts: SessionFacts,
    first: Option<CapabilityValue>,
    chain: Option<CapabilityValue>,
)
    requires
        !facts.handshaking,
        answers(facts, Capability::PeerCertificate, first),
        answers(facts, Capability::PeerCertificateChain, chain),
    ensures
        facts.peer_certs is None ==> first is None && chain is None,
        match facts.peer_certs {
            Some(c) => c@.len() == 0 ==> first is None && chain is None,
            None => true,
        },
        match facts.peer_certs {
            Some(c) => c@.len() > 0 ==> (first matches Some(CapabilityValue::PeerCert(x))
                && chain matches Some(CapabilityValue::PeerCertChain(y)) && y@.len() == c@.len()
                && x@ == c@[0]@ && x@ == y@[0]@),
            None => true,
        },
{
    if let Some(c) = facts.peer_certs {
        if c@.len() > 0 {
            if let Some(CapabilityValue::PeerCertChain(y)) = chain {
                assert(chain_view(y@).len() == chain_view(c@).len());
                assert(chain_view(y@)[0] == chain_view(c@)[0]);
            }
        }
    }
}

} // verus!

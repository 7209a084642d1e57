//! Configuration of the endpoint and decisions of its accept loop.
use vstd::prelude::*;
use vstd::string::StringExecFnsIsAscii;
use vstd::utf8::is_ascii_chars;

verus! {

/// The ALPN token of HTTP/3, `h3`.
pub open spec fn h3_alpn() -> Seq<u8> {
    seq![0x68u8, 0x33u8]
}

/// Limits the transport enforces on every connection.
pub struct TransportLimits {
    pub max_concurrent_bidi_streams: u32,
    pub max_concurrent_uni_streams: u32,
    pub max_idle_timeout_secs: u64,
    pub keep_alive_interval_secs: u64,
}

impl TransportLimits {
    /// At most 100 concurrent streams of each kind, connections idle for 30 s
    /// are closed, and a keep-alive goes out every 10 s.
    pub fn standard() -> (r: TransportLimits)
        ensures
            r.max_concurrent_bidi_streams == 100,
            r.max_concurrent_uni_streams == 100,
            r.max_idle_timeout_secs == 30,
            r.keep_alive_interval_secs == 10,
    {
        TransportLimits {
            max_concurrent_bidi_streams: 100,
            max_concurrent_uni_streams: 100,
            max_idle_timeout_secs: 30,
            keep_alive_interval_secs: 10,
        }
    }
}

/// A certificate, its private key, both DER-encoded, and the ALPN tokens that
/// the TLS handshake offers.
pub struct ServerIdentity {
    pub certificate: Vec<u8>,
    pub private_key: Vec<u8>,
    pub alpn_tokens: Vec<Vec<u8>>,
}

/// Why no identity could be made.
#[derive(Clone, Copy, Debug, PartialEq, Eq, Structural)]
pub enum IdentityError {
    /// Key generation or DER encoding failed.
    CertificateGeneration,
}

#[verifier::external_type_specification]
#[verifier::external_body]
pub struct ExRcgenError(rcgen::RcgenError);

/// Relies on rcgen::generate_simple_self_signed, then on the certificate's
/// serialize_der and serialize_private_key_der: a fresh key pair and a
/// self-signed certificate for these names, both DER-encoded, or rcgen's
/// error. rcgen writes each name that is not an IP address as an IA5 string,
/// which it asserts to be ASCII, so every name must be ASCII.
#[verifier::external_body]
fn self_signed_der(hostnames: Vec<String>) -> (r: Result<(Vec<u8>, Vec<u8>), rcgen::RcgenError>)
    requires
        all_ascii(hostnames@),
{
    let cert = rcgen::generate_simple_self_signed(hostnames)?;
    let der = cert.serialize_der()?;
    Ok((der, cert.serialize_private_key_der()))
}

/// Whether every name is ASCII text.
pub open spec fn all_ascii(names: Seq<String>) -> bool {
    forall|i: int| 0 <= i < names.len() ==> is_ascii_chars(#[trigger] names[i]@)
}

/// Makes a self-signed certificate and key for `hostnames`, offered with the
/// single ALPN token `h3`. Fails when a name is not ASCII, or when key
/// generation or encoding fails.
pub fn generate_identity(hostnames: Vec<String>) -> (r: Result<ServerIdentity, IdentityError>)
    ensures
        r matches Ok(id) ==> id.alpn_tokens.deep_view() == seq![h3_alpn()],
        !all_ascii(hostnames@) ==> r == Err::<ServerIdentity, IdentityError>(
            IdentityError::CertificateGeneration,
        ),
{
    let mut i: usize = 0;
    while i < hostnames.len()
        invariant
            i <= hostnames@.len(),
            forall|k: int| 0 <= k < i ==> is_ascii_chars(#[trigger] hostnames@[k]@),
        decreases hostnames@.len() - i,
    {
        if !hostnames[i].is_ascii() {
            return Err(IdentityError::CertificateGeneration);
        }
        i = i + 1;
    }
    let (certificate, private_key) = match self_signed_der(hostnames) {
        Ok(pair) => pair,
        Err(_) => return Err(IdentityError::CertificateGeneration),
    };
    let alpn_tokens = vec![vec![0x68u8, 0x33u8]];
    assert(alpn_tokens.deep_view() =~= seq![h3_alpn()]) by {
        assert(alpn_tokens.deep_view()[0] =~= h3_alpn());
    }
    Ok(ServerIdentity { certificate, private_key, alpn_tokens })
}

/// The identity of a server reached as `localhost`.
pub fn generate_self_signed_cert() -> (r: Result<ServerIdentity, IdentityError>)
    ensures
        r matches Ok(id) ==> id.alpn_tokens.deep_view() == seq![h3_alpn()],
{
    generate_identity(vec![String::from_str("localhost")])
}

/// What one attempt to accept a connection on the endpoint produced.
#[derive(Clone, Copy, Debug, PartialEq, Eq, Structural)]
pub enum EndpointEvent {
    /// A peer completed the handshake.
    Connected,
    /// A peer failed the handshake.
    HandshakeFailed,
    /// The endpoint stopped yielding connections.
    Closed,
}

/// What the accept loop does next.
#[derive(Clone, Copy, Debug, PartialEq, Eq, Structural)]
pub enum ServerAction {
    /// Run a session for the new connection on its own task, and accept again.
    Spawn,
    /// Log the failed handshake and accept again.
    Skip,
    /// Leave the accept loop.
    Stop,
}

/// The action for one endpoint event.
pub open spec fn server_action(e: EndpointEvent) -> ServerAction {
    match e {
        EndpointEvent::Connected => ServerAction::Spawn,
        EndpointEvent::HandshakeFailed => ServerAction::Skip,
        EndpointEvent::Closed => ServerAction::Stop,
    }
}

/// The actions of the accept loop on a run of events: one per event, up to
/// and including the first that stops it.
pub open spec fn server_actions(events: Seq<EndpointEvent>) -> Seq<ServerAction>
    decreases events.len(),
{
    if events.len() == 0 {
        Seq::empty()
    } else if server_action(events[0]) == ServerAction::Stop {
        seq![ServerAction::Stop]
    } else {
        seq![server_action(events[0])] + server_actions(events.drop_first())
    }
}

/// Decides what the accept loop does with one endpoint event: a connection
/// gets a session of its own, a failed handshake is skipped, and only the
/// end of the endpoint stops the loop.
pub fn on_endpoint_event(e: EndpointEvent) -> (r: ServerAction)
    ensures
        r == server_action(e),
{
    match e {
        EndpointEvent::Connected => ServerAction::Spawn,
        EndpointEvent::HandshakeFailed => ServerAction::Skip,
        EndpointEvent::Closed => ServerAction::Stop,
    }
}

/// Until the endpoint closes, the accept loop acts on every event and spawns
/// one session per connection, whatever failed before it: no handshake
/// failure stops it, and no connection's outcome is among its inputs.
pub proof fn lemma_accept_loop_continues(events: Seq<EndpointEvent>)
    requires
        forall|i: int| 0 <= i < events.len() ==> events[i] != EndpointEvent::Closed,
    ensures
        server_actions(events).len() == events.len(),
        forall|i: int|
            0 <= i < events.len() ==> (server_actions(events)[i] == ServerAction::Spawn
                <==> events[i] == EndpointEvent::Connected),
    decreases events.len(),
{
    if events.len() > 0 {
        let rest = events.drop_first();
        assert forall|i: int| 0 <= i < rest.len() implies rest[i] != EndpointEvent::Closed by {
            assert(rest[i] == events[i + 1]);
        }
        lemma_accept_loop_continues(rest);
        let acts = server_actions(events);
        assert(acts == seq![server_action(events[0])] + server_actions(rest));
        assert forall|i: int| 0 <= i < events.len() implies (acts[i] == ServerAction::Spawn
            <==> events[i] == EndpointEvent::Connected) by {
            if i > 0 {
                assert(acts[i] == server_actions(rest)[i - 1]);
                assert(events[i] == rest[i - 1]);
            }
        }
    }
}

} // verus!

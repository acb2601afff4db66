//! A handle-indexed WebSocket session library.
//!
//! A privileged host process owns every real connection; callers on the far
//! side of a trust boundary only ever hold opaque numeric handles and issue
//! commands against them.  This crate holds the verified core of that host:
//! the identifier generator, the certificate and socket registries, the
//! message codec, and the command dispatcher.  The asynchronous plumbing that
//! performs the actual TLS handshake and relays frames lives outside the
//! verified library and calls into it with plain values.

pub mod certificate;
pub mod codec;
pub mod ids;
pub mod options;
pub mod session;
pub mod socket;

pub use certificate::CertificateHandle;
pub use certificate::CertificateRegistry;
pub use certificate::TlsParseError;
pub use codec::CloseCode;
pub use codec::CloseFrame;
pub use codec::Message;
pub use codec::WireFrame;
pub use ids::IdGenerator;
pub use options::SocketOptions;
pub use options::SocketOptionsBuilder;
pub use session::SessionContext;
pub use socket::ConnectError;
pub use socket::ConnectionPlan;
pub use socket::SendMessageError;
pub use socket::SocketHandle;
pub use socket::SocketInstance;
pub use socket::SocketRegistry;

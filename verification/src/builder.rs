use vstd::prelude::*;

use tokio_tungstenite::Connector;

verus! {

/// The TLS connector of `tokio-tungstenite`, carried through unread.
#[verifier::external_type_specification]
#[verifier::external_body]
pub struct ExConnector(Connector);

/// Settings of the WebSocket plugin before it is built.
pub struct Builder {
    tls_connector: Option<Connector>,
}

impl Builder {
    /// The connector that client connections use for TLS, if one was set.
    pub closed spec fn connector(&self) -> Option<Connector> {
        self.tls_connector
    }

    /// A builder with no TLS connector.
    pub fn new() -> (b: Self)
        ensures
            b.connector() is None,
    {
        Builder { tls_connector: None }
    }

    /// Sets the TLS connector, replacing any set before.
    pub fn tls_connector(self, connector: Connector) -> (b: Self)
        ensures
            b.connector() == Some(connector),
    {
        let mut b = self;
        b.tls_connector = Some(connector);
        b
    }

    /// Hands out the TLS connector, if one was set.
    pub fn into_tls_connector(self) -> (c: Option<Connector>)
        ensures
            c == self.connector(),
    {
        self.tls_connector
    }
}

impl Default for Builder {
    fn default() -> (b: Self)
        ensures
            b.connector() is None,
    {
        Builder::new()
    }
}

} // verus!

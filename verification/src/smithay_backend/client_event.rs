//! Client connection descriptors: the metadata a backend knows about a newly
//! connected client, before the core registers it.

use vstd::prelude::*;

use crate::core_model::types::{BackendEvent, CoreClientId, ClientKind};
use crate::smithay_backend::surface_lifecycle::copy_opt_string;

verus! {

/// What is known about a connecting client.
#[derive(Debug, Clone, PartialEq, Eq)]
pub struct SmithayClientConnectionDescriptor {
    /// The client identity; `None` lets the core allocate one.
    pub client: Option<CoreClientId>,
    /// Where the client comes from.
    pub kind: ClientKind,
    /// Optional display name.
    pub name: Option<String>,
}

impl SmithayClientConnectionDescriptor {
    /// A Wayland placeholder client without identity or name.
    pub fn new() -> (r: Self)
        ensures
            r.client is None,
            r.kind == ClientKind::WaylandPlaceholder,
            r.name is None,
    {
        Self { client: None, kind: ClientKind::WaylandPlaceholder, name: None }
    }

    /// A Wayland placeholder client with the identity `client` and no name.
    pub fn with_client_id(client: CoreClientId) -> (r: Self)
        ensures
            r.client == Some(client),
            r.kind == ClientKind::WaylandPlaceholder,
            r.name is None,
    {
        Self { client: Some(client), kind: ClientKind::WaylandPlaceholder, name: None }
    }

    /// The same descriptor with the display name `name`.
    pub fn with_name(self, name: &str) -> (r: Self)
        ensures
            r.client == self.client,
            r.kind == self.kind,
            r.name matches Some(n) && n@ == name@,
    {
        Self { client: self.client, kind: self.kind, name: Some(name.to_owned()) }
    }

    /// The same descriptor with the display name `name`, or none.
    pub fn with_optional_name(self, name: Option<String>) -> (r: Self)
        ensures
            r.client == self.client,
            r.kind == self.kind,
            r.name == name,
    {
        Self { client: self.client, kind: self.kind, name }
    }

    /// The backend event this descriptor becomes.
    pub fn to_event(&self) -> (r: BackendEvent)
        ensures
            r == (BackendEvent::ClientConnected {
                client: self.client,
                kind: self.kind,
                name: self.name,
            }),
    {
        BackendEvent::ClientConnected {
            client: self.client,
            kind: self.kind,
            name: copy_opt_string(&self.name),
        }
    }
}

} // verus!

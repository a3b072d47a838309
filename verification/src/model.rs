//! The configuration data model: hosts and their services.

use vstd::prelude::*;

verus! {

/// A single proxied service of a host: the sub-domain label, the URI
/// scheme used towards the upstream (stored verbatim, unvalidated),
/// and the upstream port.
#[derive(Debug)]
pub struct ServiceInfo {
    /// Sub-domain label of the service.
    pub name: String,
    /// Scheme used when forwarding to the upstream.
    pub forward_scheme: String,
    /// Upstream port.
    pub port: u16,
}

/// Mathematical view of a [`ServiceInfo`].
pub struct ServiceInfoView {
    pub name: Seq<char>,
    pub forward_scheme: Seq<char>,
    pub port: u16,
}

impl View for ServiceInfo {
    type V = ServiceInfoView;

    open spec fn view(&self) -> ServiceInfoView {
        ServiceInfoView {
            name: self.name@,
            forward_scheme: self.forward_scheme@,
            port: self.port,
        }
    }
}

/// A host: the public DNS suffix shared by its services, the upstream
/// address (a literal address or a server-side variable token, opaque
/// here), and the services in document order.
#[derive(Debug)]
pub struct HostInfo {
    /// Public DNS suffix for the host's services.
    pub domain: String,
    /// Upstream address the services forward to.
    pub forward_server: String,
    /// Services of the host, in document order.
    pub services: Vec<ServiceInfo>,
}

/// Mathematical view of a [`HostInfo`].
pub struct HostInfoView {
    pub domain: Seq<char>,
    pub forward_server: Seq<char>,
    pub services: Seq<ServiceInfoView>,
}

impl View for HostInfo {
    type V = HostInfoView;

    open spec fn view(&self) -> HostInfoView {
        HostInfoView {
            domain: self.domain@,
            forward_server: self.forward_server@,
            services: self.services@.map_values(|s: ServiceInfo| s@),
        }
    }
}

/// View of a loaded document: host name and host definition, in
/// document order.
pub open spec fn hosts_view(hosts: Seq<(String, HostInfo)>) -> Seq<(Seq<char>, HostInfoView)> {
    hosts.map_values(|p: (String, HostInfo)| (p.0@, p.1@))
}

/// Host names are unique within a document.
pub open spec fn host_names_unique(hosts: Seq<(Seq<char>, HostInfoView)>) -> bool {
    forall|i: int, j: int| 0 <= i < j < hosts.len() ==> hosts[i].0 != hosts[j].0
}

} // verus!

//! Messages between clients and the DNS resolver V-Node.
use vstd::prelude::*;

verus! {

/// A request to the resolver.
#[derive(Debug)]
pub enum DnsRequest {
    ResolveHostname { hostname: String },
}

/// The resolver's answer.
#[derive(Debug)]
pub enum DnsResponse {
    ResolvedHostname { hostname: String, ip_address: [u8; 4] },
    NotFound { query: String },
}

/// The model of an answer.
pub enum DnsResponseView {
    ResolvedHostname { hostname: Seq<char>, ip_address: [u8; 4] },
    NotFound { query: Seq<char> },
}

impl View for DnsResponse {
    type V = DnsResponseView;

    open spec fn view(&self) -> DnsResponseView {
        match self {
            DnsResponse::ResolvedHostname { hostname, ip_address } => DnsResponseView::ResolvedHostname {
                hostname: hostname@,
                ip_address: *ip_address,
            },
            DnsResponse::NotFound { query } => DnsResponseView::NotFound { query: query@ },
        }
    }
}

} // verus!

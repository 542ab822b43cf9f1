use vstd::prelude::*;
use vstd::string::StringExecFns;

verus! {

/// The DNS record types that a target can track.
#[derive(Debug, Clone, Copy, PartialEq, Eq, Structural)]
pub enum Protocol {
    A,
    AAAA,
}

/// The text by which the provider names a record type.
pub open spec fn protocol_name(p: Protocol) -> Seq<char> {
    match p {
        Protocol::A => seq!['A'],
        Protocol::AAAA => seq!['A', 'A', 'A', 'A'],
    }
}

impl Protocol {
    /// The provider's name of this record type, as used in queries and
    /// compared against the type of a listed record.
    pub fn to_string(&self) -> (r: String)
        ensures
            r@ == protocol_name(*self),
    {
        match self {
            Protocol::A => {
                let r = String::from_str("A");
                proof {
                    reveal_strlit("A");
                    assert(r@ =~= seq!['A']);
                }
                r
            },
            Protocol::AAAA => {
                let r = String::from_str("AAAA");
                proof {
                    reveal_strlit("AAAA");
                    assert(r@ =~= seq!['A', 'A', 'A', 'A']);
                }
                r
            },
        }
    }
}

/// A DNS record that should track the local address: the record's name, its
/// type, and the zone that holds it.
#[derive(Debug, Clone)]
pub struct UpdateTarget {
    pub domain: String,
    pub record_type: Protocol,
    pub zone_id: String,
}

/// What the updater is configured with: the provider's token, the targets in
/// the order they are reconciled, and the seconds between passes.
#[derive(Debug, Clone)]
pub struct AppConfig {
    pub interval_s: u64,
    pub api_token: String,
    pub update_targets: Vec<UpdateTarget>,
}

/// The content, name and type of a record update.
#[derive(Debug, Clone)]
pub struct CloudFlareDNSUpdateRequest {
    pub content: String,
    pub name: String,
    pub ttype: String,
}

/// The provider's answer to a listing of records.
#[derive(Debug, Clone)]
pub struct CloudFlareDNSListResponse {
    pub success: bool,
    pub result: Vec<CloudFlareDNSListResponseResult>,
}

/// Paging information of a listing.
#[derive(Debug, Clone)]
pub struct CloudFlareDNSListResponsePages {
    pub count: i32,
    pub page: i32,
    pub per_page: i32,
    pub total_count: i32,
}

/// One record as the provider reports it.
#[derive(Debug, Clone)]
pub struct CloudFlareDNSListResponseResult {
    pub content: String,
    pub name: String,
    pub proxied: bool,
    pub comment: Option<String>,
    pub ttype: String,
    pub created_on: String,
    pub id: String,
    pub zone_id: String,
    pub zone_name: String,
}

/// The body of an update of one record: its new content, name and type, and
/// its identifier.
#[derive(Debug, Clone)]
pub struct CloudFlareUpdateDNSRequest {
    pub content: String,
    pub name: String,
    pub ttype: String,
    pub id: String,
}

/// The fields of an update request as text.
pub struct UpdateRequestView {
    pub content: Seq<char>,
    pub name: Seq<char>,
    pub ttype: Seq<char>,
    pub id: Seq<char>,
}

impl View for CloudFlareUpdateDNSRequest {
    type V = UpdateRequestView;

    open spec fn view(&self) -> UpdateRequestView {
        UpdateRequestView {
            content: self.content@,
            name: self.name@,
            ttype: self.ttype@,
            id: self.id@,
        }
    }
}

} // verus!

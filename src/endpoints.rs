use vstd::prelude::*;
use vstd::string::StringExecFns;

use crate::records::{protocol_name, Protocol};

verus! {

/// Where the provider's zones are found.
pub open spec fn zones_base() -> Seq<char> {
    "https://api.cloudflare.com/client/v4/zones/"@
}

/// Where the records of a zone are listed.
pub open spec fn records_url_of(zone_id: Seq<char>) -> Seq<char> {
    zones_base() + zone_id + "/dns_records"@
}

/// Where one record of a zone is updated.
pub open spec fn record_url_of(zone_id: Seq<char>, record_id: Seq<char>) -> Seq<char> {
    records_url_of(zone_id) + "/"@ + record_id
}

/// The value of the authorization header for a token.
pub open spec fn bearer_of(token: Seq<char>) -> Seq<char> {
    "Bearer "@ + token
}

/// The address that lists the records of zone `zone_id`.
pub fn records_url(zone_id: &String) -> (r: String)
    ensures
        r@ == records_url_of(zone_id@),
{
    let mut r = String::from_str("https://api.cloudflare.com/client/v4/zones/");
    r.append(zone_id.as_str());
    r.append("/dns_records");
    proof {
        reveal_strlit("https://api.cloudflare.com/client/v4/zones/");
        reveal_strlit("/dns_records");
    }
    r
}

/// The address that updates record `record_id` of zone `zone_id`.
pub fn record_url(zone_id: &String, record_id: &String) -> (r: String)
    ensures
        r@ == record_url_of(zone_id@, record_id@),
{
    let mut r = records_url(zone_id);
    r.append("/");
    r.append(record_id.as_str());
    proof {
        reveal_strlit("/");
    }
    r
}

/// The authorization header value that carries `token`.
pub fn bearer(token: &String) -> (r: String)
    ensures
        r@ == bearer_of(token@),
{
    let mut r = String::from_str("Bearer ");
    r.append(token.as_str());
    proof {
        reveal_strlit("Bearer ");
    }
    r
}

/// The query of a listing: every one of type and name must match.
pub fn list_query(record_type: Protocol, domain: &String) -> (q: Vec<(String, String)>)
    ensures
        q@.len() == 3,
        q@[0].0@ == "match"@ && q@[0].1@ == "all"@,
        q@[1].0@ == "type"@ && q@[1].1@ == protocol_name(record_type),
        q@[2].0@ == "name"@ && q@[2].1@ == domain@,
{
    let mut q: Vec<(String, String)> = Vec::new();
    q.push((String::from_str("match"), String::from_str("all")));
    q.push((String::from_str("type"), record_type.to_string()));
    q.push((String::from_str("name"), domain.clone()));
    q
}

} // verus!

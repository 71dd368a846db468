//! The DNS record as the provider reports it, the record the loop manages,
//! and the body of an update request.
use vstd::prelude::*;

verus! {

/// The `result` part of the provider's answer to a record read.
pub struct ApiResult {
    pub id: String,
    pub zone_id: String,
    pub zone_name: String,
    pub name: String,
    pub content: String,
}

/// The provider's answer to a record read.
pub struct ApiResponse {
    pub result: ApiResult,
    pub success: bool,
    pub errors: Vec<String>,
    pub messages: Vec<String>,
}

/// The one record that the loop keeps in step with the interface.
///
/// `current_content` is the value the provider is known to hold: it is read
/// once at start-up and afterwards changed only after a confirmed write.
pub struct ManagedRecord {
    pub record_id: String,
    pub domain_name: String,
    pub current_content: String,
}

/// The body of a record update request.
pub struct RecordUpdate {
    pub record_type: String,
    pub name: String,
    pub content: String,
    pub ttl: u32,
    pub proxied: bool,
    pub comment: String,
}

/// The plain-value form of a record update.
pub struct UpdateView {
    pub record_type: Seq<char>,
    pub name: Seq<char>,
    pub content: Seq<char>,
    pub ttl: u32,
    pub proxied: bool,
    pub comment: Seq<char>,
}

impl View for RecordUpdate {
    type V = UpdateView;

    open spec fn view(&self) -> UpdateView {
        UpdateView {
            record_type: self.record_type@,
            name: self.name@,
            content: self.content@,
            ttl: self.ttl,
            proxied: self.proxied,
            comment: self.comment@,
        }
    }
}

/// Time to live that asks the provider for its automatic choice.
pub const AUTOMATIC_TTL: u32 = 1;

/// The update that points the address record `domain` at `content`: an
/// AAAA record, automatic time to live, not proxied.
pub open spec fn update_for(domain: Seq<char>, content: Seq<char>) -> UpdateView {
    UpdateView {
        record_type: "AAAA"@,
        name: domain,
        content,
        ttl: AUTOMATIC_TTL,
        proxied: false,
        comment: "Wireguard redirection record"@,
    }
}

/// The update request that points the address record `domain` at `content`.
pub fn update_request(domain: &str, content: &str) -> (r: RecordUpdate)
    ensures
        r@ == update_for(domain@, content@),
{
    RecordUpdate {
        record_type: String::from_str("AAAA"),
        name: String::from_str(domain),
        content: String::from_str(content),
        ttl: AUTOMATIC_TTL,
        proxied: false,
        comment: String::from_str("Wireguard redirection record"),
    }
}

/// The base address of a zone's DNS records: `<base_url>/<zone_id>/dns_records/`.
/// A record's own address is this followed by the record identifier.
pub fn records_endpoint(base_url: &str, zone_id: &str) -> (r: String)
    ensures
        r@ == base_url@ + "/"@ + zone_id@ + "/dns_records/"@,
{
    let mut s = String::from_str(base_url);
    s.append("/");
    s.append(zone_id);
    s.append("/dns_records/");
    s
}

impl ManagedRecord {
    /// The managed record as read from the provider at start-up.
    pub fn from_response(resp: ApiResponse) -> (r: ManagedRecord)
        ensures
            r.record_id@ == resp.result.id@,
            r.domain_name@ == resp.result.name@,
            r.current_content@ == resp.result.content@,
    {
        ManagedRecord {
            record_id: resp.result.id,
            domain_name: resp.result.name,
            current_content: resp.result.content,
        }
    }
}

} // verus!

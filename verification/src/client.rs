//! The provider client: configuration, endpoint URLs, and the verified
//! halves of the four provider operations. The surrounding binary
//! performs the HTTP exchange; every list search and request body is
//! computed here.

use vstd::prelude::*;
use vstd::string::*;

use crate::api::{
    build_create_request, build_update_request, comment_of, ClientError, DnsRecord, RecordRequest,
    RecordType, Zone,
};
use crate::clock::local_timestamp;
use crate::domain::{registrable_domain, registrable_of};

verus! {

/// Index of the first zone whose name equals `name`, if any.
pub open spec fn first_zone_match(zones: Seq<Zone>, name: Seq<char>) -> Option<int>
    decreases zones.len(),
{
    if zones.len() == 0 {
        None
    } else if zones[0].name@ == name {
        Some(0int)
    } else {
        match first_zone_match(zones.drop_first(), name) {
            Some(i) => Some(i + 1),
            None => None,
        }
    }
}

/// Index of the first record whose name equals `name`, if any.
pub open spec fn first_record_match(records: Seq<DnsRecord>, name: Seq<char>) -> Option<int>
    decreases records.len(),
{
    if records.len() == 0 {
        None
    } else if records[0].name@ == name {
        Some(0int)
    } else {
        match first_record_match(records.drop_first(), name) {
            Some(i) => Some(i + 1),
            None => None,
        }
    }
}

proof fn lemma_first_zone_match_found(zones: Seq<Zone>, name: Seq<char>, k: int)
    requires
        0 <= k < zones.len(),
        zones[k].name@ == name,
        forall|j: int| 0 <= j < k ==> zones[j].name@ != name,
    ensures
        first_zone_match(zones, name) == Some(k),
    decreases k,
{
    if k > 0 {
        lemma_first_zone_match_found(zones.drop_first(), name, k - 1);
    }
}

proof fn lemma_first_zone_match_none(zones: Seq<Zone>, name: Seq<char>)
    requires
        forall|j: int| 0 <= j < zones.len() ==> zones[j].name@ != name,
    ensures
        first_zone_match(zones, name) is None,
    decreases zones.len(),
{
    if zones.len() > 0 {
        lemma_first_zone_match_none(zones.drop_first(), name);
    }
}

proof fn lemma_first_record_match_found(records: Seq<DnsRecord>, name: Seq<char>, k: int)
    requires
        0 <= k < records.len(),
        records[k].name@ == name,
        forall|j: int| 0 <= j < k ==> records[j].name@ != name,
    ensures
        first_record_match(records, name) == Some(k),
    decreases k,
{
    if k > 0 {
        lemma_first_record_match_found(records.drop_first(), name, k - 1);
    }
}

proof fn lemma_first_record_match_none(records: Seq<DnsRecord>, name: Seq<char>)
    requires
        forall|j: int| 0 <= j < records.len() ==> records[j].name@ != name,
    ensures
        first_record_match(records, name) is None,
    decreases records.len(),
{
    if records.len() > 0 {
        lemma_first_record_match_none(records.drop_first(), name);
    }
}

/// Picks the id of the first zone named like the registrable domain of
/// `domain`, or reports that none matches.
pub(crate) fn lookup_zone_id(zones: &Vec<Zone>, domain: &str) -> (r: Result<String, ClientError>)
    ensures
        first_zone_match(zones@, registrable_of(domain@)) matches Some(i) ==> r matches Ok(id)
            && id@ == zones@[i].id@,
        first_zone_match(zones@, registrable_of(domain@)) is None ==> r == Err::<
            String,
            ClientError,
        >(ClientError::ZoneNotFound),
{
    let apex = registrable_domain(domain);
    let n = zones.len();
    let mut k: usize = 0;
    while k < n
        invariant
            n == zones@.len(),
            0 <= k <= n,
            apex@ == registrable_of(domain@),
            forall|j: int| 0 <= j < k ==> zones@[j].name@ != apex@,
        decreases n - k,
    {
        if zones[k].name == apex {
            proof {
                lemma_first_zone_match_found(zones@, apex@, k as int);
            }
            return Ok(zones[k].id.clone());
        }
        k = k + 1;
    }
    proof {
        lemma_first_zone_match_none(zones@, apex@);
    }
    Err(ClientError::ZoneNotFound)
}

/// Picks the first record whose name equals `domain` exactly, or
/// reports that none matches.
pub(crate) fn lookup_record(records: &Vec<DnsRecord>, domain: &str) -> (r: Result<
    DnsRecord,
    ClientError,
>)
    ensures
        first_record_match(records@, domain@) matches Some(i) ==> r matches Ok(rec) && rec
            == records@[i],
        first_record_match(records@, domain@) is None ==> (r matches Err(e) && e
            == ClientError::RecordNotFound),
{
    let target = String::from_str(domain);
    let n = records.len();
    let mut k: usize = 0;
    while k < n
        invariant
            n == records@.len(),
            0 <= k <= n,
            target@ == domain@,
            forall|j: int| 0 <= j < k ==> records@[j].name@ != target@,
        decreases n - k,
    {
        if records[k].name == target {
            proof {
                lemma_first_record_match_found(records@, target@, k as int);
            }
            return Ok(records[k].clone());
        }
        k = k + 1;
    }
    proof {
        lemma_first_record_match_none(records@, target@);
    }
    Err(ClientError::RecordNotFound)
}

/// The provider client's immutable configuration: the bearer token and
/// the API base URL.
pub struct Cloudflare {
    pub token: String,
    pub base_url: String,
}

impl Cloudflare {
    pub fn new(token: String, _domain: String) -> (r: Self)
        ensures
            r.token@ == token@,
            r.base_url@ == "https://api.cloudflare.com/client/v4"@,
    {
        Cloudflare { token, base_url: String::from_str("https://api.cloudflare.com/client/v4") }
    }

    /// The zone-list endpoint.
    pub fn zones_url(&self) -> (r: String)
        ensures
            r@ == self.base_url@ + "/zones"@,
    {
        let mut s = self.base_url.clone();
        s.append("/zones");
        s
    }

    /// The record-list and record-create endpoint of one zone.
    pub fn records_url(&self, zone_id: &str) -> (r: String)
        ensures
            r@ == self.base_url@ + "/zones/"@ + zone_id@ + "/dns_records"@,
    {
        let mut s = self.base_url.clone();
        s.append("/zones/");
        s.append(zone_id);
        s.append("/dns_records");
        s
    }

    /// The update endpoint of one record.
    pub fn record_url(&self, zone_id: &str, record_id: &str) -> (r: String)
        ensures
            r@ == self.base_url@ + "/zones/"@ + zone_id@ + "/dns_records/"@ + record_id@,
    {
        let mut s = self.base_url.clone();
        s.append("/zones/");
        s.append(zone_id);
        s.append("/dns_records/");
        s.append(record_id);
        s
    }

    /// Resolves the zone id for `domain` out of the provider's zone
    /// list: the first zone named like the registrable domain wins;
    /// with no such zone the lookup fails with `ZoneNotFound`.
    pub fn get_zone_id(&self, zones: &Vec<Zone>, domain: &str) -> (r: Result<String, ClientError>)
        ensures
            first_zone_match(zones@, registrable_of(domain@)) matches Some(i) ==> r matches Ok(id)
                && id@ == zones@[i].id@,
            first_zone_match(zones@, registrable_of(domain@)) is None ==> r == Err::<
                String,
                ClientError,
            >(ClientError::ZoneNotFound),
    {
        lookup_zone_id(zones, domain)
    }

    /// Picks the managed record out of the zone's record list: the
    /// first record whose name equals `domain` exactly; with no such
    /// record the lookup fails with `RecordNotFound`.
    pub fn get_record(&self, records: &Vec<DnsRecord>, domain: &str) -> (r: Result<
        DnsRecord,
        ClientError,
    >)
        ensures
            first_record_match(records@, domain@) matches Some(i) ==> r matches Ok(rec) && rec
                == records@[i],
            first_record_match(records@, domain@) is None ==> (r matches Err(e) && e
                == ClientError::RecordNotFound),
    {
        lookup_record(records, domain)
    }

    /// The body of a create request for a fresh record: the requested
    /// type and proxy flag, a TTL of 3600 seconds, and a fresh audit
    /// comment.
    pub fn create_record(
        &self,
        domain: &str,
        ip: &str,
        record_type: RecordType,
        proxied: bool,
    ) -> (r: RecordRequest)
        ensures
            r.record_type@ == record_type.spec_str(),
            r.name@ == domain@,
            r.content@ == ip@,
            r.ttl == 3600,
            r.proxied == proxied,
            exists|ts: Seq<char>| r.comment@ == #[trigger] comment_of(ts),
    {
        let ts = local_timestamp();
        build_create_request(domain, ip, record_type, proxied, ts.as_str())
    }

    /// The body of an update request: `record_type`, `name`, `ttl` and
    /// `proxied` are copied from the existing record, `content` becomes
    /// the new address, and the audit comment is regenerated.
    pub fn update_record(&self, ip: &str, existing: &DnsRecord) -> (r: RecordRequest)
        ensures
            r.record_type@ == existing.record_type@,
            r.name@ == existing.name@,
            r.ttl == existing.ttl,
            r.proxied == existing.proxied,
            r.content@ == ip@,
            exists|ts: Seq<char>| r.comment@ == #[trigger] comment_of(ts),
    {
        let ts = local_timestamp();
        build_update_request(ip, existing, ts.as_str())
    }
}

} // verus!

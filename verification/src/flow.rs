//! The reconciliation procedure as a state machine. One run walks the
//! phases in order — list zones, look up the public IP, fetch the
//! zone's records, then update or create — and every decision between
//! two provider calls is taken here, by `step`. The surrounding binary
//! only performs the action handed back and feeds in the next event.

use vstd::prelude::*;
use vstd::string::*;

use crate::api::{
    build_create_request, build_update_request, comment_of, ClientError, DnsRecord, RecordRequest,
    RecordType, Zone,
};
use crate::client::{first_record_match, first_zone_match, lookup_record, lookup_zone_id};
use crate::clock::local_timestamp;
use crate::domain::registrable_of;
use crate::text::{trim_of, trim_text};

verus! {

/// The immutable inputs of one run.
pub struct Config {
    pub domain: String,
    pub ipv6: bool,
    pub proxied: bool,
}

/// Where the run stands.
pub enum Phase {
    ListingZones,
    LookingUpIp { zone_id: String },
    FetchingRecords { zone_id: String, ip: String },
    SavingRecord { zone_id: String, ip: String },
    Done { name: String, content: String },
    Failed { error: ClientError },
}

/// What the outside world answered to the last action.
pub enum Event {
    ZonesListed { zones: Vec<Zone> },
    IpResolved { body: String },
    RecordsListed { records: Vec<DnsRecord> },
    RecordSaved { record: DnsRecord },
    CallFailed { error: ClientError },
}

/// What the runner must do next.
pub enum Action {
    ListZones,
    LookupIp { ipv6: bool },
    ListRecords { zone_id: String },
    SendUpdate { zone_id: String, record_id: String, request: RecordRequest },
    SendCreate { zone_id: String, request: RecordRequest },
    Report { name: String, content: String },
    Abort { error: ClientError },
}

/// Which events can answer which phase. `Done` and `Failed` end the
/// run and take no further event.
pub open spec fn event_fits(phase: Phase, event: Event) -> bool {
    match phase {
        Phase::ListingZones => event is ZonesListed || event is CallFailed,
        Phase::LookingUpIp { .. } => event is IpResolved || event is CallFailed,
        Phase::FetchingRecords { .. } => event is RecordsListed || event is CallFailed,
        Phase::SavingRecord { .. } => event is RecordSaved || event is CallFailed,
        Phase::Done { .. } => false,
        Phase::Failed { .. } => false,
    }
}

/// A run begins by asking for the zone list.
pub fn start() -> (r: (Phase, Action))
    ensures
        r.0 is ListingZones,
        r.1 is ListZones,
{
    (Phase::ListingZones, Action::ListZones)
}

/// Moves to `SavingRecord` with a create request for a fresh record of
/// the configured type and proxy flag.
fn plan_create(config: &Config, zone_id: String, ip: String) -> (r: (Phase, Action))
    ensures
        r.0 matches Phase::SavingRecord { zone_id: pz, ip: pip } && pz@ == zone_id@ && pip@
            == ip@,
        r.1 matches Action::SendCreate { zone_id: az, request } && az@ == zone_id@
            && request.record_type@ == (if config.ipv6 {
            RecordType::AAAA
        } else {
            RecordType::A
        }).spec_str() && request.name@ == config.domain@ && request.content@ == ip@ && request.ttl
            == 3600 && request.proxied == config.proxied && (exists|ts: Seq<char>|
            request.comment@ == #[trigger] comment_of(ts)),
{
    let record_type = if config.ipv6 {
        RecordType::AAAA
    } else {
        RecordType::A
    };
    let ts = local_timestamp();
    let request = build_create_request(
        config.domain.as_str(),
        ip.as_str(),
        record_type,
        config.proxied,
        ts.as_str(),
    );
    let phase_zone = zone_id.clone();
    (
        Phase::SavingRecord { zone_id: phase_zone, ip },
        Action::SendCreate { zone_id, request },
    )
}

/// Moves to `SavingRecord` with an update request that preserves the
/// existing record's type, name, TTL and proxy flag.
fn plan_update(config: &Config, zone_id: String, ip: String, existing: DnsRecord) -> (r: (
    Phase,
    Action,
))
    ensures
        r.0 matches Phase::SavingRecord { zone_id: pz, ip: pip } && pz@ == zone_id@ && pip@
            == ip@,
        r.1 matches Action::SendUpdate { zone_id: az, record_id, request } && az@ == zone_id@
            && record_id@ == existing.id@ && request.record_type@ == existing.record_type@
            && request.name@ == existing.name@ && request.ttl == existing.ttl && request.proxied
            == existing.proxied && request.content@ == ip@ && (exists|ts: Seq<char>|
            request.comment@ == #[trigger] comment_of(ts)),
{
    let ts = local_timestamp();
    let request = build_update_request(ip.as_str(), &existing, ts.as_str());
    let phase_zone = zone_id.clone();
    (
        Phase::SavingRecord { zone_id: phase_zone, ip },
        Action::SendUpdate { zone_id, record_id: existing.id, request },
    )
}

/// One decision of the run: takes the phase the run stands in and the
/// event the outside world answered, and returns the next phase with
/// the next action. A failed record fetch — like an empty fetch — falls
/// through to creating the record; every other failure aborts the run.
pub fn step(config: &Config, phase: Phase, event: Event) -> (r: (Phase, Action))
    requires
        event_fits(phase, event),
    ensures
        match (phase, event) {
            (Phase::ListingZones, Event::ZonesListed { zones }) => match first_zone_match(
                zones@,
                registrable_of(config.domain@),
            ) {
                Some(i) => {
                    &&& r.0 matches Phase::LookingUpIp { zone_id } && zone_id@ == zones@[i].id@
                    &&& r.1 matches Action::LookupIp { ipv6 } && ipv6 == config.ipv6
                },
                None => {
                    &&& r.0 matches Phase::Failed { error } && error == ClientError::ZoneNotFound
                    &&& r.1 matches Action::Abort { error } && error == ClientError::ZoneNotFound
                },
            },
            (Phase::LookingUpIp { zone_id }, Event::IpResolved { body }) => {
                &&& r.0 matches Phase::FetchingRecords { zone_id: pz, ip } && pz@ == zone_id@
                    && ip@ == trim_of(body@)
                &&& r.1 matches Action::ListRecords { zone_id: az } && az@ == zone_id@
            },
            (
                Phase::FetchingRecords { zone_id, ip },
                Event::RecordsListed { records },
            ) => match first_record_match(records@, config.domain@) {
                Some(i) => {
                    &&& r.0 matches Phase::SavingRecord { zone_id: pz, ip: pip } && pz@ == zone_id@
                        && pip@ == ip@
                    &&& r.1 matches Action::SendUpdate { zone_id: az, record_id, request } && az@
                        == zone_id@ && record_id@ == records@[i].id@ && request.record_type@
                        == records@[i].record_type@ && request.name@ == records@[i].name@
                        && request.ttl == records@[i].ttl && request.proxied
                        == records@[i].proxied && request.content@ == ip@
                },
                None => {
                    &&& r.0 matches Phase::SavingRecord { zone_id: pz, ip: pip } && pz@ == zone_id@
                        && pip@ == ip@
                    &&& r.1 matches Action::SendCreate { zone_id: az, request } && az@ == zone_id@
                        && request.record_type@ == (if config.ipv6 {
                        RecordType::AAAA
                    } else {
                        RecordType::A
                    }).spec_str() && request.name@ == config.domain@ && request.content@ == ip@
                        && request.ttl == 3600 && request.proxied == config.proxied
                },
            },
            (Phase::FetchingRecords { zone_id, ip }, Event::CallFailed { .. }) => {
                &&& r.0 matches Phase::SavingRecord { zone_id: pz, ip: pip } && pz@ == zone_id@
                    && pip@ == ip@
                &&& r.1 matches Action::SendCreate { zone_id: az, request } && az@ == zone_id@
                    && request.record_type@ == (if config.ipv6 {
                    RecordType::AAAA
                } else {
                    RecordType::A
                }).spec_str() && request.name@ == config.domain@ && request.content@ == ip@
                    && request.ttl == 3600 && request.proxied == config.proxied
            },
            (Phase::SavingRecord { .. }, Event::RecordSaved { record }) => {
                &&& r.0 matches Phase::Done { name, content } && name@ == record.name@ && content@
                    == record.content@
                &&& r.1 matches Action::Report { name, content } && name@ == record.name@
                    && content@ == record.content@
            },
            (_, Event::CallFailed { error }) => {
                &&& r.0 matches Phase::Failed { error: pe } && pe == error
                &&& r.1 matches Action::Abort { error: ae } && ae == error
            },
            _ => true,
        },
{
    match (phase, event) {
        (Phase::ListingZones, Event::ZonesListed { zones }) => {
            match lookup_zone_id(&zones, config.domain.as_str()) {
                Ok(zone_id) => (
                    Phase::LookingUpIp { zone_id },
                    Action::LookupIp { ipv6: config.ipv6 },
                ),
                Err(error) => {
                    let action_error = error.clone();
                    (Phase::Failed { error }, Action::Abort { error: action_error })
                },
            }
        },
        (Phase::LookingUpIp { zone_id }, Event::IpResolved { body }) => {
            let ip = trim_text(body.as_str());
            let action_zone = zone_id.clone();
            (
                Phase::FetchingRecords { zone_id, ip },
                Action::ListRecords { zone_id: action_zone },
            )
        },
        (Phase::FetchingRecords { zone_id, ip }, Event::RecordsListed { records }) => {
            match lookup_record(&records, config.domain.as_str()) {
                Ok(existing) => plan_update(config, zone_id, ip, existing),
                Err(_) => plan_create(config, zone_id, ip),
            }
        },
        (Phase::FetchingRecords { zone_id, ip }, Event::CallFailed { .. }) => {
            plan_create(config, zone_id, ip)
        },
        (Phase::SavingRecord { .. }, Event::RecordSaved { record }) => {
            let reported_name = record.name.clone();
            let reported_content = record.content.clone();
            (
                Phase::Done { name: record.name, content: record.content },
                Action::Report { name: reported_name, content: reported_content },
            )
        },
        (_, Event::CallFailed { error }) => {
            let action_error = error.clone();
            (Phase::Failed { error }, Action::Abort { error: action_error })
        },
        _ => unreached(),
    }
}

} // verus!

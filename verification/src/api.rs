//! The provider API model: record and zone values, the response
//! envelope, the failure taxonomy with its human-readable messages, and
//! the bodies of create/update requests.

use vstd::prelude::*;
use vstd::string::*;

use crate::text::{contains_seq, dec_rep, decimal_string, lemma_contains_at};

verus! {

/// The two record kinds the updater manages.
#[derive(Debug, Clone, Copy, PartialEq, Eq, Structural)]
pub enum RecordType {
    A,
    AAAA,
}

impl RecordType {
    /// The wire name of the record kind.
    pub open spec fn spec_str(self) -> Seq<char> {
        match self {
            RecordType::A => "A"@,
            RecordType::AAAA => "AAAA"@,
        }
    }

    pub fn as_str(&self) -> (r: &'static str)
        ensures
            r@ == self.spec_str(),
    {
        match self {
            RecordType::A => "A",
            RecordType::AAAA => "AAAA",
        }
    }
}

/// One provider-side zone: a container of records for a registrable
/// domain.
#[derive(Debug)]
pub struct Zone {
    pub id: String,
    pub name: String,
}

impl Clone for Zone {
    fn clone(&self) -> (r: Self)
        ensures
            r == *self,
    {
        Zone { id: self.id.clone(), name: self.name.clone() }
    }
}

/// One provider-side DNS entry.
#[derive(Debug)]
pub struct DnsRecord {
    pub id: String,
    pub record_type: String,
    pub name: String,
    pub content: String,
    pub ttl: u32,
    pub proxied: bool,
}

impl Clone for DnsRecord {
    fn clone(&self) -> (r: Self)
        ensures
            r == *self,
    {
        DnsRecord {
            id: self.id.clone(),
            record_type: self.record_type.clone(),
            name: self.name.clone(),
            content: self.content.clone(),
            ttl: self.ttl,
            proxied: self.proxied,
        }
    }
}

/// One `(code, message)` pair from the provider's error list.
#[derive(Debug)]
pub struct ApiError {
    pub code: u32,
    pub message: String,
}

impl Clone for ApiError {
    fn clone(&self) -> (r: Self)
        ensures
            r == *self,
    {
        ApiError { code: self.code, message: self.message.clone() }
    }
}

/// The body of a create or update request: everything the provider
/// needs to write one record.
#[derive(Debug)]
pub struct RecordRequest {
    pub record_type: String,
    pub name: String,
    pub content: String,
    pub ttl: u32,
    pub proxied: bool,
    pub comment: String,
}

impl Clone for RecordRequest {
    fn clone(&self) -> (r: Self)
        ensures
            r == *self,
    {
        RecordRequest {
            record_type: self.record_type.clone(),
            name: self.name.clone(),
            content: self.content.clone(),
            ttl: self.ttl,
            proxied: self.proxied,
            comment: self.comment.clone(),
        }
    }
}

/// Everything that can end a run early.
#[derive(Debug)]
pub enum ClientError {
    /// The network call itself failed; carries the transport's own
    /// description.
    Transport { message: String },
    /// A non-2xx HTTP status; `detail` holds the provider's first
    /// error pair when the status was 400 and the body parsed.
    HttpStatus { status: u16, detail: Option<ApiError> },
    /// A 2xx response whose envelope said `success == false`.
    ProviderApi { detail: Option<ApiError> },
    /// The response body did not match the expected envelope schema.
    Parse { context: String },
    /// No zone is named like the registrable domain.
    ZoneNotFound,
    /// No record in the zone is named like the target domain.
    RecordNotFound,
    /// The IP echo service answered with a non-2xx status (`Some`) or
    /// could not be reached at all (`None`).
    IpLookup { status: Option<u16> },
}

impl Clone for ClientError {
    fn clone(&self) -> (r: Self)
        ensures
            r == *self,
    {
        match self {
            ClientError::Transport { message } => ClientError::Transport {
                message: message.clone(),
            },
            ClientError::HttpStatus { status, detail } => ClientError::HttpStatus {
                status: *status,
                detail: match detail {
                    Some(ae) => Some(ae.clone()),
                    None => None,
                },
            },
            ClientError::ProviderApi { detail } => ClientError::ProviderApi {
                detail: match detail {
                    Some(ae) => Some(ae.clone()),
                    None => None,
                },
            },
            ClientError::Parse { context } => ClientError::Parse { context: context.clone() },
            ClientError::ZoneNotFound => ClientError::ZoneNotFound,
            ClientError::RecordNotFound => ClientError::RecordNotFound,
            ClientError::IpLookup { status } => ClientError::IpLookup { status: *status },
        }
    }
}

/// The detail line appended to an HTTP 400 failure whose body carried a
/// provider error pair.
pub open spec fn detail_text(e: ApiError) -> Seq<char> {
    "\nDetails ("@ + dec_rep(e.code as nat) + "): "@ + e.message@ + " (is your token correct?)"@
}

/// The human-readable text of each failure.
pub open spec fn message_of(e: ClientError) -> Seq<char> {
    match e {
        ClientError::Transport { message } => message@,
        ClientError::HttpStatus { status, detail } => "HTTP error was received: "@ + dec_rep(
            status as nat,
        ) + match detail {
            Some(ae) => detail_text(ae),
            None => Seq::<char>::empty(),
        },
        ClientError::ProviderApi { detail } => match detail {
            Some(ae) => "API error "@ + dec_rep(ae.code as nat) + ": "@ + ae.message@,
            None => "Unknown API error"@,
        },
        ClientError::Parse { context } => "Failed to parse "@ + context@,
        ClientError::ZoneNotFound => "The specified domain wasn't found in the returned response - does the token have clearance to the DNS?"@,
        ClientError::RecordNotFound => "Got a zone token, but couldn't locate the domain. Is the subdomain correct?"@,
        ClientError::IpLookup { status } => match status {
            Some(st) => "Failure retrieving IP address: HTTP "@ + dec_rep(st as nat),
            None => "Failed to retrieve IP address"@,
        },
    }
}

impl ClientError {
    /// Renders the failure for the user.
    pub fn message(&self) -> (r: String)
        ensures
            r@ == message_of(*self),
    {
        match self {
            ClientError::Transport { message } => message.clone(),
            ClientError::HttpStatus { status, detail } => {
                let mut s = String::from_str("HTTP error was received: ");
                s.append(decimal_string(*status as u32).as_str());
                match detail {
                    Some(ae) => {
                        s.append("\nDetails (");
                        s.append(decimal_string(ae.code).as_str());
                        s.append("): ");
                        s.append(ae.message.as_str());
                        s.append(" (is your token correct?)");
                    },
                    None => {},
                }
                proof {
                    assert(s@ =~= message_of(*self));
                }
                s
            },
            ClientError::ProviderApi { detail } => {
                match detail {
                    Some(ae) => {
                        let mut s = String::from_str("API error ");
                        s.append(decimal_string(ae.code).as_str());
                        s.append(": ");
                        s.append(ae.message.as_str());
                        proof {
                            assert(s@ =~= message_of(*self));
                        }
                        s
                    },
                    None => String::from_str("Unknown API error"),
                }
            },
            ClientError::Parse { context } => {
                let mut s = String::from_str("Failed to parse ");
                s.append(context.as_str());
                s
            },
            ClientError::ZoneNotFound => String::from_str(
                "The specified domain wasn't found in the returned response - does the token have clearance to the DNS?",
            ),
            ClientError::RecordNotFound => String::from_str(
                "Got a zone token, but couldn't locate the domain. Is the subdomain correct?",
            ),
            ClientError::IpLookup { status } => {
                match status {
                    Some(st) => {
                        let mut s = String::from_str("Failure retrieving IP address: HTTP ");
                        s.append(decimal_string(*st as u32).as_str());
                        s
                    },
                    None => String::from_str("Failed to retrieve IP address"),
                }
            },
        }
    }
}

/// Classifies an HTTP status: 2xx passes, anything else is a failure
/// that records the status, keeping the parsed provider detail only for
/// status 400.
pub fn http_status_check(status: u16, detail: Option<ApiError>) -> (r: Result<(), ClientError>)
    ensures
        (200 <= status < 300) <==> r is Ok,
        !(200 <= status < 300) ==> r == Err::<(), ClientError>(
            ClientError::HttpStatus {
                status,
                detail: if status == 400 {
                    detail
                } else {
                    None
                },
            },
        ),
{
    if 200 <= status && status < 300 {
        Ok(())
    } else if status == 400 {
        Err(ClientError::HttpStatus { status, detail })
    } else {
        Err(ClientError::HttpStatus { status, detail: None })
    }
}

/// Classifies a decoded response envelope: `success == true` passes,
/// anything else is a provider failure carrying the first listed error
/// pair, when there is one.
pub fn envelope_check(success: bool, errors: &Vec<ApiError>) -> (r: Result<(), ClientError>)
    ensures
        success <==> r is Ok,
        !success ==> r == Err::<(), ClientError>(
            ClientError::ProviderApi {
                detail: if errors@.len() > 0 {
                    Some(errors@[0])
                } else {
                    None
                },
            },
        ),
{
    if success {
        Ok(())
    } else if errors.len() > 0 {
        Err(ClientError::ProviderApi { detail: Some(errors[0].clone()) })
    } else {
        Err(ClientError::ProviderApi { detail: None })
    }
}

/// The audit comment written on every create and update.
pub open spec fn comment_of(ts: Seq<char>) -> Seq<char> {
    "Automatic by DDNS - Set "@ + ts
}

/// Builds the body of a create request: the requested type and proxy
/// flag, a TTL of 3600 seconds, and the audit comment for `timestamp`.
pub fn build_create_request(
    domain: &str,
    ip: &str,
    record_type: RecordType,
    proxied: bool,
    timestamp: &str,
) -> (r: RecordRequest)
    ensures
        r.record_type@ == record_type.spec_str(),
        r.name@ == domain@,
        r.content@ == ip@,
        r.ttl == 3600,
        r.proxied == proxied,
        r.comment@ == comment_of(timestamp@),
{
    let mut comment = String::from_str("Automatic by DDNS - Set ");
    comment.append(timestamp);
    RecordRequest {
        record_type: String::from_str(record_type.as_str()),
        name: String::from_str(domain),
        content: String::from_str(ip),
        ttl: 3600,
        proxied,
        comment,
    }
}

/// Builds the body of an update request: copies `record_type`, `name`,
/// `ttl` and `proxied` from the existing record, sets `content` to the
/// new address, and regenerates the audit comment for `timestamp`.
pub fn build_update_request(ip: &str, existing: &DnsRecord, timestamp: &str) -> (r: RecordRequest)
    ensures
        r.record_type@ == existing.record_type@,
        r.name@ == existing.name@,
        r.ttl == existing.ttl,
        r.proxied == existing.proxied,
        r.content@ == ip@,
        r.comment@ == comment_of(timestamp@),
{
    let mut comment = String::from_str("Automatic by DDNS - Set ");
    comment.append(timestamp);
    RecordRequest {
        record_type: existing.record_type.clone(),
        name: existing.name.clone(),
        content: String::from_str(ip),
        ttl: existing.ttl,
        proxied: existing.proxied,
        comment,
    }
}

/// A non-2xx failure's message always names the numeric status; when a
/// provider detail was parsed out of a 400 body, the message also names
/// the provider's error code and message.
pub proof fn lemma_http_status_message(status: u16, detail: Option<ApiError>)
    ensures
        contains_seq(
            message_of(ClientError::HttpStatus { status, detail }),
            dec_rep(status as nat),
        ),
        detail matches Some(ae) ==> contains_seq(
            message_of(ClientError::HttpStatus { status, detail }),
            dec_rep(ae.code as nat),
        ) && contains_seq(message_of(ClientError::HttpStatus { status, detail }), ae.message@),
{
    let msg = message_of(ClientError::HttpStatus { status, detail });
    let prefix = "HTTP error was received: "@;
    let sd = dec_rep(status as nat);
    reveal_strlit("HTTP error was received: ");
    assert(msg.subrange(prefix.len() as int, prefix.len() + sd.len() as int) =~= sd);
    lemma_contains_at(msg, sd, prefix.len() as int);
    match detail {
        Some(ae) => {
            let dpre = "\nDetails ("@;
            let mid = "): "@;
            let cd = dec_rep(ae.code as nat);
            reveal_strlit("\nDetails (");
            reveal_strlit("): ");
            let code_at = prefix.len() + sd.len() + dpre.len();
            assert(msg.subrange(code_at as int, code_at + cd.len() as int) =~= cd);
            lemma_contains_at(msg, cd, code_at as int);
            let msg_at = code_at + cd.len() + mid.len();
            assert(msg.subrange(msg_at as int, msg_at + ae.message@.len() as int) =~= ae.message@);
            lemma_contains_at(msg, ae.message@, msg_at as int);
        },
        None => {},
    }
}

/// A provider-reported failure's message names the provider's error
/// code and message when the envelope carried one.
pub proof fn lemma_provider_api_message(ae: ApiError)
    ensures
        contains_seq(
            message_of(ClientError::ProviderApi { detail: Some(ae) }),
            dec_rep(ae.code as nat),
        ),
        contains_seq(message_of(ClientError::ProviderApi { detail: Some(ae) }), ae.message@),
{
    let msg = message_of(ClientError::ProviderApi { detail: Some(ae) });
    let prefix = "API error "@;
    let mid = ": "@;
    let cd = dec_rep(ae.code as nat);
    reveal_strlit("API error ");
    reveal_strlit(": ");
    assert(msg.subrange(prefix.len() as int, prefix.len() + cd.len() as int) =~= cd);
    lemma_contains_at(msg, cd, prefix.len() as int);
    let msg_at = prefix.len() + cd.len() + mid.len();
    assert(msg.subrange(msg_at as int, msg_at + ae.message@.len() as int) =~= ae.message@);
    lemma_contains_at(msg, ae.message@, msg_at as int);
}

} // verus!

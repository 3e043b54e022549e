//! The provider wire protocol, kept apart from any transport: request plans
//! (method, URL, query, authentication headers, write payload) and the uniform
//! response-envelope handling with its error texts.
use vstd::prelude::*;
use crate::backend::BackendError;
use crate::model::{Account, AccountView, AuthMode, DnsRecord, RecordView, Zone, ZoneView};
use crate::text::{dec_rep, u64_to_string};

verus! {

/// One server-reported error inside a response envelope.
pub struct CfError {
    pub message: String,
}

/// A response envelope whose `result` is a list.
pub struct CfResponse<T> {
    pub success: bool,
    pub errors: Vec<CfError>,
    pub result: Option<Vec<T>>,
}

/// A response envelope whose `result` is a single item.
pub struct CfItemResponse<T> {
    pub success: bool,
    pub errors: Vec<CfError>,
    pub result: Option<T>,
}

/// A response envelope carrying no result payload.
pub struct CfDeleteResponse {
    pub success: bool,
    pub errors: Vec<CfError>,
}

/// A zone as it appears on the wire.
pub struct CfZone {
    pub id: String,
    pub name: String,
}

/// A record as it appears on the wire; `ttl` and `proxied` may be absent.
pub struct CfRecord {
    pub id: String,
    pub name: String,
    pub record_type: String,
    pub content: String,
    pub ttl: Option<u32>,
    pub proxied: Option<bool>,
}

/// The payload sent for create and update calls: everything but the id.
pub struct CfRecordWrite {
    pub name: String,
    pub record_type: String,
    pub content: String,
    pub ttl: u32,
    pub proxied: bool,
}

/// The first server-reported message, or the generic fallback text.
pub open spec fn first_error_message(errors: Seq<CfError>) -> Seq<char> {
    if errors.len() > 0 {
        errors[0].message@
    } else {
        "Unknown Cloudflare API error"@
    }
}

impl<T> CfResponse<T> {
    /// The first server-reported message, or a generic fallback.
    pub fn error_message(&self) -> (r: String)
        ensures
            r@ == first_error_message(self.errors@),
    {
        if self.errors.len() > 0 {
            self.errors[0].message.clone()
        } else {
            "Unknown Cloudflare API error".to_owned()
        }
    }
}

impl<T> CfItemResponse<T> {
    /// The first server-reported message, or a generic fallback.
    pub fn error_message(&self) -> (r: String)
        ensures
            r@ == first_error_message(self.errors@),
    {
        if self.errors.len() > 0 {
            self.errors[0].message.clone()
        } else {
            "Unknown Cloudflare API error".to_owned()
        }
    }
}

impl CfDeleteResponse {
    /// The first server-reported message, or a generic fallback.
    pub fn error_message(&self) -> (r: String)
        ensures
            r@ == first_error_message(self.errors@),
    {
        if self.errors.len() > 0 {
            self.errors[0].message.clone()
        } else {
            "Unknown Cloudflare API error".to_owned()
        }
    }
}

/// A body snippet for diagnostics: at most 200 characters, with an ellipsis
/// when something was cut.
pub open spec fn truncate_spec(s: Seq<char>) -> Seq<char> {
    if s.len() > 200 {
        s.subrange(0, 200) + "..."@
    } else {
        s
    }
}

/// Cut a response body down to a diagnostic snippet.
pub fn truncate_body(text: &str) -> (r: String)
    ensures
        r@ == truncate_spec(text@),
{
    let n = text.unicode_len();
    if n > 200 {
        text.substring_char(0, 200).to_owned().concat("...")
    } else {
        text.to_owned()
    }
}

/// The record view carried by a wire record once the documented defaults are
/// filled in: five minutes of TTL and no proxying.
pub open spec fn wire_record_view(c: CfRecord) -> RecordView {
    RecordView {
        id: c.id@,
        name: c.name@,
        record_type: c.record_type@,
        content: c.content@,
        ttl: match c.ttl {
            Some(t) => t,
            None => 300,
        },
        proxied: match c.proxied {
            Some(p) => p,
            None => false,
        },
    }
}

impl CfRecord {
    /// Map a wire record into the domain entity, substituting the documented
    /// defaults for absent optional fields.
    pub fn into_dns_record(self) -> (r: DnsRecord)
        ensures
            r@ == wire_record_view(self),
    {
        DnsRecord {
            id: self.id,
            name: self.name,
            record_type: self.record_type,
            content: self.content,
            ttl: match self.ttl {
                Some(t) => t,
                None => 300,
            },
            proxied: match self.proxied {
                Some(p) => p,
                None => false,
            },
        }
    }
}

impl CfRecordWrite {
    /// The write payload for a record: exactly name, type, content, ttl, and
    /// the proxy flag.
    pub fn from_record(record: &DnsRecord) -> (r: Self)
        ensures
            r.name@ == record@.name,
            r.record_type@ == record@.record_type,
            r.content@ == record@.content,
            r.ttl == record@.ttl,
            r.proxied == record@.proxied,
    {
        CfRecordWrite {
            name: record.name.clone(),
            record_type: record.record_type.clone(),
            content: record.content.clone(),
            ttl: record.ttl,
            proxied: record.proxied,
        }
    }
}

/// The HTTP method of a request plan.
#[derive(Clone, Copy, PartialEq, Eq, Structural, Debug)]
pub enum HttpMethod {
    Get,
    Post,
    Put,
    Delete,
}

/// Everything the transport needs to issue one API call.
pub struct ApiRequest {
    pub method: HttpMethod,
    pub url: String,
    pub query: Vec<(String, String)>,
    pub headers: Vec<(String, String)>,
    pub body: Option<CfRecordWrite>,
}

/// The views of a list of name/value pairs.
pub open spec fn pair_views(s: Seq<(String, String)>) -> Seq<(Seq<char>, Seq<char>)> {
    s.map_values(|p: (String, String)| (p.0@, p.1@))
}

/// The authentication headers chosen by the account's mode: a bearer token,
/// or the legacy email/key pair, or nothing when the legacy mode lacks an
/// email.
pub open spec fn auth_header_views(a: AccountView) -> Seq<(Seq<char>, Seq<char>)> {
    match a.auth_mode {
        AuthMode::Token => seq![("Authorization"@, "Bearer "@ + a.api_token)],
        AuthMode::GlobalKey => match a.email {
            Some(e) => seq![("X-Auth-Email"@, e), ("X-Auth-Key"@, a.api_token)],
            None => Seq::empty(),
        },
    }
}

/// Build the authentication headers for an account.
pub fn auth_headers(account: &Account) -> (r: Vec<(String, String)>)
    ensures
        pair_views(r@) == auth_header_views(account@),
{
    let mut out: Vec<(String, String)> = Vec::new();
    match account.auth_mode {
        AuthMode::Token => {
            out.push(("Authorization".to_owned(), "Bearer ".to_owned().concat(
                account.api_token.as_str(),
            )));
            proof {
                assert(pair_views(out@) =~= auth_header_views(account@));
            }
        },
        AuthMode::GlobalKey => {
            match &account.email {
                Some(email) => {
                    out.push(("X-Auth-Email".to_owned(), email.clone()));
                    out.push(("X-Auth-Key".to_owned(), account.api_token.clone()));
                    proof {
                        assert(pair_views(out@) =~= auth_header_views(account@));
                    }
                },
                None => {
                    proof {
                        assert(pair_views(out@) =~= auth_header_views(account@));
                    }
                },
            }
        },
    }
    out
}

/// The query of a zone-list call: the maximum page size, narrowed by the
/// account id when one is set.
pub open spec fn zone_query_views(a: AccountView) -> Seq<(Seq<char>, Seq<char>)> {
    match a.account_id {
        Some(id) => seq![("per_page"@, "200"@), ("account.id"@, id)],
        None => seq![("per_page"@, "200"@)],
    }
}

/// Build the query parameters of a zone-list call.
pub fn zone_query(account: &Account) -> (r: Vec<(String, String)>)
    ensures
        pair_views(r@) == zone_query_views(account@),
{
    let mut out: Vec<(String, String)> = Vec::new();
    out.push(("per_page".to_owned(), "200".to_owned()));
    match &account.account_id {
        Some(id) => {
            out.push(("account.id".to_owned(), id.clone()));
        },
        None => {},
    }
    proof {
        assert(pair_views(out@) =~= zone_query_views(account@));
    }
    out
}

/// The plan of a zone-list call.
pub fn zones_request(base_url: &str, account: &Account) -> (r: ApiRequest)
    ensures
        r.method == HttpMethod::Get,
        r.url@ == base_url@ + "/zones"@,
        pair_views(r.query@) == zone_query_views(account@),
        pair_views(r.headers@) == auth_header_views(account@),
        r.body is None,
{
    ApiRequest {
        method: HttpMethod::Get,
        url: base_url.to_owned().concat("/zones"),
        query: zone_query(account),
        headers: auth_headers(account),
        body: None,
    }
}

/// The records collection URL of a zone.
pub open spec fn records_url(base: Seq<char>, zone_id: Seq<char>) -> Seq<char> {
    base + "/zones/"@ + zone_id + "/dns_records"@
}

fn records_url_exec(base_url: &str, zone: &Zone) -> (r: String)
    ensures
        r@ == records_url(base_url@, zone@.id),
{
    base_url.to_owned().concat("/zones/").concat(zone.id.as_str()).concat("/dns_records")
}

/// The plan of a record-list call.
pub fn records_request(base_url: &str, account: &Account, zone: &Zone) -> (r: ApiRequest)
    ensures
        r.method == HttpMethod::Get,
        r.url@ == records_url(base_url@, zone@.id),
        pair_views(r.query@) == seq![("per_page"@, "200"@)],
        pair_views(r.headers@) == auth_header_views(account@),
        r.body is None,
{
    let mut query: Vec<(String, String)> = Vec::new();
    query.push(("per_page".to_owned(), "200".to_owned()));
    proof {
        assert(pair_views(query@) =~= seq![("per_page"@, "200"@)]);
    }
    ApiRequest {
        method: HttpMethod::Get,
        url: records_url_exec(base_url, zone),
        query,
        headers: auth_headers(account),
        body: None,
    }
}

/// The plan of a create call: a POST of the write payload to the zone's
/// record collection.
pub fn create_record_request(base_url: &str, account: &Account, zone: &Zone, record: &DnsRecord) -> (r:
    ApiRequest)
    ensures
        r.method == HttpMethod::Post,
        r.url@ == records_url(base_url@, zone@.id),
        pair_views(r.query@) == Seq::<(Seq<char>, Seq<char>)>::empty(),
        pair_views(r.headers@) == auth_header_views(account@),
        match r.body {
            Some(w) => w.name@ == record@.name && w.record_type@ == record@.record_type
                && w.content@ == record@.content && w.ttl == record@.ttl && w.proxied
                == record@.proxied,
            None => false,
        },
{
    proof {
        assert(pair_views(Seq::<(String, String)>::empty()) =~= Seq::<
            (Seq<char>, Seq<char>),
        >::empty());
    }
    ApiRequest {
        method: HttpMethod::Post,
        url: records_url_exec(base_url, zone),
        query: Vec::new(),
        headers: auth_headers(account),
        body: Some(CfRecordWrite::from_record(record)),
    }
}

/// The URL of one record inside a zone.
pub open spec fn record_url(base: Seq<char>, zone_id: Seq<char>, record_id: Seq<char>) -> Seq<char> {
    base + "/zones/"@ + zone_id + "/dns_records/"@ + record_id
}

fn record_url_exec(base_url: &str, zone: &Zone, record_id: &str) -> (r: String)
    ensures
        r@ == record_url(base_url@, zone@.id, record_id@),
{
    base_url.to_owned().concat("/zones/").concat(zone.id.as_str()).concat("/dns_records/").concat(
        record_id,
    )
}

/// The plan of an update call: a PUT of the write payload to the record's URL.
pub fn update_record_request(base_url: &str, account: &Account, zone: &Zone, record: &DnsRecord) -> (r:
    ApiRequest)
    ensures
        r.method == HttpMethod::Put,
        r.url@ == record_url(base_url@, zone@.id, record@.id),
        pair_views(r.query@) == Seq::<(Seq<char>, Seq<char>)>::empty(),
        pair_views(r.headers@) == auth_header_views(account@),
        match r.body {
            Some(w) => w.name@ == record@.name && w.record_type@ == record@.record_type
                && w.content@ == record@.content && w.ttl == record@.ttl && w.proxied
                == record@.proxied,
            None => false,
        },
{
    proof {
        assert(pair_views(Seq::<(String, String)>::empty()) =~= Seq::<
            (Seq<char>, Seq<char>),
        >::empty());
    }
    ApiRequest {
        method: HttpMethod::Put,
        url: record_url_exec(base_url, zone, record.id.as_str()),
        query: Vec::new(),
        headers: auth_headers(account),
        body: Some(CfRecordWrite::from_record(record)),
    }
}

/// The plan of a delete call: a DELETE of the record's URL.
pub fn delete_record_request(base_url: &str, account: &Account, zone: &Zone, record_id: &str) -> (r:
    ApiRequest)
    ensures
        r.method == HttpMethod::Delete,
        r.url@ == record_url(base_url@, zone@.id, record_id@),
        pair_views(r.query@) == Seq::<(Seq<char>, Seq<char>)>::empty(),
        pair_views(r.headers@) == auth_header_views(account@),
        r.body is None,
{
    proof {
        assert(pair_views(Seq::<(String, String)>::empty()) =~= Seq::<
            (Seq<char>, Seq<char>),
        >::empty());
    }
    ApiRequest {
        method: HttpMethod::Delete,
        url: record_url_exec(base_url, zone, record_id),
        query: Vec::new(),
        headers: auth_headers(account),
        body: None,
    }
}

/// An HTTP status that counts as success.
pub open spec fn is_success_status(status: u16) -> bool {
    200 <= status < 300
}

/// The text of a decode failure: the envelope could not be parsed, with a
/// body snippet for diagnosis.
pub open spec fn decode_error_text(what: Seq<char>, body: Seq<char>) -> Seq<char> {
    "Failed to parse "@ + what + " response: "@ + truncate_spec(body)
}

fn decode_error(what: &str, body: &str) -> (r: BackendError)
    ensures
        r.message@ == decode_error_text(what@, body@),
{
    let mut m = "Failed to parse ".to_owned();
    m.append(what);
    m.append(" response: ");
    let t = truncate_body(body);
    m.append(t.as_str());
    BackendError { message: m }
}

/// The text of a protocol failure: the HTTP status, the first server-reported
/// message (or its fallback), and a body snippet.
pub open spec fn protocol_error_text(
    label: Seq<char>,
    status: u16,
    errors: Seq<CfError>,
    body: Seq<char>,
) -> Seq<char> {
    label + " ("@ + dec_rep(status as int) + "): "@ + first_error_message(errors) + " | body: "@
        + truncate_spec(body)
}

fn protocol_error(label: &str, status: u16, first_err: &str, body: &str) -> (r: String)
    ensures
        r@ == label@ + " ("@ + dec_rep(status as int) + "): "@ + first_err@ + " | body: "@
            + truncate_spec(body@),
{
    let mut m = label.to_owned();
    m.append(" (");
    let s = u64_to_string(status as u64);
    m.append(s.as_str());
    m.append("): ");
    m.append(first_err);
    m.append(" | body: ");
    let t = truncate_body(body);
    m.append(t.as_str());
    m
}

/// The text reported when a create or update succeeded without a result
/// payload.
pub open spec fn missing_result_text(label: Seq<char>) -> Seq<char> {
    label + " succeeded but missing result"@
}

/// The views of a list of wire zones.
pub open spec fn cf_zone_views(s: Seq<CfZone>) -> Seq<ZoneView> {
    s.map_values(|z: CfZone| ZoneView { id: z.id@, name: z.name@ })
}

/// The views of a list of wire records, with defaults filled in.
pub open spec fn cf_record_views(s: Seq<CfRecord>) -> Seq<RecordView> {
    s.map_values(|c: CfRecord| wire_record_view(c))
}

/// Apply the uniform response protocol to a zone-list reply: the envelope
/// must have parsed, the status and the success flag must both pass, and the
/// zones are mapped out of the envelope (an absent list means no zones).
pub fn interpret_zones_response(status: u16, body: &str, parsed: Option<CfResponse<CfZone>>) -> (r:
    Result<Vec<Zone>, BackendError>)
    ensures
        match parsed {
            None => match r {
                Err(e) => e.message@ == decode_error_text("Cloudflare zones"@, body@),
                Ok(_) => false,
            },
            Some(p) => if !is_success_status(status) || !p.success {
                match r {
                    Err(e) => e.message@ == protocol_error_text("Zones"@, status, p.errors@, body@),
                    Ok(_) => false,
                }
            } else {
                match r {
                    Ok(zs) => crate::model::zone_views(zs@) == cf_zone_views(
                        match p.result {
                            Some(list) => list@,
                            None => Seq::empty(),
                        },
                    ),
                    Err(_) => false,
                }
            },
        },
{
    let p = match parsed {
        Some(p) => p,
        None => {
            return Err(decode_error("Cloudflare zones", body));
        },
    };
    if !(200 <= status && status < 300) || !p.success {
        let first = p.error_message();
        return Err(
            BackendError { message: protocol_error("Zones", status, first.as_str(), body) },
        );
    }
    let list = match p.result {
        Some(v) => v,
        None => Vec::new(),
    };
    let ghost list_view = list@;
    let mut zones: Vec<Zone> = Vec::new();
    let mut i: usize = 0;
    let n = list.len();
    let mut rest = list;
    while i < n
        invariant
            0 <= i <= n,
            n == list_view.len(),
            rest@ == list_view.subrange(i as int, n as int),
            zones@.len() == i,
            forall|k: int|
                0 <= k < i ==> (#[trigger] zones@[k])@ == (ZoneView {
                    id: list_view[k].id@,
                    name: list_view[k].name@,
                }),
        decreases n - i,
    {
        let z = rest.remove(0);
        proof {
            assert(z == list_view[i as int]);
            assert(rest@ =~= list_view.subrange((i + 1) as int, n as int));
        }
        zones.push(Zone { id: z.id, name: z.name });
        i = i + 1;
    }
    proof {
        assert(crate::model::zone_views(zones@) =~= cf_zone_views(list_view));
    }
    Ok(zones)
}

/// Apply the uniform response protocol to a record-list reply, filling in the
/// documented defaults for absent fields.
pub fn interpret_records_response(status: u16, body: &str, parsed: Option<CfResponse<CfRecord>>) -> (r:
    Result<Vec<DnsRecord>, BackendError>)
    ensures
        match parsed {
            None => match r {
                Err(e) => e.message@ == decode_error_text("Cloudflare dns_records"@, body@),
                Ok(_) => false,
            },
            Some(p) => if !is_success_status(status) || !p.success {
                match r {
                    Err(e) => e.message@ == protocol_error_text(
                        "Records"@,
                        status,
                        p.errors@,
                        body@,
                    ),
                    Ok(_) => false,
                }
            } else {
                match r {
                    Ok(recs) => crate::model::record_views(recs@) == cf_record_views(
                        match p.result {
                            Some(list) => list@,
                            None => Seq::empty(),
                        },
                    ),
                    Err(_) => false,
                }
            },
        },
{
    let p = match parsed {
        Some(p) => p,
        None => {
            return Err(decode_error("Cloudflare dns_records", body));
        },
    };
    if !(200 <= status && status < 300) || !p.success {
        let first = p.error_message();
        return Err(
            BackendError { message: protocol_error("Records", status, first.as_str(), body) },
        );
    }
    let list = match p.result {
        Some(v) => v,
        None => Vec::new(),
    };
    let ghost list_view = list@;
    let mut records: Vec<DnsRecord> = Vec::new();
    let mut i: usize = 0;
    let n = list.len();
    let mut rest = list;
    while i < n
        invariant
            0 <= i <= n,
            n == list_view.len(),
            rest@ == list_view.subrange(i as int, n as int),
            records@.len() == i,
            forall|k: int|
                0 <= k < i ==> (#[trigger] records@[k])@ == wire_record_view(list_view[k]),
        decreases n - i,
    {
        let c = rest.remove(0);
        proof {
            assert(c == list_view[i as int]);
            assert(rest@ =~= list_view.subrange((i + 1) as int, n as int));
        }
        records.push(c.into_dns_record());
        i = i + 1;
    }
    proof {
        assert(crate::model::record_views(records@) =~= cf_record_views(list_view));
    }
    Ok(records)
}

/// Apply the uniform response protocol to a create or update reply (named by
/// `label`): beyond the envelope checks, a successful reply must actually
/// carry the written record.
pub fn interpret_item_response(
    label: &str,
    what: &str,
    status: u16,
    body: &str,
    parsed: Option<CfItemResponse<CfRecord>>,
) -> (r: Result<DnsRecord, BackendError>)
    ensures
        match parsed {
            None => match r {
                Err(e) => e.message@ == decode_error_text(what@, body@),
                Ok(_) => false,
            },
            Some(p) => if !is_success_status(status) || !p.success {
                match r {
                    Err(e) => e.message@ == protocol_error_text(label@, status, p.errors@, body@),
                    Ok(_) => false,
                }
            } else {
                match p.result {
                    Some(c) => match r {
                        Ok(rec) => rec@ == wire_record_view(c),
                        Err(_) => false,
                    },
                    None => match r {
                        Err(e) => e.message@ == missing_result_text(label@),
                        Ok(_) => false,
                    },
                }
            },
        },
{
    let p = match parsed {
        Some(p) => p,
        None => {
            return Err(decode_error(what, body));
        },
    };
    if !(200 <= status && status < 300) || !p.success {
        let first = p.error_message();
        return Err(BackendError { message: protocol_error(label, status, first.as_str(), body) });
    }
    match p.result {
        Some(c) => Ok(c.into_dns_record()),
        None => {
            let mut m = label.to_owned();
            m.append(" succeeded but missing result");
            Err(BackendError { message: m })
        },
    }
}

/// Apply the uniform response protocol to a delete reply, which carries no
/// payload.
pub fn interpret_delete_response(status: u16, body: &str, parsed: Option<CfDeleteResponse>) -> (r:
    Result<(), BackendError>)
    ensures
        match parsed {
            None => match r {
                Err(e) => e.message@ == decode_error_text("delete record"@, body@),
                Ok(_) => false,
            },
            Some(p) => if !is_success_status(status) || !p.success {
                match r {
                    Err(e) => e.message@ == protocol_error_text(
                        "Delete"@,
                        status,
                        p.errors@,
                        body@,
                    ),
                    Ok(_) => false,
                }
            } else {
                r is Ok
            },
        },
{
    let p = match parsed {
        Some(p) => p,
        None => {
            return Err(decode_error("delete record", body));
        },
    };
    if !(200 <= status && status < 300) || !p.success {
        let first = p.error_message();
        return Err(
            BackendError { message: protocol_error("Delete", status, first.as_str(), body) },
        );
    }
    Ok(())
}

} // verus!

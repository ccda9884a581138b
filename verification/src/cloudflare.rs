//! The Cloudflare side of the updater: where requests go, how they are
//! authorised, and what the answers mean.
use vstd::prelude::*;

use crate::record::{fqdn, ApiListResponse, ApiSingleResponse, DnsRecord, Zone};
use crate::text::{debug_list, debug_list_text, str_eq, texts, trim_end_char_seq, trim_trailing_slashes};

verus! {

/// The address of Cloudflare's API, version 4.
pub const CLOUDFLARE_API_BASE: &'static str = "https://api.cloudflare.com/client/v4";

/// What can go wrong while talking to Cloudflare.
#[derive(Debug, Clone, PartialEq, Eq)]
pub enum CloudflareError {
    /// The HTTP exchange failed; the text is the transport's own message.
    Request(String),
    /// Cloudflare answered that the request failed.
    Api(String),
    /// No zone carries the given domain name.
    ZoneNotFound(String),
    /// The zone has no record with the given label (label, domain).
    RecordNotFound(String, String),
}

/// The text that describes `e` to a reader.
pub open spec fn cloudflare_error_text(e: CloudflareError) -> Seq<char> {
    match e {
        CloudflareError::Request(m) => "HTTP error talking to Cloudflare: "@ + m@,
        CloudflareError::Api(m) => "Cloudflare API error: "@ + m@,
        CloudflareError::ZoneNotFound(d) => "Cannot find zone (domain) "@ + d@,
        CloudflareError::RecordNotFound(r, d) => "Cannot find record "@ + r@ + " in zone (domain) "@
            + d@,
    }
}

impl CloudflareError {
    /// The text that describes this error to a reader.
    pub fn message(&self) -> (text: String)
        ensures
            text@ == cloudflare_error_text(*self),
    {
        match self {
            CloudflareError::Request(m) => {
                let mut t = String::from_str("HTTP error talking to Cloudflare: ");
                t.append(m.as_str());
                t
            },
            CloudflareError::Api(m) => {
                let mut t = String::from_str("Cloudflare API error: ");
                t.append(m.as_str());
                t
            },
            CloudflareError::ZoneNotFound(d) => {
                let mut t = String::from_str("Cannot find zone (domain) ");
                t.append(d.as_str());
                t
            },
            CloudflareError::RecordNotFound(r, d) => {
                let mut t = String::from_str("Cannot find record ");
                t.append(r.as_str());
                t.append(" in zone (domain) ");
                t.append(d.as_str());
                t
            },
        }
    }
}

/// The HTTP client of `reqwest`, carried through unopened.
#[verifier::external_type_specification]
#[verifier::external_body]
pub struct ExReqwestClient(reqwest::Client);

/// `reqwest::Client::clone`: another handle on the same client (it shares the
/// connection pool). Nothing is stated of the handle, which stays opaque.
pub assume_specification[ <reqwest::Client as Clone>::clone ](client: &reqwest::Client) -> reqwest::Client;

/// The HTTP client that reaches Cloudflare's API, where and with which token.
#[derive(Clone)]
pub struct CloudflareClient {
    http: reqwest::Client,
    base_url: String,
    token: String,
}

impl CloudflareClient {
    /// The API address, without trailing slashes.
    pub closed spec fn base_url(&self) -> Seq<char> {
        self.base_url@
    }

    /// The API token.
    pub closed spec fn token(&self) -> Seq<char> {
        self.token@
    }

    /// The HTTP client that requests go through.
    pub closed spec fn http_client(&self) -> reqwest::Client {
        self.http
    }

    /// A client that sends its requests through `http` to the API at
    /// `base_url` (trailing slashes dropped), authorised by `token`.
    pub fn new(http: reqwest::Client, base_url: &str, token: &str) -> (client: Self)
        ensures
            client.http_client() == http,
            client.base_url() == trim_end_char_seq(base_url@, '/'),
            client.token() == token@,
    {
        CloudflareClient {
            http,
            base_url: trim_trailing_slashes(base_url),
            token: String::from_str(token),
        }
    }

    /// The HTTP client that requests go through.
    pub fn http(&self) -> (http: &reqwest::Client)
        ensures
            *http == self.http_client(),
    {
        &self.http
    }

    /// The value of the `Authorization` header: `Bearer ` and the token.
    pub fn auth_header(&self) -> (header: String)
        ensures
            header@ == "Bearer "@ + self.token(),
    {
        let mut h = String::from_str("Bearer ");
        h.append(self.token.as_str());
        h
    }

    /// The address that lists the zones.
    pub fn zones_url(&self) -> (url: String)
        ensures
            url@ == self.base_url() + "/zones"@,
    {
        let mut u = self.base_url.clone();
        u.append("/zones");
        u
    }

    /// The address that lists the DNS records of a zone.
    pub fn dns_records_url(&self, zone_id: &str) -> (url: String)
        ensures
            url@ == self.base_url() + "/zones/"@ + zone_id@ + "/dns_records"@,
    {
        let mut u = self.base_url.clone();
        u.append("/zones/");
        u.append(zone_id);
        u.append("/dns_records");
        u
    }

    /// The address of one DNS record of a zone.
    pub fn record_url(&self, zone_id: &str, record_id: &str) -> (url: String)
        ensures
            url@ == self.base_url() + "/zones/"@ + zone_id@ + "/dns_records/"@ + record_id@,
    {
        let mut u = self.base_url.clone();
        u.append("/zones/");
        u.append(zone_id);
        u.append("/dns_records/");
        u.append(record_id);
        u
    }
}

/// Decides whether the DNS record needs updating: exactly when the public
/// address differs from what the record holds.
pub fn needs_update(public_ip: &str, dns_content: &str) -> (update: bool)
    ensures
        update == (public_ip@ != dns_content@),
{
    !str_eq(public_ip, dns_content)
}

/// The items of a listing answer: an `Api` error carrying the rendered
/// errors when Cloudflare reports failure, else the listed items (none when
/// the answer carries no result).
pub fn list_result<T>(body: ApiListResponse<T>) -> (res: Result<Vec<T>, CloudflareError>)
    ensures
        body.success ==> (res matches Ok(items) && items@ == (match body.result {
            Some(v) => v@,
            None => Seq::empty(),
        })),
        !body.success ==> (res matches Err(CloudflareError::Api(m)) && m@ == debug_list_text(
            texts(body.errors@),
        )),
{
    if !body.success {
        return Err(CloudflareError::Api(debug_list(&body.errors)));
    }
    match body.result {
        Some(v) => Ok(v),
        None => Ok(Vec::new()),
    }
}

/// Picks the first zone named `domain`, or reports `ZoneNotFound(domain)`.
pub fn select_zone(zones: Vec<Zone>, domain: &str) -> (res: Result<Zone, CloudflareError>)
    ensures
        match res {
            Ok(z) => exists|i: int|
                0 <= i < zones@.len() && zones@[i] == z && z.name@ == domain@ && forall|j: int|
                    0 <= j < i ==> zones@[j].name@ != domain@,
            Err(e) => (e matches CloudflareError::ZoneNotFound(d) && d@ == domain@) && forall|j: int|
                0 <= j < zones@.len() ==> zones@[j].name@ != domain@,
        },
{
    let n = zones.len();
    let mut i: usize = 0;
    while i < n
        invariant
            n == zones@.len(),
            i <= n,
            forall|j: int| 0 <= j < i ==> zones@[j].name@ != domain@,
        decreases n - i,
    {
        if str_eq(zones[i].name.as_str(), domain) {
            let ghost all = zones@;
            let mut zones = zones;
            let z = zones.remove(i);
            assert(all[i as int] == z);
            return Ok(z);
        }
        i = i + 1;
    }
    Err(CloudflareError::ZoneNotFound(String::from_str(domain)))
}

/// Picks the first record named after `record` in `domain` (see `fqdn`) and
/// gives it the zone id `zone_id`, or reports `RecordNotFound(record, domain)`.
pub fn select_record(records: Vec<DnsRecord>, zone_id: String, record: &str, domain: &str) -> (res:
    Result<DnsRecord, CloudflareError>)
    ensures
        match res {
            Ok(r) => exists|i: int|
                0 <= i < records@.len() && r == (DnsRecord { zone_id: zone_id, ..records@[i] })
                    && records@[i].name@ == fqdn(record@, domain@) && forall|j: int|
                    0 <= j < i ==> records@[j].name@ != fqdn(record@, domain@),
            Err(e) => (e matches CloudflareError::RecordNotFound(r, d) && r@ == record@ && d@
                == domain@) && forall|j: int|
                0 <= j < records@.len() ==> records@[j].name@ != fqdn(record@, domain@),
        },
{
    let expected = crate::record::record_fqdn(record, domain);
    let n = records.len();
    let mut i: usize = 0;
    while i < n
        invariant
            n == records@.len(),
            expected@ == fqdn(record@, domain@),
            i <= n,
            forall|j: int| 0 <= j < i ==> records@[j].name@ != fqdn(record@, domain@),
        decreases n - i,
    {
        if str_eq(records[i].name.as_str(), expected.as_str()) {
            let ghost all = records@;
            let mut records = records;
            let mut found = records.remove(i);
            assert(all[i as int] == found);
            found.zone_id = zone_id;
            return Ok(found);
        }
        i = i + 1;
    }
    Err(CloudflareError::RecordNotFound(String::from_str(record), String::from_str(domain)))
}

/// The record that an update answer carries: an `Api` error with the
/// rendered errors when Cloudflare reports failure, an `Api` error
/// `missing result` when the answer carries no record, else the record, with
/// `zone_id` filled in when the answer left it empty.
pub fn updated_record(body: ApiSingleResponse<DnsRecord>, zone_id: &str) -> (res: Result<
    DnsRecord,
    CloudflareError,
>)
    ensures
        !body.success ==> (res matches Err(CloudflareError::Api(m)) && m@ == debug_list_text(
            texts(body.errors@),
        )),
        body.success && body.result is None ==> (res matches Err(CloudflareError::Api(m)) && m@
            == "missing result"@),
        body.success && body.result is Some ==> (res matches Ok(r) && ({
            let got = body.result->0;
            &&& r.id == got.id
            &&& r.name == got.name
            &&& r.content == got.content
            &&& r.record_type == got.record_type
            &&& r.zone_id@ == (if got.zone_id@.len() == 0 {
                zone_id@
            } else {
                got.zone_id@
            })
        })),
{
    if !body.success {
        return Err(CloudflareError::Api(debug_list(&body.errors)));
    }
    match body.result {
        None => Err(CloudflareError::Api(String::from_str("missing result"))),
        Some(mut r) => {
            if r.zone_id.as_str().is_empty() {
                r.zone_id = String::from_str(zone_id);
            }
            Ok(r)
        },
    }
}

/// The items that a listing answer carries (none when it carries no result).
pub open spec fn listed<T>(body: ApiListResponse<T>) -> Seq<T> {
    match body.result {
        Some(v) => v@,
        None => Seq::empty(),
    }
}

/// `zones[i]` is the first zone named `domain`.
pub open spec fn first_zone_named(zones: Seq<Zone>, domain: Seq<char>, i: int) -> bool {
    &&& 0 <= i < zones.len()
    &&& zones[i].name@ == domain
    &&& forall|j: int| 0 <= j < i ==> zones[j].name@ != domain
}

/// `records[i]` is the first record named `name`.
pub open spec fn first_record_named(records: Seq<DnsRecord>, name: Seq<char>, i: int) -> bool {
    &&& 0 <= i < records.len()
    &&& records[i].name@ == name
    &&& forall|j: int| 0 <= j < i ==> records[j].name@ != name
}

/// Where the lookup of a DNS record stands.
#[derive(Debug, Clone, PartialEq, Eq)]
pub enum LookupStage {
    /// The zones have been asked for.
    ZonesRequested,
    /// The records of the zone `zone_id` have been asked for.
    RecordsRequested { zone_id: String },
    /// The lookup is over.
    Finished,
}

/// The lookup of the record `record` in the zone named `domain`: it lists
/// the zones, then the records of the zone that carries the domain, and
/// picks the record named after the label. It only ever reads.
#[derive(Debug, Clone, PartialEq, Eq)]
pub struct DnsLookup {
    pub domain: String,
    pub record: String,
    pub stage: LookupStage,
}

/// What the driver reports back: the answer to the last request.
#[derive(Debug)]
pub enum LookupAnswer {
    /// The zone listing came back.
    ZonesListed(ApiListResponse<Zone>),
    /// The record listing came back.
    RecordsListed(ApiListResponse<DnsRecord>),
    /// The HTTP exchange failed; the text is the transport's own message.
    RequestFailed(String),
}

/// What the lookup asks its driver to do next.
#[derive(Debug, PartialEq, Eq)]
pub enum LookupAction {
    /// Read the zone listing (`GET` on `zones_url`).
    ListZones,
    /// Read the record listing of the zone `zone_id` (`GET` on `dns_records_url`).
    ListRecords { zone_id: String },
    /// The lookup is over with this outcome.
    Done(Result<DnsRecord, CloudflareError>),
}

/// The answer fits the request that the lookup is waiting for.
pub open spec fn lookup_accepts_spec(l: DnsLookup, a: LookupAnswer) -> bool {
    match l.stage {
        LookupStage::ZonesRequested => a is ZonesListed || a is RequestFailed,
        LookupStage::RecordsRequested { .. } => a is RecordsListed || a is RequestFailed,
        LookupStage::Finished => false,
    }
}

/// One step of the lookup: `next` and `action` are what follows `l` after
/// the answer `a`. The domain and label never change. A failed exchange ends
/// the lookup with a `Request` error; a listing that reports failure ends it
/// with an `Api` error; the records are asked for only right after a zone
/// named `domain` was found, and for that zone's id; the first record named
/// after the label ends the lookup, carrying that zone's id.
pub open spec fn lookup_step(l: DnsLookup, a: LookupAnswer, next: DnsLookup, action: LookupAction) -> bool {
    &&& next.domain == l.domain
    &&& next.record == l.record
    &&& match a {
        LookupAnswer::RequestFailed(m) => next.stage == LookupStage::Finished && action
            == LookupAction::Done(Err(CloudflareError::Request(m))),
        LookupAnswer::ZonesListed(body) => if !body.success {
            next.stage == LookupStage::Finished && (action matches LookupAction::Done(
                Err(CloudflareError::Api(m)),
            ) && m@ == debug_list_text(texts(body.errors@)))
        } else if exists|i: int| first_zone_named(listed(body), l.domain@, i) {
            exists|i: int|
                first_zone_named(listed(body), l.domain@, i) && next.stage
                    == (LookupStage::RecordsRequested { zone_id: listed(body)[i].id }) && action
                    == (LookupAction::ListRecords { zone_id: listed(body)[i].id })
        } else {
            next.stage == LookupStage::Finished && action == LookupAction::Done(
                Err(CloudflareError::ZoneNotFound(l.domain)),
            )
        },
        LookupAnswer::RecordsListed(body) => {
            let zone_id = l.stage->zone_id;
            let name = fqdn(l.record@, l.domain@);
            &&& next.stage == LookupStage::Finished
            &&& if !body.success {
                action matches LookupAction::Done(Err(CloudflareError::Api(m))) && m@
                    == debug_list_text(texts(body.errors@))
            } else if exists|i: int| first_record_named(listed(body), name, i) {
                exists|i: int|
                    first_record_named(listed(body), name, i) && action == LookupAction::Done(
                        Ok(DnsRecord { zone_id: zone_id, ..listed(body)[i] }),
                    )
            } else {
                action == LookupAction::Done(
                    Err(CloudflareError::RecordNotFound(l.record, l.domain)),
                )
            }
        },
    }
}

impl DnsLookup {
    /// Starts the lookup of the record `record` in the zone named `domain`:
    /// the first request lists the zones.
    pub fn new(domain: &str, record: &str) -> (start: (DnsLookup, LookupAction))
        ensures
            start.0.domain@ == domain@,
            start.0.record@ == record@,
            start.0.stage == LookupStage::ZonesRequested,
            start.1 == LookupAction::ListZones,
    {
        (
            DnsLookup {
                domain: String::from_str(domain),
                record: String::from_str(record),
                stage: LookupStage::ZonesRequested,
            },
            LookupAction::ListZones,
        )
    }

    /// Whether `next` can take `a` now (see `lookup_accepts_spec`).
    pub fn accepts(&self, a: &LookupAnswer) -> (ok: bool)
        ensures
            ok == lookup_accepts_spec(*self, *a),
    {
        match (&self.stage, a) {
            (LookupStage::ZonesRequested, LookupAnswer::ZonesListed(_)) => true,
            (LookupStage::RecordsRequested { .. }, LookupAnswer::RecordsListed(_)) => true,
            (LookupStage::Finished, _) => false,
            (_, LookupAnswer::RequestFailed(_)) => true,
            _ => false,
        }
    }

    /// Takes the answer to the last request and gives the lookup's new state
    /// and the next request or the outcome (see `lookup_step`).
    pub fn next(self, a: LookupAnswer) -> (step: (DnsLookup, LookupAction))
        requires
            lookup_accepts_spec(self, a),
        ensures
            lookup_step(self, a, step.0, step.1),
    {
        let DnsLookup { domain, record, stage } = self;
        match a {
            LookupAnswer::RequestFailed(m) => (
                DnsLookup { domain, record, stage: LookupStage::Finished },
                LookupAction::Done(Err(CloudflareError::Request(m))),
            ),
            LookupAnswer::ZonesListed(body) => {
                let ghost b = body;
                match list_result(body) {
                    Err(e) => (
                        DnsLookup { domain, record, stage: LookupStage::Finished },
                        LookupAction::Done(Err(e)),
                    ),
                    Ok(zones) => {
                        let ghost zs = zones@;
                        match select_zone(zones, domain.as_str()) {
                            Ok(z) => {
                                let zone_id = z.id.clone();
                                proof {
                                    let i = choose|i: int|
                                        0 <= i < zs.len() && zs[i] == z && z.name@ == domain@
                                            && forall|j: int| 0 <= j < i ==> zs[j].name@ != domain@;
                                    assert(first_zone_named(listed(b), domain@, i));
                                }
                                (
                                    DnsLookup {
                                        domain,
                                        record,
                                        stage: LookupStage::RecordsRequested { zone_id: z.id },
                                    },
                                    LookupAction::ListRecords { zone_id },
                                )
                            },
                            Err(_) => {
                                let e = CloudflareError::ZoneNotFound(domain.clone());
                                (
                                    DnsLookup { domain, record, stage: LookupStage::Finished },
                                    LookupAction::Done(Err(e)),
                                )
                            },
                        }
                    },
                }
            },
            LookupAnswer::RecordsListed(body) => {
                let ghost b = body;
                let zone_id = match stage {
                    LookupStage::RecordsRequested { zone_id } => zone_id,
                    _ => String::new(),
                };
                match list_result(body) {
                    Err(e) => (
                        DnsLookup { domain, record, stage: LookupStage::Finished },
                        LookupAction::Done(Err(e)),
                    ),
                    Ok(records) => {
                        let ghost rs = records@;
                        let ghost name = fqdn(record@, domain@);
                        let outcome = match select_record(
                            records,
                            zone_id,
                            record.as_str(),
                            domain.as_str(),
                        ) {
                            Ok(r) => {
                                proof {
                                    let i = choose|i: int|
                                        0 <= i < rs.len() && r == (DnsRecord {
                                            zone_id: r.zone_id,
                                            ..rs[i]
                                        }) && rs[i].name@ == name && forall|j: int|
                                            0 <= j < i ==> rs[j].name@ != name;
                                    assert(first_record_named(listed(b), name, i));
                                }
                                Ok(r)
                            },
                            Err(_) => Err(
                                CloudflareError::RecordNotFound(record.clone(), domain.clone()),
                            ),
                        };
                        (
                            DnsLookup { domain, record, stage: LookupStage::Finished },
                            LookupAction::Done(outcome),
                        )
                    },
                }
            },
        }
    }
}

/// The lookup asks for the records only right after a zone named after the
/// domain was found, and for that zone's id; every other answer either ends
/// the lookup or is the zone listing. A finished lookup takes no answer, so
/// at most two requests are ever made, both of them reads.
pub proof fn law_lookup_lists_records_of_matched_zone(
    l: DnsLookup,
    a: LookupAnswer,
    next: DnsLookup,
    action: LookupAction,
    zone_id: String,
)
    requires
        lookup_accepts_spec(l, a),
        lookup_step(l, a, next, action),
        action == (LookupAction::ListRecords { zone_id: zone_id }),
    ensures
        l.stage == LookupStage::ZonesRequested,
        a matches LookupAnswer::ZonesListed(body) && body.success && exists|i: int|
            first_zone_named(listed(body), l.domain@, i) && zone_id == listed(body)[i].id,
        next.stage == (LookupStage::RecordsRequested { zone_id: zone_id }),
{
}

/// What a lookup ends with: a record read from the listing of the zone
/// whose id was asked for, named after the label in the domain and given
/// that zone's id; `ZoneNotFound(domain)` only when no listed zone carries
/// the domain; `RecordNotFound(label, domain)` only when no listed record
/// carries the name; a failed exchange's own text as a `Request` error.
pub proof fn law_lookup_outcomes(l: DnsLookup, a: LookupAnswer, next: DnsLookup, r: DnsRecord, e: CloudflareError)
    requires
        lookup_accepts_spec(l, a),
    ensures
        lookup_step(l, a, next, LookupAction::Done(Ok(r))) ==> (a matches LookupAnswer::RecordsListed(body)
            && l.stage is RecordsRequested && r.zone_id == l.stage->zone_id && exists|i: int|
            0 <= i < listed(body).len() && listed(body)[i].name@ == fqdn(l.record@, l.domain@)
                && listed(body)[i].id == r.id && listed(body)[i].content == r.content
                && listed(body)[i].name == r.name && listed(body)[i].record_type == r.record_type),
        lookup_step(l, a, next, LookupAction::Done(Err(e))) && e is ZoneNotFound ==> (a matches LookupAnswer::ZonesListed(body)
            && e == CloudflareError::ZoneNotFound(l.domain) && forall|i: int|
            0 <= i < listed(body).len() ==> listed(body)[i].name@ != l.domain@),
        lookup_step(l, a, next, LookupAction::Done(Err(e))) && e is RecordNotFound ==> (a matches LookupAnswer::RecordsListed(body)
            && e == CloudflareError::RecordNotFound(l.record, l.domain) && forall|i: int|
            0 <= i < listed(body).len() ==> listed(body)[i].name@ != fqdn(l.record@, l.domain@)),
        a matches LookupAnswer::RequestFailed(m) ==> (lookup_step(l, a, next, LookupAction::Done(Err(e)))
            ==> e == CloudflareError::Request(m)),
{
    if let LookupAnswer::ZonesListed(body) = a {
        assert forall|i: int| 0 <= i < listed(body).len() && listed(body)[i].name@ == l.domain@ implies exists|k: int| first_zone_named(listed(body), l.domain@, k) by {
            lemma_first_zone(listed(body), l.domain@, i);
        }
    }
    if let LookupAnswer::RecordsListed(body) = a {
        let name = fqdn(l.record@, l.domain@);
        assert forall|i: int| 0 <= i < listed(body).len() && listed(body)[i].name@ == name implies exists|k: int| first_record_named(listed(body), name, k) by {
            lemma_first_record(listed(body), name, i);
        }
    }
}

proof fn lemma_first_zone(zones: Seq<Zone>, domain: Seq<char>, i: int)
    requires
        0 <= i < zones.len(),
        zones[i].name@ == domain,
    ensures
        exists|k: int| first_zone_named(zones, domain, k),
    decreases i,
{
    if forall|j: int| 0 <= j < i ==> zones[j].name@ != domain {
        assert(first_zone_named(zones, domain, i));
    } else {
        let j = choose|j: int| 0 <= j < i && zones[j].name@ == domain;
        lemma_first_zone(zones, domain, j);
    }
}

proof fn lemma_first_record(records: Seq<DnsRecord>, name: Seq<char>, i: int)
    requires
        0 <= i < records.len(),
        records[i].name@ == name,
    ensures
        exists|k: int| first_record_named(records, name, k),
    decreases i,
{
    if forall|j: int| 0 <= j < i ==> records[j].name@ != name {
        assert(first_record_named(records, name, i));
    } else {
        let j = choose|j: int| 0 <= j < i && records[j].name@ == name;
        lemma_first_record(records, name, j);
    }
}

/// A lookup that is waiting for records always ends at the next answer, and
/// a finished lookup takes no answer at all.
pub proof fn law_lookup_ends(l: DnsLookup, a: LookupAnswer, next: DnsLookup, action: LookupAction)
    requires
        lookup_accepts_spec(l, a),
        lookup_step(l, a, next, action),
    ensures
        !(l.stage is ZonesRequested) ==> next.stage == LookupStage::Finished && action is Done,
        action is Done <==> next.stage == LookupStage::Finished,
        !lookup_accepts_spec(DnsLookup { stage: LookupStage::Finished, ..l }, a),
{
}

} // verus!

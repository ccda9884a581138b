//! The records, zones and API envelopes exchanged with Cloudflare, and the
//! names that records are matched by.
use vstd::prelude::*;

verus! {

/// The fields of a Cloudflare DNS record that the updater uses.
///
/// Cloudflare no longer sends `zone_id` with a record; the updater fills it
/// in from the zone that the record was found in.
#[derive(Debug, Clone, PartialEq, Eq)]
pub struct DnsRecord {
    pub id: String,
    pub zone_id: String,
    pub name: String,
    pub content: String,
    pub record_type: String,
}

/// The envelope of a Cloudflare answer that lists items.
///
/// Each element of `errors` is the Debug rendering of one error object of the answer.
#[derive(Debug)]
pub struct ApiListResponse<T> {
    pub success: bool,
    pub result: Option<Vec<T>>,
    pub errors: Vec<String>,
}

/// The envelope of a Cloudflare answer that carries one item.
///
/// Each element of `errors` is the Debug rendering of one error object of the answer.
#[derive(Debug)]
pub struct ApiSingleResponse<T> {
    pub success: bool,
    pub result: Option<T>,
    pub errors: Vec<String>,
}

/// A Cloudflare zone, that is a domain.
#[derive(Debug, Clone, PartialEq, Eq)]
pub struct Zone {
    pub id: String,
    pub name: String,
}

/// The body sent to Cloudflare to point an A record at an address.
#[derive(Debug, Clone, PartialEq, Eq)]
pub struct UpdateRecordPayload {
    pub record_type: String,
    pub name: String,
    pub content: String,
}

impl UpdateRecordPayload {
    /// The payload that points the A record `name` at `ip`.
    pub fn a_record(name: &str, ip: &str) -> (payload: Self)
        ensures
            payload.record_type@ == seq!['A'],
            payload.name@ == name@,
            payload.content@ == ip@,
    {
        proof {
            reveal_strlit("A");
        }
        UpdateRecordPayload {
            record_type: String::from_str("A"),
            name: String::from_str(name),
            content: String::from_str(ip),
        }
    }
}

/// The fully qualified name of `record` in `domain`: the domain itself for
/// the empty label, else the label, a dot and the domain.
pub open spec fn fqdn(record: Seq<char>, domain: Seq<char>) -> Seq<char> {
    if record.len() == 0 {
        domain
    } else {
        record + seq!['.'] + domain
    }
}

/// The resolved name is the label, one dot and the domain, character for
/// character, with nothing cut or added (so it is `|label| + 1 + |domain|`
/// long and ends with the domain); the empty label resolves to the domain.
pub proof fn law_fqdn_joins_label_and_domain(record: Seq<char>, domain: Seq<char>)
    ensures
        record.len() == 0 ==> fqdn(record, domain) == domain,
        record.len() > 0 ==> fqdn(record, domain) == record + seq!['.'] + domain,
        record.len() > 0 ==> fqdn(record, domain).len() == record.len() + 1 + domain.len(),
        record.len() > 0 ==> fqdn(record, domain).subrange(0, record.len() as int) == record,
        record.len() > 0 ==> fqdn(record, domain)[record.len() as int] == '.',
        fqdn(record, domain).subrange(
            fqdn(record, domain).len() - domain.len(),
            fqdn(record, domain).len() as int,
        ) == domain,
{
    if record.len() > 0 {
        let f = record + seq!['.'] + domain;
        assert(f.subrange(0, record.len() as int) =~= record);
        assert(f.subrange(f.len() - domain.len(), f.len() as int) =~= domain);
    } else {
        assert(domain.subrange(0, domain.len() as int) =~= domain);
    }
}

/// Resolves the DNS name used for matching and updates.
pub fn record_fqdn(record: &str, domain: &str) -> (name: String)
    ensures
        name@ == fqdn(record@, domain@),
        record@.len() == 0 ==> name@ == domain@,
        record@.len() > 0 ==> name@ == record@ + seq!['.'] + domain@,
{
    if record.is_empty() {
        String::from_str(domain)
    } else {
        proof {
            reveal_strlit(".");
        }
        let mut name = String::from_str(record);
        name.append(".");
        name.append(domain);
        name
    }
}

} // verus!

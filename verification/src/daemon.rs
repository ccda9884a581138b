//! The updater's main loop as a state machine: from what just happened to
//! what to report and what to do next. A driver performs the actions (HTTP
//! requests, sleeping, exiting) and feeds their outcomes back as events.
use vstd::prelude::*;

use crate::cloudflare::needs_update;
use crate::config::Config;
use crate::record::DnsRecord;

verus! {

/// The decimal digit `d` as a character.
pub open spec fn digit_char(d: int) -> char {
    seq!['0', '1', '2', '3', '4', '5', '6', '7', '8', '9'][d]
}

/// `n` written with two decimal digits (`n < 100`).
pub open spec fn two_digits(n: int) -> Seq<char> {
    seq![digit_char(n / 10), digit_char(n % 10)]
}

/// The time of day of the Unix time `now_secs`, in UTC, as `HH:MM:SS`.
pub open spec fn clock_text(now_secs: u64) -> Seq<char> {
    let secs = (now_secs % 86400) as int;
    two_digits(secs / 3600) + seq![':'] + two_digits((secs % 3600) / 60) + seq![':'] + two_digits(
        secs % 60,
    )
}

fn digit_text(d: u64) -> (t: &'static str)
    requires
        d < 10,
    ensures
        t@ == seq![digit_char(d as int)],
{
    proof {
        reveal_strlit("0");
        reveal_strlit("1");
        reveal_strlit("2");
        reveal_strlit("3");
        reveal_strlit("4");
        reveal_strlit("5");
        reveal_strlit("6");
        reveal_strlit("7");
        reveal_strlit("8");
        reveal_strlit("9");
    }
    match d {
        0 => "0",
        1 => "1",
        2 => "2",
        3 => "3",
        4 => "4",
        5 => "5",
        6 => "6",
        7 => "7",
        8 => "8",
        _ => "9",
    }
}

fn push_two_digits(text: &mut String, n: u64)
    requires
        n < 100,
    ensures
        final(text)@ == old(text)@ + two_digits(n as int),
{
    text.append(digit_text(n / 10));
    text.append(digit_text(n % 10));
}

/// The log timestamp for the Unix time `now_secs`: the UTC time of day as `HH:MM:SS`.
pub fn chrono_like_time(now_secs: u64) -> (text: String)
    ensures
        text@ == clock_text(now_secs),
{
    proof {
        reveal_strlit(":");
    }
    let secs = now_secs % 86400;
    let h = secs / 3600;
    let m = (secs % 3600) / 60;
    let s = secs % 60;
    let mut text = String::new();
    push_two_digits(&mut text, h);
    text.append(":");
    push_two_digits(&mut text, m);
    text.append(":");
    push_two_digits(&mut text, s);
    text
}

/// The timestamp repeats every day and always has the shape `HH:MM:SS`.
pub proof fn law_clock_text_daily(now_secs: u64)
    ensures
        clock_text(now_secs).len() == 8,
        clock_text(now_secs)[2] == ':' && clock_text(now_secs)[5] == ':',
        now_secs + 86400 <= u64::MAX ==> clock_text((now_secs + 86400) as u64) == clock_text(
            now_secs,
        ),
{
    if now_secs + 86400 <= u64::MAX {
        assert(((now_secs + 86400) as u64) % 86400 == now_secs % 86400);
    }
}

proof fn lemma_digit_char(d: int)
    requires
        0 <= d < 10,
    ensures
        '0' <= digit_char(d) <= '9',
        digit_char(d) as int - '0' as int == d,
{
    let ds = seq!['0', '1', '2', '3', '4', '5', '6', '7', '8', '9'];
    if d == 0 {
        assert(ds[0] == '0');
    } else if d == 1 {
        assert(ds[1] == '1');
    } else if d == 2 {
        assert(ds[2] == '2');
    } else if d == 3 {
        assert(ds[3] == '3');
    } else if d == 4 {
        assert(ds[4] == '4');
    } else if d == 5 {
        assert(ds[5] == '5');
    } else if d == 6 {
        assert(ds[6] == '6');
    } else if d == 7 {
        assert(ds[7] == '7');
    } else if d == 8 {
        assert(ds[8] == '8');
    } else {
        assert(ds[9] == '9');
    }
}

/// The timestamp reads back as the UTC time of day: two decimal digits each
/// for the hours, minutes and seconds of `now_secs` within its day,
/// separated by colons.
pub proof fn law_clock_text_reads_back(now_secs: u64)
    ensures
        ({
            let c = clock_text(now_secs);
            let secs = (now_secs % 86400) as int;
            &&& c.len() == 8
            &&& c[2] == ':' && c[5] == ':'
            &&& forall|k: int|
                0 <= k < 8 && k != 2 && k != 5 ==> '0' <= #[trigger] c[k] <= '9'
            &&& (c[0] as int - '0' as int) * 10 + (c[1] as int - '0' as int) == secs / 3600
            &&& (c[3] as int - '0' as int) * 10 + (c[4] as int - '0' as int) == (secs % 3600)
                / 60
            &&& (c[6] as int - '0' as int) * 10 + (c[7] as int - '0' as int) == secs % 60
        }),
{
    let secs = (now_secs % 86400) as int;
    let h = secs / 3600;
    let m = (secs % 3600) / 60;
    let s = secs % 60;
    lemma_digit_char(h / 10);
    lemma_digit_char(h % 10);
    lemma_digit_char(m / 10);
    lemma_digit_char(m % 10);
    lemma_digit_char(s / 10);
    lemma_digit_char(s % 10);
    let c = clock_text(now_secs);
    assert(c =~= seq![
        digit_char(h / 10),
        digit_char(h % 10),
        ':',
        digit_char(m / 10),
        digit_char(m % 10),
        ':',
        digit_char(s / 10),
        digit_char(s % 10),
    ]);
}

/// What to do about the DNS record once the public address is known.
#[derive(Debug, Clone, PartialEq, Eq)]
pub enum UpdatePlan {
    /// The record already points at the public address.
    Keep,
    /// Point the record `record_id` of zone `zone_id`, named `name`, at `ip`.
    Put { zone_id: String, record_id: String, name: String, ip: String },
}

/// Decides what to do about `last_record`: keep it when it already holds
/// `public_ip`, else put `public_ip` into it under the configured label `record_name`.
pub fn plan_update(public_ip: &str, last_record: &DnsRecord, record_name: &str) -> (plan:
    UpdatePlan)
    ensures
        (plan is Keep) == (public_ip@ == last_record.content@),
        plan matches UpdatePlan::Put { zone_id, record_id, name, ip } ==> zone_id@
            == last_record.zone_id@ && record_id@ == last_record.id@ && name@ == record_name@ && ip@
            == public_ip@,
{
    if needs_update(public_ip, last_record.content.as_str()) {
        UpdatePlan::Put {
            zone_id: last_record.zone_id.clone(),
            record_id: last_record.id.clone(),
            name: String::from_str(record_name),
            ip: String::from_str(public_ip),
        }
    } else {
        UpdatePlan::Keep
    }
}

/// Whether the updater is still starting up (an error ends it) or already
/// running its periodic checks (an error is reported and the check retried later).
#[derive(Debug, Clone, Copy, PartialEq, Eq)]
pub enum Phase {
    Starting,
    Running,
}

/// What the driver reports back: the outcome of the last action.
#[derive(Debug, Clone, PartialEq, Eq)]
pub enum Event {
    /// The process has started.
    Started,
    /// The DNS record was read from Cloudflare.
    RecordFetched(DnsRecord),
    /// The public address was read.
    PublicIpFetched(String),
    /// Cloudflare accepted the update and answered with this record.
    RecordUpdated(DnsRecord),
    /// The last action failed; the text describes the error.
    Failed(String),
    /// The pause between two checks is over.
    Woke,
}

/// What the updater reports to its log.
#[derive(Debug, Clone, PartialEq, Eq)]
pub enum Notice {
    /// Start-up has begun.
    Initialization,
    /// The DNS record that Cloudflare holds.
    CurrentRecord { name: String, content: String },
    /// The public address differs from the one in DNS.
    IpChanged { public_ip: String, dns_ip: String },
    /// Cloudflare now points the record at `content`.
    RecordUpdated { content: String },
    /// The public address is the one already in DNS.
    IpUnchanged { public_ip: String },
    /// A periodic check has begun.
    Refreshing,
    /// Start-up failed with this error.
    InitFailed(String),
    /// A periodic check failed with this error.
    RefreshFailed(String),
}

/// What the updater asks its driver to do next.
#[derive(Debug, Clone, PartialEq, Eq)]
pub enum Action {
    /// Read the configured DNS record from Cloudflare.
    FetchRecord,
    /// Read the public address.
    FetchPublicIp,
    /// Point the record `record_id` of zone `zone_id`, named `name`, at `ip`.
    PutRecord { zone_id: String, record_id: String, name: String, ip: String },
    /// Pause for this many seconds, then report `Woke`.
    Sleep(u64),
    /// Stop the process with this error.
    Exit(String),
}

/// The updater's state.
#[derive(Debug, Clone, PartialEq, Eq)]
pub struct Daemon {
    pub phase: Phase,
    /// The configured record label, sent with every update.
    pub record_name: String,
    /// The configured pause between checks, in seconds.
    pub interval_sec: u64,
    /// The DNS record as last read from, or written to, Cloudflare.
    pub last_record: Option<DnsRecord>,
}

/// The event can be taken in this state: an address can only be compared
/// once a record has been read.
pub open spec fn accepts_spec(d: Daemon, e: Event) -> bool {
    e is PublicIpFetched ==> d.last_record is Some
}

/// One step of the updater: the state after `e`, what to report, and what to do next.
pub open spec fn step_spec(d: Daemon, e: Event) -> (Daemon, Notice, Action) {
    match e {
        Event::Started => (d, Notice::Initialization, Action::FetchRecord),
        Event::Woke => (d, Notice::Refreshing, Action::FetchRecord),
        Event::RecordFetched(r) => (
            Daemon { last_record: Some(r), ..d },
            Notice::CurrentRecord { name: r.name, content: r.content },
            Action::FetchPublicIp,
        ),
        Event::PublicIpFetched(ip) => {
            let r = d.last_record->0;
            if ip@ != r.content@ {
                (
                    d,
                    Notice::IpChanged { public_ip: ip, dns_ip: r.content },
                    Action::PutRecord {
                        zone_id: r.zone_id,
                        record_id: r.id,
                        name: d.record_name,
                        ip: ip,
                    },
                )
            } else {
                (
                    Daemon { phase: Phase::Running, ..d },
                    Notice::IpUnchanged { public_ip: ip },
                    Action::Sleep(d.interval_sec),
                )
            }
        },
        Event::RecordUpdated(r) => (
            Daemon { phase: Phase::Running, last_record: Some(r), ..d },
            Notice::RecordUpdated { content: r.content },
            Action::Sleep(d.interval_sec),
        ),
        Event::Failed(m) => match d.phase {
            Phase::Starting => (d, Notice::InitFailed(m), Action::Exit(m)),
            Phase::Running => (d, Notice::RefreshFailed(m), Action::Sleep(d.interval_sec)),
        },
    }
}

impl Daemon {
    /// The updater before start-up, configured by `cfg`.
    pub fn new(cfg: &Config) -> (d: Daemon)
        ensures
            d.phase == Phase::Starting,
            d.record_name == cfg.record,
            d.interval_sec == cfg.check_interval_sec,
            d.last_record is None,
    {
        Daemon {
            phase: Phase::Starting,
            record_name: cfg.record.clone(),
            interval_sec: cfg.check_interval_sec,
            last_record: None,
        }
    }

    /// Whether `step` can take `e` now (see `accepts_spec`).
    pub fn accepts(&self, e: &Event) -> (ok: bool)
        ensures
            ok == accepts_spec(*self, *e),
    {
        match e {
            Event::PublicIpFetched(_) => self.last_record.is_some(),
            _ => true,
        }
    }

    /// Takes the outcome of the last action and gives the new state, the
    /// notice to log and the next action (see `step_spec`).
    pub fn step(self, e: Event) -> (out: (Daemon, Notice, Action))
        requires
            accepts_spec(self, e),
        ensures
            out == step_spec(self, e),
    {
        match e {
            Event::Started => (self, Notice::Initialization, Action::FetchRecord),
            Event::Woke => (self, Notice::Refreshing, Action::FetchRecord),
            Event::RecordFetched(r) => {
                let notice = Notice::CurrentRecord {
                    name: r.name.clone(),
                    content: r.content.clone(),
                };
                (Daemon { last_record: Some(r), ..self }, notice, Action::FetchPublicIp)
            },
            Event::PublicIpFetched(ip) => {
                let plan = match &self.last_record {
                    Some(r) => plan_update(ip.as_str(), r, self.record_name.as_str()),
                    None => UpdatePlan::Keep,
                };
                match plan {
                    UpdatePlan::Put { .. } => {
                        let r = self.last_record.as_ref().unwrap();
                        let notice = Notice::IpChanged {
                            public_ip: ip.clone(),
                            dns_ip: r.content.clone(),
                        };
                        let action = Action::PutRecord {
                            zone_id: r.zone_id.clone(),
                            record_id: r.id.clone(),
                            name: self.record_name.clone(),
                            ip: ip,
                        };
                        (self, notice, action)
                    },
                    UpdatePlan::Keep => {
                        let interval = self.interval_sec;
                        (
                            Daemon { phase: Phase::Running, ..self },
                            Notice::IpUnchanged { public_ip: ip },
                            Action::Sleep(interval),
                        )
                    },
                }
            },
            Event::RecordUpdated(r) => {
                let notice = Notice::RecordUpdated { content: r.content.clone() };
                let interval = self.interval_sec;
                (
                    Daemon { phase: Phase::Running, last_record: Some(r), ..self },
                    notice,
                    Action::Sleep(interval),
                )
            },
            Event::Failed(m) => match self.phase {
                Phase::Starting => {
                    let notice = Notice::InitFailed(m.clone());
                    (self, notice, Action::Exit(m))
                },
                Phase::Running => {
                    let interval = self.interval_sec;
                    (self, Notice::RefreshFailed(m), Action::Sleep(interval))
                },
            },
        }
    }
}

/// Once running, the updater never stops: whatever happens, it stays
/// running and its next action is not `Exit`.
pub proof fn law_running_never_exits(d: Daemon, e: Event)
    requires
        d.phase == Phase::Running,
        accepts_spec(d, e),
    ensures
        step_spec(d, e).0.phase == Phase::Running,
        !(step_spec(d, e).2 is Exit),
{
}

/// A failure during start-up stops the updater with that failure's text,
/// and a failure at any time leaves the last known record as it was.
pub proof fn law_failures(d: Daemon, m: String)
    ensures
        d.phase == Phase::Starting ==> step_spec(d, Event::Failed(m)).2 == Action::Exit(m),
        d.phase == Phase::Running ==> step_spec(d, Event::Failed(m)).2 == Action::Sleep(
            d.interval_sec,
        ),
        step_spec(d, Event::Failed(m)).0 == d,
{
}

/// Cloudflare is asked to change the record exactly when the public address
/// differs from the record's content, and then for that record's zone and id,
/// under the configured label, with the public address.
pub proof fn law_update_only_on_change(d: Daemon, ip: String)
    requires
        d.last_record is Some,
    ensures
        ({
            let r = d.last_record->0;
            let a = step_spec(d, Event::PublicIpFetched(ip)).2;
            &&& (a is PutRecord) == (ip@ != r.content@)
            &&& a is PutRecord ==> a == Action::PutRecord {
                zone_id: r.zone_id,
                record_id: r.id,
                name: d.record_name,
                ip: ip,
            }
            &&& !(a is PutRecord) ==> a == Action::Sleep(d.interval_sec)
        }),
{
}

/// Once running, the updater always knows a record: a fresh updater has
/// none and is starting, and every step keeps "running implies a known
/// record", so a running updater can take every event.
pub proof fn law_running_knows_a_record(d: Daemon, e: Event)
    requires
        d.phase == Phase::Running ==> d.last_record is Some,
        accepts_spec(d, e),
    ensures
        step_spec(d, e).0.phase == Phase::Running ==> step_spec(d, e).0.last_record is Some,
        d.phase == Phase::Running ==> forall|e2: Event| accepts_spec(d, e2),
{
}

/// Which event leads to which action: the record is read at start-up and
/// after each pause, the address right after the record, an update is sent
/// only in answer to a freshly read address, every pause lasts the configured
/// interval and follows a successful update, an unchanged address or (once
/// running) a failure, and only a failure during start-up stops the updater.
pub proof fn law_actions_follow_events(d: Daemon, e: Event)
    requires
        accepts_spec(d, e),
    ensures
        (step_spec(d, e).2 is FetchRecord) == (e is Started || e is Woke),
        (step_spec(d, e).2 is FetchPublicIp) == (e is RecordFetched),
        step_spec(d, e).2 is PutRecord ==> e is PublicIpFetched,
        step_spec(d, e).2 matches Action::Sleep(n) ==> n == d.interval_sec,
        (step_spec(d, e).2 is Exit) == (e is Failed && d.phase == Phase::Starting),
        e is RecordUpdated ==> step_spec(d, e).2 == Action::Sleep(d.interval_sec),
        e is Failed && d.phase == Phase::Running ==> step_spec(d, e).2 == Action::Sleep(
            d.interval_sec,
        ),
        !(e is RecordFetched || e is RecordUpdated) ==> step_spec(d, e).0.last_record
            == d.last_record,
        step_spec(d, e).0.phase == Phase::Running ==> d.phase == Phase::Running
            || e is RecordUpdated || e is PublicIpFetched,
{
}

/// What is reported: the record as read (its name and content), the address
/// change with both addresses, the content Cloudflare now holds, the unchanged
/// address, and each failure's own text, as a start-up or a check failure.
pub proof fn law_notices_report_events(d: Daemon, e: Event)
    requires
        accepts_spec(d, e),
    ensures
        e is Started ==> step_spec(d, e).1 == Notice::Initialization,
        e is Woke ==> step_spec(d, e).1 == Notice::Refreshing,
        e matches Event::RecordFetched(r) ==> step_spec(d, e).1 == (Notice::CurrentRecord {
            name: r.name,
            content: r.content,
        }),
        e matches Event::RecordUpdated(r) ==> step_spec(d, e).1 == (Notice::RecordUpdated {
            content: r.content,
        }),
        e matches Event::PublicIpFetched(ip) ==> step_spec(d, e).1 == (if ip@
            != d.last_record->0.content@ {
            Notice::IpChanged { public_ip: ip, dns_ip: d.last_record->0.content }
        } else {
            Notice::IpUnchanged { public_ip: ip }
        }),
        e matches Event::Failed(m) ==> step_spec(d, e).1 == (if d.phase == Phase::Starting {
            Notice::InitFailed(m)
        } else {
            Notice::RefreshFailed(m)
        }),
{
}

/// Every step keeps the configured label and interval.
pub proof fn law_settings_kept(d: Daemon, e: Event)
    ensures
        step_spec(d, e).0.record_name == d.record_name,
        step_spec(d, e).0.interval_sec == d.interval_sec,
{
}

/// After a successful update the updater remembers the record that
/// Cloudflare answered with; after a read, the record that was read.
pub proof fn law_record_remembered(d: Daemon, r: DnsRecord)
    ensures
        step_spec(d, Event::RecordUpdated(r)).0.last_record == Some(r),
        step_spec(d, Event::RecordUpdated(r)).0.phase == Phase::Running,
        step_spec(d, Event::RecordFetched(r)).0.last_record == Some(r),
        step_spec(d, Event::RecordFetched(r)).2 == Action::FetchPublicIp,
{
}

} // verus!

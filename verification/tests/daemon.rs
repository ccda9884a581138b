use cloudflare_dyndns::config::{Config, EnvVars};
use cloudflare_dyndns::daemon::{chrono_like_time, plan_update, Action, Daemon, Event, Notice, Phase, UpdatePlan};
use cloudflare_dyndns::record::DnsRecord;

fn record(content: &str) -> DnsRecord {
    DnsRecord {
        id: "rec1".to_string(),
        zone_id: "zone1".to_string(),
        name: "www.acme.com".to_string(),
        content: content.to_string(),
        record_type: "A".to_string(),
    }
}

fn daemon() -> Daemon {
    let cfg = Config::from_env_vars(EnvVars {
        record: Some("www".to_string()),
        check_interval_sec: Some("60".to_string()),
        ..EnvVars::default()
    });
    Daemon::new(&cfg)
}

#[test]
fn chrono_like_time_formats_utc_clock() {
    assert_eq!(chrono_like_time(0), "00:00:00");
    assert_eq!(chrono_like_time(3661), "01:01:01");
    assert_eq!(chrono_like_time(86399), "23:59:59");
    assert_eq!(chrono_like_time(86400 + 45296), "12:34:56");
    assert_eq!(chrono_like_time(12345), chrono_like_time(12345 + 86400));
    assert_eq!(chrono_like_time(u64::MAX), {
        let secs = u64::MAX % 86400;
        format!("{:02}:{:02}:{:02}", secs / 3600, (secs % 3600) / 60, secs % 60)
    });
}

#[test]
fn plan_keeps_matching_record() {
    assert_eq!(plan_update("1.2.3.4", &record("1.2.3.4"), "www"), UpdatePlan::Keep);
    assert_eq!(
        plan_update("8.8.8.8", &record("1.2.3.4"), ""),
        UpdatePlan::Put {
            zone_id: "zone1".to_string(),
            record_id: "rec1".to_string(),
            name: "".to_string(),
            ip: "8.8.8.8".to_string(),
        }
    );
}

#[test]
fn startup_then_update_then_sleep() {
    let d = daemon();
    let (d, n, a) = d.step(Event::Started);
    assert_eq!(n, Notice::Initialization);
    assert_eq!(a, Action::FetchRecord);
    let (d, n, a) = d.step(Event::RecordFetched(record("1.2.3.4")));
    assert_eq!(n, Notice::CurrentRecord { name: "www.acme.com".to_string(), content: "1.2.3.4".to_string() });
    assert_eq!(a, Action::FetchPublicIp);
    assert!(d.accepts(&Event::PublicIpFetched("8.8.8.8".to_string())));
    let (d, n, a) = d.step(Event::PublicIpFetched("8.8.8.8".to_string()));
    assert_eq!(n, Notice::IpChanged { public_ip: "8.8.8.8".to_string(), dns_ip: "1.2.3.4".to_string() });
    assert_eq!(
        a,
        Action::PutRecord {
            zone_id: "zone1".to_string(),
            record_id: "rec1".to_string(),
            name: "www".to_string(),
            ip: "8.8.8.8".to_string(),
        }
    );
    assert_eq!(d.phase, Phase::Starting);
    let (d, n, a) = d.step(Event::RecordUpdated(record("8.8.8.8")));
    assert_eq!(n, Notice::RecordUpdated { content: "8.8.8.8".to_string() });
    assert_eq!(a, Action::Sleep(60));
    assert_eq!(d.phase, Phase::Running);
    assert_eq!(d.last_record, Some(record("8.8.8.8")));
}

#[test]
fn unchanged_ip_skips_update() {
    let d = daemon();
    let (d, _, _) = d.step(Event::Started);
    let (d, _, _) = d.step(Event::RecordFetched(record("1.2.3.4")));
    let (d, n, a) = d.step(Event::PublicIpFetched("1.2.3.4".to_string()));
    assert_eq!(n, Notice::IpUnchanged { public_ip: "1.2.3.4".to_string() });
    assert_eq!(a, Action::Sleep(60));
    assert_eq!(d.phase, Phase::Running);
}

#[test]
fn startup_failure_exits() {
    let d = daemon();
    let (d, _, _) = d.step(Event::Started);
    assert!(!d.accepts(&Event::PublicIpFetched("1.1.1.1".to_string())));
    let (_, n, a) = d.step(Event::Failed("boom".to_string()));
    assert_eq!(n, Notice::InitFailed("boom".to_string()));
    assert_eq!(a, Action::Exit("boom".to_string()));
}

#[test]
fn running_failure_retries_after_sleep() {
    let d = daemon();
    let (d, _, _) = d.step(Event::RecordFetched(record("1.2.3.4")));
    let (d, _, _) = d.step(Event::PublicIpFetched("1.2.3.4".to_string()));
    let (d, n, a) = d.step(Event::Woke);
    assert_eq!(n, Notice::Refreshing);
    assert_eq!(a, Action::FetchRecord);
    let (d, n, a) = d.step(Event::Failed("timeout".to_string()));
    assert_eq!(n, Notice::RefreshFailed("timeout".to_string()));
    assert_eq!(a, Action::Sleep(60));
    assert_eq!(d.phase, Phase::Running);
    assert_eq!(d.last_record, Some(record("1.2.3.4")));
    assert_eq!(d.record_name, "www");
    assert_eq!(d.interval_sec, 60);
    assert!(d.accepts(&Event::PublicIpFetched("9.9.9.9".to_string())));
}

use asset_telemetry::metrics::domain::{write_outcome, Domain, Persistence, SAMPLE_PERIOD_SECS};
use asset_telemetry::response::Reply;
use asset_telemetry::metrics::hardware::cpu::{reconcile_cpu_metrics, CpuMetrics};
use asset_telemetry::metrics::hardware::memory::{reconcile_memory_metrics, MemoryMetrics};
use asset_telemetry::metrics::owner::{is_exclusively_owned, is_owned_by, MetricRecord};
use asset_telemetry::metrics::scheduler::{Action, Event, PeriodicScheduler, Phase};
use asset_telemetry::metrics::software::services::{
    get_services_status_info_handler, ServiceStatus,
};
use asset_telemetry::metrics::store::{same_owners, MetricTable};

fn memory_pass(table: &mut MetricTable<MemoryMetrics>, id: i32, total: u64, used: u64) {
    let stored = table.lookup(id).cloned();
    let record = reconcile_memory_metrics(stored, id, total, used);
    assert!(is_exclusively_owned(&record));
    table.persist(record, Domain::Memory.persistence());
}

fn cpu_pass(table: &mut MetricTable<CpuMetrics>, id: i32, now: i64) {
    let stored = table.lookup(id).cloned();
    let cpu = Some(("cpu0".to_string(), "GenuineIntel".to_string(), "Xeon".to_string()));
    let record = reconcile_cpu_metrics(stored, id, &cpu, now);
    assert!(is_exclusively_owned(&record));
    table.persist(record, Domain::Cpu.persistence());
}

#[test]
fn first_pass_creates_exactly_one_record() {
    let mut memory = MetricTable::new();
    assert_eq!(memory.count_owned(7), 0);
    memory_pass(&mut memory, 7, 1024, 512);
    assert_eq!(memory.count_owned(7), 1);
    assert_eq!(memory.len(), 1);

    let mut cpu = MetricTable::new();
    cpu_pass(&mut cpu, 7, 100);
    assert_eq!(cpu.count_owned(7), 1);
    assert_eq!(cpu.len(), 1);
}

#[test]
fn repeated_pass_keeps_one_record_where_the_domain_overwrites() {
    let mut cpu = MetricTable::new();
    cpu_pass(&mut cpu, 7, 100);
    cpu_pass(&mut cpu, 7, 200);
    cpu_pass(&mut cpu, 7, 300);
    assert_eq!(cpu.count_owned(7), 1);
    assert_eq!(cpu.len(), 1);
    assert_eq!(cpu.lookup(7).expect("stored").last_refresh, Some(300));
}

#[test]
fn repeated_pass_accumulates_duplicates_where_the_domain_inserts() {
    let mut memory = MetricTable::new();
    memory_pass(&mut memory, 7, 1024, 512);
    memory_pass(&mut memory, 7, 1024, 600);
    memory_pass(&mut memory, 7, 1024, 700);
    assert_eq!(memory.count_owned(7), 3);
    assert_eq!(memory.len(), 3);
    // The lookup keeps finding the oldest row.
    assert_eq!(memory.lookup(7).expect("stored").used_memory, Some(512));
    assert_eq!(memory.row(2).expect("third").used_memory, Some(700));
    assert!(memory.row(3).is_none());
}

#[test]
fn passes_of_different_owners_do_not_touch_each_other() {
    let mut cpu = MetricTable::new();
    cpu_pass(&mut cpu, 7, 100);
    cpu_pass(&mut cpu, 8, 200);
    cpu_pass(&mut cpu, 7, 300);
    assert_eq!(cpu.count_owned(7), 1);
    assert_eq!(cpu.count_owned(8), 1);
    assert_eq!(cpu.count_owned(9), 0);
    assert_eq!(cpu.len(), 2);
    assert_eq!(cpu.row(0).expect("first").last_refresh, Some(300));
    assert_eq!(cpu.row(1).expect("second").last_refresh, Some(200));
    assert!(cpu.lookup(9).is_none());
}

#[test]
fn every_persisted_record_has_exactly_one_owner() {
    let mut memory = MetricTable::new();
    memory_pass(&mut memory, 7, 1, 1);
    memory.persist(MemoryMetrics::new(None, Some(8), Some(2), Some(2)), Persistence::Insert);
    memory_pass(&mut memory, 8, 3, 3);
    memory_pass(&mut memory, 9, 4, 4);
    for index in 0..memory.len() {
        let row = memory.row(index).expect("in range");
        assert!(is_exclusively_owned(row));
        assert_ne!(row.sub_admin_metrics_id.is_some(), row.staff_metrics_id.is_some());
    }
    // A staff-owned row keeps its owner column through a pass.
    assert_eq!(memory.row(2).expect("third").owners(), (None, Some(8)));
    assert_eq!(memory.row(3).expect("fourth").owners(), (Some(9), None));
}

#[test]
fn ownership_checks_look_at_both_columns() {
    let by_sub_admin = MemoryMetrics::new(Some(1), None, None, None);
    let by_staff = MemoryMetrics::new(None, Some(1), None, None);
    let by_both = MemoryMetrics::new(Some(1), Some(2), None, None);
    let by_none = MemoryMetrics::new(None, None, None, None);
    assert!(is_exclusively_owned(&by_sub_admin));
    assert!(is_exclusively_owned(&by_staff));
    assert!(!is_exclusively_owned(&by_both));
    assert!(!is_exclusively_owned(&by_none));
    assert!(is_owned_by(&by_sub_admin, 1));
    assert!(is_owned_by(&by_staff, 1));
    assert!(is_owned_by(&by_both, 2));
    assert!(!is_owned_by(&by_both, 3));
    assert!(!is_owned_by(&by_none, 0));
}

#[test]
fn upsert_conflicts_on_the_owner_columns_only() {
    let mut services = MetricTable::new();
    let first = get_services_status_info_handler(None, 7, Some("RUNNING".to_string()));
    services.persist(first, Persistence::Upsert);
    let staff_row = ServiceStatus::new(None, Some(7), Some("wuauserv".into()), None);
    services.persist(staff_row.clone(), Persistence::Upsert);
    assert_eq!(services.len(), 2);
    assert_eq!(services.count_owned(7), 2);

    let stored = services.lookup(7).cloned();
    let refreshed = get_services_status_info_handler(stored, 7, Some("STOPPED".to_string()));
    services.persist(refreshed, Persistence::Upsert);
    assert_eq!(services.len(), 2);
    assert_eq!(services.row(0).expect("first").status.as_deref(), Some("STOPPED"));
    assert_eq!(services.row(1).expect("second"), &staff_row);
}

#[test]
fn same_owners_compares_both_columns() {
    assert!(same_owners((Some(1), None), (Some(1), None)));
    assert!(same_owners((None, None), (None, None)));
    assert!(!same_owners((Some(1), None), (None, Some(1))));
    assert!(!same_owners((Some(1), None), (Some(2), None)));
    assert!(!same_owners((Some(1), Some(2)), (Some(1), None)));
}

#[test]
fn only_cpu_and_service_status_overwrite() {
    let all = [
        Domain::SystemInfo,
        Domain::Cpu,
        Domain::Disk,
        Domain::Memory,
        Domain::Network,
        Domain::Filesystem,
        Domain::IpLocation,
        Domain::Process,
        Domain::ServiceStatus,
        Domain::Uptime,
    ];
    for domain in all {
        let expected = if domain == Domain::Cpu || domain == Domain::ServiceStatus {
            Persistence::Upsert
        } else {
            Persistence::Insert
        };
        assert_eq!(domain.persistence(), expected);
    }
}

#[test]
fn a_failed_write_is_answered_with_a_generic_error() {
    assert_eq!(write_outcome(Domain::Cpu, Ok(())), None);
    assert_eq!(
        write_outcome(Domain::Cpu, Err("connection reset".to_string())),
        Some(Reply { status: 500, body: "Failed to save CPU info".to_string() })
    );
    assert_eq!(
        write_outcome(Domain::Uptime, Err(String::new())),
        Some(Reply { status: 500, body: "Failed to save uptime info".to_string() })
    );
}

#[test]
fn baseline_order_walks_all_domains_once() {
    let mut walked = vec![Domain::first()];
    while let Some(next) = walked[walked.len() - 1].successor() {
        walked.push(next);
    }
    assert_eq!(
        walked,
        vec![
            Domain::SystemInfo,
            Domain::Cpu,
            Domain::Disk,
            Domain::Memory,
            Domain::Network,
            Domain::Filesystem,
            Domain::IpLocation,
            Domain::Process,
            Domain::ServiceStatus,
            Domain::Uptime,
        ]
    );
}

#[test]
fn sampler_returns_after_its_first_sample() {
    let sampler = PeriodicScheduler::new(Domain::Cpu);
    assert_eq!(sampler.action(), Action::AwaitTick(3600));
    assert_eq!(SAMPLE_PERIOD_SECS, 3600);

    let sampler = sampler.step(Event::Tick);
    assert_eq!(sampler.phase, Phase::Sampling);
    assert_eq!(sampler.action(), Action::Sample(Domain::Cpu));

    let sampler = sampler.step(Event::Sampled);
    assert_eq!(sampler.phase, Phase::Done);
    assert_eq!(sampler.samples, 1);
    assert_eq!(sampler.action(), Action::Return);

    // Further ticks change nothing: there is no second sample.
    let later = sampler.step(Event::Tick).step(Event::Sampled).step(Event::NothingToSample);
    assert_eq!(later, sampler);
    assert_eq!(later.action(), Action::Return);
}

#[test]
fn sampler_waits_again_when_a_tick_brings_no_sample() {
    let sampler = PeriodicScheduler::new(Domain::Process).step(Event::Tick);
    let waiting = sampler.step(Event::NothingToSample);
    assert_eq!(waiting.phase, Phase::AwaitingTick);
    assert_eq!(waiting.samples, 0);
    assert_eq!(waiting.action(), Action::AwaitTick(3600));
    let done = waiting.step(Event::Tick).step(Event::Sampled);
    assert_eq!(done.samples, 1);
    assert_eq!(done.action(), Action::Return);
}

#[test]
fn sampler_ignores_events_that_do_not_fit() {
    let fresh = PeriodicScheduler::new(Domain::Disk);
    assert_eq!(fresh.step(Event::Sampled), fresh);
    assert_eq!(fresh.step(Event::NothingToSample), fresh);
    let sampling = fresh.step(Event::Tick);
    assert_eq!(sampling.step(Event::Tick), sampling);
}

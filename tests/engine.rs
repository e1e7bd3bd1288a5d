use battlebots::admission::Admission;
use battlebots::config::{Bench, ConfigError, Workload};
use battlebots::engine::{Engine, RunPhase, Stop};
use battlebots::multiply::multiply;
use battlebots::parallelism::Parallelism;
use battlebots::report::Report;
use battlebots::worker::{Action, Event, Phase, WorkReport, Worker};
use battlebots::workloads::{inty, mixed, stringy, word, words};
use std::collections::HashSet;

fn bench(workers: usize, continue_on_error: bool) -> Bench {
    Bench::new(Workload::Inty, workers, 10, 2, 0, continue_on_error, 0).unwrap()
}

/// A worker that warms up without a request, then sees `outcomes` answered
/// in turn, then observes the run signal.
fn run_worker(continue_on_error: bool, outcomes: &[Event]) -> WorkReport {
    let mut events = vec![Event::Cancelled { run_cancelled: false }];
    for o in outcomes {
        events.push(Event::Permit);
        events.push(*o);
    }
    events.push(Event::Cancelled { run_cancelled: true });
    let mut w = Worker::new(continue_on_error);
    w.replay(&events);
    assert_eq!(w.phase(), Phase::Done);
    w.finish()
}

#[test]
fn config_refuses_zero_workers() {
    let r = Bench::new(Workload::Mixed, 0, 10, 2, 0, false, 1);
    assert_eq!(r, Err(ConfigError::NoWorkers));
}

#[test]
fn config_refuses_zero_rate() {
    let r = Bench::new(Workload::Mixed, 1, 0, 2, 0, false, 1);
    assert_eq!(r, Err(ConfigError::ZeroRate));
}

#[test]
fn config_refuses_overlong_duration() {
    let r = Bench::new(Workload::Stringy, 1, 1, u64::MAX, 0, false, 1);
    assert_eq!(r, Err(ConfigError::DurationTooLong));
    let r = Bench::new(Workload::Stringy, 1, 1, 1, 0, false, 18446744073710);
    assert_eq!(r, Err(ConfigError::DurationTooLong));
}

#[test]
fn config_normalises_to_microseconds() {
    let b = Bench::new(Workload::Stringy, 4, 100, 3, 250, true, 2).unwrap();
    assert_eq!(b.workers, 4);
    assert_eq!(b.jitter, 250);
    assert_eq!(b.duration_micros(), 3_000_000);
    assert_eq!(b.warm_up_micros(), 2_000_000);
    let longest = Bench::new(Workload::Stringy, 1, 1, 18446744073709, 0, true, 0).unwrap();
    assert_eq!(longest.duration_micros(), 18446744073709000000);
}

#[test]
fn admission_interval_follows_rate() {
    let a = Admission::for_rate(10);
    assert_eq!(a.interval_nanos, 100_000_000);
    assert_eq!(a.burst, 1);
    let a = Admission::for_rate(3);
    assert_eq!(a.interval_nanos, 333_333_333);
    let a = Admission::for_rate(u32::MAX);
    assert_eq!(a.interval_nanos, 0);
}

#[test]
fn spawns_configured_worker_count() {
    for n in [1usize, 2, 7, 64] {
        let e = Engine::new(bench(n, true));
        let handles = e.worker_handles(String::from("client"));
        assert_eq!(handles.len(), n);
        assert!(handles.iter().all(|h| h == "client"));
    }
}

#[test]
fn multiplied_hands_out_clones_then_value() {
    let mut m = multiply(vec![1u8, 2], 3);
    assert_eq!(m.next(), Some(vec![1, 2]));
    assert_eq!(m.next(), Some(vec![1, 2]));
    assert_eq!(m.next(), Some(vec![1, 2]));
    assert_eq!(m.next(), None);
    assert_eq!(m.next(), None);
}

#[test]
fn worker_transitions() {
    let mut w = Worker::new(true);
    assert_eq!(w.step(Event::Permit), Action::Send);
    assert_eq!(w.step(Event::Succeeded { micros: 5 }), Action::AwaitPermit);
    assert_eq!(w.step(Event::Permit), Action::Send);
    assert_eq!(w.step(Event::Failed), Action::AwaitPermit);
    assert_eq!(w.phase(), Phase::WarmingUp);
    assert_eq!(w.step(Event::Cancelled { run_cancelled: false }), Action::AwaitPermit);
    assert_eq!(w.phase(), Phase::Measuring);
    assert_eq!(w.step(Event::Permit), Action::Send);
    assert_eq!(w.step(Event::Succeeded { micros: 7 }), Action::AwaitPermit);
    assert_eq!(w.step(Event::Cancelled { run_cancelled: true }), Action::Stop);
    assert_eq!(w.phase(), Phase::Done);
    let r = w.finish();
    assert_eq!(r.sample_count(), 1);
    assert_eq!(r.errors(), 0);
}

#[test]
fn warm_up_cut_short_by_run_signal_skips_measurement() {
    let mut w = Worker::new(false);
    assert_eq!(w.step(Event::Cancelled { run_cancelled: true }), Action::Stop);
    assert_eq!(w.phase(), Phase::Done);
}

#[test]
fn warm_up_failure_without_continue_cancels_run() {
    let mut w = Worker::new(false);
    w.step(Event::Permit);
    assert_eq!(w.step(Event::Failed), Action::CancelRun);
    assert_eq!(w.phase(), Phase::Done);
    let r = w.finish();
    assert_eq!(r.errors(), 0);
    assert_eq!(r.sample_count(), 0);
}

#[test]
fn replay_stops_at_first_event_not_taken() {
    let mut w = Worker::new(true);
    let events = vec![Event::Permit, Event::Permit, Event::Failed];
    assert_eq!(w.replay(&events), 1);
    assert!(!w.can_take(Event::Permit));
    assert!(w.can_take(Event::Failed));
}

#[test]
fn replay_refuses_untrackable_latency() {
    let mut w = Worker::new(true);
    let events = vec![
        Event::Cancelled { run_cancelled: false },
        Event::Permit,
        Event::Succeeded { micros: u64::MAX },
    ];
    assert_eq!(w.replay(&events), 2);
}

#[test]
fn successful_run_counts_every_request_as_sample() {
    let ok = vec![Event::Succeeded { micros: 120 }; 6];
    let reports = vec![run_worker(false, &ok), run_worker(false, &ok[..4])];
    let report = Report::new(reports, 1_000_000);
    assert_eq!(report.errors(), 0);
    assert_eq!(report.total_requests(), 10);
    assert_eq!(report.sample_count(), report.total_requests());
    assert_eq!(report.duration_micros(), 1_000_000);
}

#[test]
fn total_requests_is_samples_plus_errors() {
    let outcomes = vec![
        Event::Succeeded { micros: 10 },
        Event::Failed,
        Event::Succeeded { micros: 30 },
        Event::Failed,
        Event::Failed,
    ];
    let report = Report::new(vec![run_worker(true, &outcomes)], 5);
    assert_eq!(report.sample_count(), 2);
    assert_eq!(report.errors(), 3);
    assert_eq!(report.total_requests(), 5);
}

#[test]
fn merge_order_does_not_change_quantiles() {
    let a_events: Vec<Event> = (1..=50).map(|i| Event::Succeeded { micros: i * 7 }).collect();
    let b_events: Vec<Event> = (1..=30).map(|i| Event::Succeeded { micros: 1000 + i * 13 }).collect();
    let ab = Report::new(vec![run_worker(true, &a_events), run_worker(true, &b_events)], 1);
    let ba = Report::new(vec![run_worker(true, &b_events), run_worker(true, &a_events)], 1);
    for q in [0.5, 0.9, 0.95, 0.99, 1.0] {
        assert_eq!(
            ab.histogram().hdr.value_at_quantile(q),
            ba.histogram().hdr.value_at_quantile(q)
        );
    }
    assert_eq!(ab.sample_count(), 80);
    assert_eq!(ba.sample_count(), 80);
    assert_eq!(ab.histogram().hdr.min(), 7);
}

#[test]
fn fail_fast_stops_every_worker() {
    // The first worker fails its second measured request and cancels the run.
    let mut a = Worker::new(false);
    let events = vec![
        Event::Cancelled { run_cancelled: false },
        Event::Permit,
        Event::Succeeded { micros: 3 },
        Event::Permit,
        Event::Failed,
        Event::Permit,
        Event::Succeeded { micros: 3 },
    ];
    assert_eq!(a.replay(&events), 5);
    assert_eq!(a.phase(), Phase::Done);
    // The second worker then observes the run signal and records nothing more.
    let mut b = Worker::new(false);
    let events = vec![
        Event::Cancelled { run_cancelled: false },
        Event::Permit,
        Event::Succeeded { micros: 4 },
        Event::Cancelled { run_cancelled: true },
        Event::Permit,
        Event::Succeeded { micros: 4 },
    ];
    assert_eq!(b.replay(&events), 4);
    let report = Report::new(vec![a.finish(), b.finish()], 10);
    assert_eq!(report.errors(), 1);
    assert_eq!(report.sample_count(), 2);
}

#[test]
fn continue_on_error_counts_injected_failures() {
    let mut reports = Vec::new();
    let mut injected = 0u64;
    for w in 0..3u64 {
        let outcomes: Vec<Event> = (0..40u64)
            .map(|i| {
                if (i + w) % 4 == 0 {
                    Event::Failed
                } else {
                    Event::Succeeded { micros: 50 }
                }
            })
            .collect();
        injected += outcomes.iter().filter(|e| **e == Event::Failed).count() as u64;
        reports.push(run_worker(true, &outcomes));
    }
    let report = Report::new(reports, 1);
    assert_eq!(injected, 30);
    assert_eq!(report.errors(), injected);
    assert_eq!(report.total_requests(), 120);
}

#[test]
fn warm_up_samples_are_not_reported() {
    let mut w = Worker::new(true);
    let mut events = Vec::new();
    for _ in 0..25 {
        events.push(Event::Permit);
        events.push(Event::Succeeded { micros: 9 });
    }
    events.push(Event::Permit);
    events.push(Event::Failed);
    events.push(Event::Cancelled { run_cancelled: false });
    for _ in 0..3 {
        events.push(Event::Permit);
        events.push(Event::Succeeded { micros: 11 });
    }
    events.push(Event::Cancelled { run_cancelled: true });
    assert_eq!(w.replay(&events), events.len());
    assert_eq!(w.warm_up_errors(), 1);
    let report = Report::new(vec![w.finish()], 1);
    assert_eq!(report.sample_count(), 3);
    assert_eq!(report.errors(), 0);
}

#[test]
fn scenario_two_workers_ten_per_second_for_two_seconds() {
    let config = Bench::new(Workload::Inty, 2, 10, 2, 0, true, 0).unwrap();
    let mut engine = Engine::new(config);
    assert_eq!(engine.admission().interval_nanos, 100_000_000);
    assert!(engine.end_warm_up(Stop::Elapsed, 100));
    assert_eq!(engine.phase(), RunPhase::Measuring);
    engine.end_measurement();
    // 20 permits in two seconds, shared by the two workers.
    let zero = vec![Event::Succeeded { micros: 0 }; 10];
    let results = vec![run_worker(true, &zero), run_worker(true, &zero)];
    let report = engine.finish(results, 2_000_100);
    assert_eq!(report.total_requests(), 20);
    assert_eq!(report.errors(), 0);
    assert_eq!(report.duration_micros(), 2_000_000);
    for q in [0.5, 0.9, 0.95, 0.99, 1.0] {
        assert_eq!(report.histogram().hdr.value_at_quantile(q), 0);
    }
}

#[test]
fn scenario_first_call_fails_without_continue() {
    let config = Bench::new(Workload::Stringy, 1, 10, 2, 0, false, 0).unwrap();
    let mut engine = Engine::new(config);
    assert!(!engine.warms_up());
    assert!(engine.end_warm_up(Stop::Elapsed, 0));
    let mut w = Worker::measuring(false);
    assert_eq!(w.phase(), Phase::Measuring);
    let events = vec![
        Event::Permit,
        Event::Failed,
        Event::Permit,
        Event::Succeeded { micros: 1 },
    ];
    assert_eq!(w.replay(&events), 2);
    engine.end_measurement();
    let report = engine.finish(vec![w.finish()], 40);
    assert_eq!(report.errors(), 1);
    assert_eq!(report.total_requests(), 1);
}

#[test]
fn cancelled_warm_up_reports_zero_duration() {
    let mut engine = Engine::new(bench(2, false));
    assert!(!engine.end_warm_up(Stop::CancelledByWorker, 500));
    assert_eq!(engine.phase(), RunPhase::Joining);
    let results = vec![run_worker(false, &[]), run_worker(false, &[])];
    let report = engine.finish(results, 9_000);
    assert_eq!(report.duration_micros(), 0);
    assert_eq!(report.total_requests(), 0);
    let mut engine = Engine::new(bench(1, false));
    assert!(!engine.end_warm_up(Stop::Interrupted, 1));
}

#[test]
fn parallelism_counts_leases() {
    let p = Parallelism::new();
    assert_eq!(p.current(), 0);
    {
        let _a = p.lease();
        let _b = p.lease();
        assert_eq!(p.current(), 2);
    }
    assert_eq!(p.current(), 0);
}

#[test]
fn words_joins_nouns_with_spaces() {
    assert_eq!(words(0), "");
    let w = words(3);
    assert_eq!(w.split(' ').count(), 3);
    assert!(w.split(' ').all(|s| !s.is_empty()));
    let all = words(5000);
    let mut nouns: Vec<&str> = all.split(' ').collect();
    assert_eq!(nouns.len(), 981);
    nouns.sort();
    nouns.dedup();
    assert_eq!(nouns.len(), 981);
    let one = word();
    assert!(!one.is_empty());
    assert!(!one.contains(' '));
}

fn nouns() -> HashSet<String> {
    words(5000).split(' ').map(String::from).collect()
}

#[test]
fn payloads_are_made_of_distinct_nouns() {
    let list = nouns();
    let distinct_nouns = |s: &str| {
        let ws: Vec<&str> = s.split(' ').collect();
        let set: HashSet<&str> = ws.iter().copied().collect();
        set.len() == ws.len() && ws.iter().all(|w| list.contains(*w)) && (5..15).contains(&ws.len())
    };
    for _ in 0..10 {
        let i = inty::Payload::rand();
        assert!(distinct_nouns(&i.header));
        assert!(i.configuration.keys().all(|k| list.contains(k)));
        let s = stringy::Payload::rand();
        assert!(distinct_nouns(&s.body));
        assert!(s.messages.iter().all(|m| distinct_nouns(m)));
        assert!(s.configuration.iter().all(|(k, v)| list.contains(k) && list.contains(v)));
    }
    assert!(list.contains(&word()));
}

#[test]
fn payloads_from_draws_keep_what_was_drawn() {
    let header = vec!["apple", "river", "stone"];
    let settings = vec![("apple", 1i64), ("river", 2), ("apple", 3)];
    let p = inty::Payload::from_draws(&header, &settings, vec![4, 5]);
    assert_eq!(p.header, "apple river stone");
    assert_eq!(p.ids, vec![4, 5]);
    assert_eq!(p.configuration.len(), 2);
    assert_eq!(p.configuration["apple"], 3);
    assert_eq!(p.configuration["river"], 2);
    let messages = vec![vec!["a", "b"], vec![], vec!["c"]];
    let settings = vec![("k", "v"), ("k", "w")];
    let s = stringy::Payload::from_draws(&vec!["x"], &messages, &settings);
    assert_eq!(s.body, "x");
    assert_eq!(s.messages, vec!["a b".to_string(), String::new(), "c".to_string()]);
    assert_eq!(s.configuration.len(), 1);
    assert_eq!(s.configuration["k"], "w");
}

#[test]
fn full_counters_still_take_the_run_signal() {
    let mut w = Worker::measuring(true);
    assert!(w.can_take(Event::Cancelled { run_cancelled: true }));
    assert_eq!(w.step(Event::Cancelled { run_cancelled: true }), Action::Stop);
}

#[test]
fn hand_built_configuration_is_checked() {
    let mut b = bench(1, true);
    assert!(b.is_valid());
    b.workers = 0;
    assert!(!b.is_valid());
}

#[test]
fn measured_latency_is_the_recorded_sample() {
    let outcomes = vec![
        Event::Succeeded { micros: 1234 },
        Event::Succeeded { micros: 17 },
        Event::Succeeded { micros: 2047 },
    ];
    let report = Report::new(vec![run_worker(true, &outcomes)], 1);
    let h = &report.histogram().hdr;
    assert_eq!(h.min(), 17);
    assert_eq!(h.value_at_quantile(0.5), 1234);
    assert_eq!(h.value_at_quantile(1.0), 2047);
    assert_eq!(h.count_at(1234), 1);
}

#[test]
fn large_latencies_go_to_their_bucket_floor() {
    for (micros, floor) in [(2049u64, 2048u64), (5001, 5000), (1_000_000, 999_936)] {
        let report = Report::new(vec![run_worker(true, &[Event::Succeeded { micros }])], 1);
        assert_eq!(report.histogram().hdr.min(), floor);
    }
}

#[test]
fn warms_up_only_with_a_warm_up_duration() {
    let with = Engine::new(Bench::new(Workload::Inty, 1, 1, 1, 0, true, 3).unwrap());
    assert!(with.warms_up());
    let without = Engine::new(Bench::new(Workload::Inty, 1, 1, 1, 0, true, 0).unwrap());
    assert!(!without.warms_up());
}

#[test]
fn random_payloads_have_bounded_collections() {
    for _ in 0..20 {
        let i = inty::Payload::rand();
        assert!((5..15).contains(&i.ids.len()));
        assert!((1..15).contains(&i.configuration.len()));
        assert!((5..15).contains(&i.header.split(' ').count()));
        let s = stringy::Payload::rand();
        assert!((5..15).contains(&s.messages.len()));
        assert!((5..15).contains(&s.body.split(' ').count()));
        assert!(s.messages.iter().all(|m| (5..15).contains(&m.split(' ').count())));
        assert!((1..15).contains(&s.configuration.len()));
        let m = mixed::Payload::rand();
        assert!((5..15).contains(&m.inty.ids.len()));
        assert!((5..15).contains(&m.stringy.messages.len()));
    }
}

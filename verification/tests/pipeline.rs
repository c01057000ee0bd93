use jpdb_connect::config::RateLimit;
use jpdb_connect::pipeline::{Admission, InvalidLimits, RequestPipeline};

fn site_pipeline() -> RequestPipeline {
    RequestPipeline::new(100, 1, RateLimit { count: 5, window_seconds: 3 }).unwrap()
}

#[test]
fn zero_limits_are_refused() {
    let rate = RateLimit { count: 5, window_seconds: 3 };
    assert!(matches!(RequestPipeline::new(0, 1, rate), Err(InvalidLimits)));
    assert!(matches!(RequestPipeline::new(1, 0, rate), Err(InvalidLimits)));
    assert!(matches!(
        RequestPipeline::new(1, 1, RateLimit { count: 0, window_seconds: 3 }),
        Err(InvalidLimits)
    ));
    assert!(matches!(
        RequestPipeline::new(1, 1, RateLimit { count: 5, window_seconds: 0 }),
        Err(InvalidLimits)
    ));
    assert!(RequestPipeline::new(1, 1, RateLimit { count: 1, window_seconds: u64::MAX }).is_ok());
}

#[test]
fn one_request_at_a_time() {
    let mut p = site_pipeline();
    let a = p.submit().unwrap();
    let b = p.submit().unwrap();
    let c = p.submit().unwrap();
    assert_eq!((a, b, c), (0, 1, 2));
    assert_eq!(p.poll(b, 10), Admission::Queued);
    assert_eq!(p.poll(a, 10), Admission::Start);
    assert_eq!(p.in_flight_len(), 1);
    assert_eq!(p.poll(a, 10), Admission::Unknown);
    assert_eq!(p.poll(b, 11), Admission::Busy);
    assert_eq!(p.poll(c, 11), Admission::Queued);
    assert_eq!(p.in_flight_len(), 1);
    assert!(p.complete(a));
    assert!(!p.complete(a));
    assert_eq!(p.in_flight_len(), 0);
    assert_eq!(p.poll(c, 12), Admission::Queued);
    assert_eq!(p.poll(b, 12), Admission::Start);
    assert!(!p.complete(c));
    assert!(p.complete(b));
    assert_eq!(p.poll(c, 13), Admission::Start);
    assert_eq!(p.waiting_len(), 0);
}

#[test]
fn never_more_in_flight_than_the_cap() {
    let mut p = RequestPipeline::new(100, 3, RateLimit { count: 100, window_seconds: 1 }).unwrap();
    let tickets: Vec<u64> = (0..10).map(|_| p.submit().unwrap()).collect();
    let mut started = Vec::new();
    for round in 0..40u64 {
        for &t in &tickets {
            if p.poll(t, round) == Admission::Start {
                started.push(t);
            }
            assert!(p.in_flight_len() <= 3);
        }
        if round % 2 == 1 {
            if let Some(&t) = started.iter().find(|&&t| p.complete(t)) {
                assert!(started.contains(&t));
            }
        }
    }
    assert_eq!(started, tickets);
}

#[test]
fn excess_over_rate_waits_for_window_rollover() {
    let mut p = site_pipeline();
    let tickets: Vec<u64> = (0..7).map(|_| p.submit().unwrap()).collect();
    for (i, &t) in tickets.iter().take(5).enumerate() {
        assert_eq!(p.poll(t, 1000 + i as u64), Admission::Start, "request {i}");
        assert!(p.complete(t));
    }
    assert_eq!(p.waiting_len(), 2);
    assert_eq!(p.poll(tickets[5], 1005), Admission::Throttled { until: 4000 });
    assert_eq!(p.poll(tickets[5], 3999), Admission::Throttled { until: 4000 });
    assert_eq!(p.poll(tickets[6], 3999), Admission::Queued);
    assert_eq!(p.waiting_len(), 2);
    assert!(p.is_waiting(tickets[5]) && p.is_waiting(tickets[6]));
    assert_eq!(p.poll(tickets[5], 4000), Admission::Start);
    assert!(p.complete(tickets[5]));
    assert_eq!(p.poll(tickets[6], 4001), Admission::Start);
    assert!(p.complete(tickets[6]));
    let more: Vec<u64> = (0..4).map(|_| p.submit().unwrap()).collect();
    for (i, &t) in more.iter().enumerate() {
        let expected = if i < 3 { Admission::Start } else { Admission::Throttled { until: 7000 } };
        assert_eq!(p.poll(t, 4002), expected, "request {i}");
        p.complete(t);
    }
}

#[test]
fn window_begins_at_the_first_admission_after_it_ended() {
    let mut p = RequestPipeline::new(10, 1, RateLimit { count: 1, window_seconds: 2 }).unwrap();
    let a = p.submit().unwrap();
    let b = p.submit().unwrap();
    assert_eq!(p.poll(a, 0), Admission::Start);
    assert!(p.complete(a));
    assert_eq!(p.poll(b, 1999), Admission::Throttled { until: 2000 });
    assert_eq!(p.poll(b, 10_000), Admission::Start);
    assert!(p.complete(b));
    let c = p.submit().unwrap();
    assert_eq!(p.poll(c, 11_999), Admission::Throttled { until: 12_000 });
    assert_eq!(p.poll(c, u64::MAX - 5), Admission::Start);
    assert!(p.complete(c));
    let d = p.submit().unwrap();
    assert_eq!(p.poll(d, u64::MAX - 1), Admission::Throttled { until: u64::MAX });
    assert_eq!(p.poll(d, u64::MAX), Admission::Start);
}

#[test]
fn full_queue_takes_no_more() {
    let mut p = RequestPipeline::new(2, 1, RateLimit { count: 5, window_seconds: 3 }).unwrap();
    let a = p.submit().unwrap();
    let b = p.submit().unwrap();
    assert_eq!(p.submit(), None);
    assert_eq!(p.waiting_len(), 2);
    assert_eq!(p.poll(a, 0), Admission::Start);
    let c = p.submit().unwrap();
    assert_eq!(p.submit(), None);
    assert!(a < b && b < c);
    assert!(!p.is_waiting(a) && p.is_waiting(b) && p.is_waiting(c));
    assert_eq!(p.poll(99, 0), Admission::Unknown);
}

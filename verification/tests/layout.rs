use durable_trace::layout::{
    compute_window, find_max_completion, later, layout_steps, Percent, StepGeometry, Window,
};
use durable_trace::timestamp::{Timestamp, MAX_SECS};
use durable_trace::trace::{DurableTrace, StepTrace, TaskInfo};

const T: i64 = 1_714_557_600;

fn at(secs: i64, nanos: u32) -> Timestamp {
    Timestamp { secs, nanos }
}

fn task(id: &str) -> TaskInfo {
    TaskInfo {
        id: id.to_string(),
        task_name: "charge".to_string(),
        execution_time: at(T, 0),
        consecutive_failures: 0,
        execution_version: 1,
        last_failure: None,
        last_success: None,
    }
}

fn step(id: &str, scheduled: Timestamp, completed: Option<Timestamp>) -> StepTrace {
    StepTrace {
        durable_step_id: id.to_string(),
        result: None,
        scheduled_at: scheduled,
        completed_at: completed,
        in_task_info: task(id),
        out_task_info: None,
    }
}

fn trace(scheduled: Timestamp, completed: Option<Timestamp>, steps: Vec<StepTrace>) -> DurableTrace {
    DurableTrace {
        name: "order".to_string(),
        durable_execution_id: "exec-1".to_string(),
        scheduled_at: scheduled,
        completed_at: completed,
        payload: None,
        result: None,
        is_error: None,
        status: "running".to_string(),
        failure_reason: None,
        failure_source: None,
        version: 1,
        steps,
    }
}

fn value(p: Percent) -> f64 {
    p.numer as f64 / p.denom as f64
}

#[test]
fn later_prefers_any_present_instant() {
    assert_eq!(later(None, None), None);
    assert_eq!(later(Some(at(1, 0)), None), Some(at(1, 0)));
    assert_eq!(later(None, Some(at(1, 0))), Some(at(1, 0)));
    assert_eq!(later(Some(at(1, 0)), Some(at(1, 1))), Some(at(1, 1)));
    assert_eq!(later(Some(at(2, 0)), Some(at(1, 1))), Some(at(2, 0)));
}

#[test]
fn window_ends_at_the_latest_step_completion() {
    let steps = vec![
        step("a", at(T, 0), Some(at(T + 5, 0))),
        step("b", at(T + 1, 0), Some(at(T + 30, 0))),
        step("c", at(T + 2, 0), Some(at(T + 10, 0))),
    ];
    let end = find_max_completion(&steps, at(T, 0), None);
    assert_eq!(end, at(T + 30, 0));
    for s in &steps {
        assert!(s.completed_at.unwrap().not_after(end));
    }
    assert!(at(T, 0).not_after(end));
}

#[test]
fn window_end_is_the_maximum_and_not_the_last_step() {
    let steps = vec![
        step("a", at(T, 0), Some(at(T + 40, 0))),
        step("b", at(T + 1, 0), None),
        step("c", at(T + 2, 0), Some(at(T + 10, 0))),
    ];
    assert_eq!(find_max_completion(&steps, at(T, 0), Some(at(T + 20, 0))), at(T + 40, 0));
}

#[test]
fn window_end_prefers_a_later_trace_completion() {
    let steps = vec![step("a", at(T, 0), Some(at(T + 5, 0)))];
    assert_eq!(find_max_completion(&steps, at(T, 0), Some(at(T + 9, 0))), at(T + 9, 0));
}

#[test]
fn window_end_compares_nanoseconds() {
    let steps = vec![step("a", at(T, 0), Some(at(T + 5, 2))), step("b", at(T, 0), Some(at(T + 5, 1)))];
    assert_eq!(find_max_completion(&steps, at(T, 0), Some(at(T + 5, 0))), at(T + 5, 2));
}

#[test]
fn running_trace_gets_fifteen_provisional_seconds() {
    let steps = vec![step("a", at(T, 0), None), step("b", at(T + 3, 0), None)];
    assert_eq!(find_max_completion(&steps, at(T, 7), None), at(T + 15, 7));
    assert_eq!(find_max_completion(&Vec::new(), at(T, 0), None), at(T + 15, 0));
}

#[test]
fn provisional_window_may_pass_the_last_instant() {
    let end = find_max_completion(&Vec::new(), at(MAX_SECS, 0), None);
    assert_eq!(end, at(MAX_SECS + 15, 0));
    let window = Window { start: at(MAX_SECS, 0), end };
    assert_eq!(window.delta_window(), 15);
}

#[test]
fn window_may_end_before_the_trace_starts() {
    let steps = vec![step("a", at(T - 20, 0), Some(at(T - 10, 0)))];
    let end = find_max_completion(&steps, at(T, 0), None);
    assert_eq!(end, at(T - 10, 0));
    assert_eq!(Window { start: at(T, 0), end }.delta_window(), 1);
}

#[test]
fn delta_is_at_least_one_second() {
    assert_eq!(Window { start: at(T, 0), end: at(T, 0) }.delta_window(), 1);
    assert_eq!(Window { start: at(T, 0), end: at(T, 999_999_999) }.delta_window(), 1);
    assert_eq!(Window { start: at(T, 0), end: at(T + 1, 0) }.delta_window(), 1);
    assert_eq!(Window { start: at(T, 0), end: at(T + 2, 0) }.delta_window(), 2);
    assert_eq!(Window { start: at(T, 500), end: at(T + 20, 0) }.delta_window(), 19);
}

#[test]
fn step_at_the_start_sits_at_zero() {
    for end in [at(T + 1, 0), at(T + 20, 0), at(T + 3600, 5)] {
        let window = Window { start: at(T, 0), end };
        let place = window.step_geometry(&step("a", at(T, 0), Some(at(T + 1, 0))));
        assert_eq!(place.position.numer, 0);
        assert_eq!(value(place.position), 0.0);
    }
}

#[test]
fn running_step_is_two_percent_wide_in_any_window() {
    for end in [at(T + 1, 0), at(T + 20, 0), at(T + 86_400, 0)] {
        let window = Window { start: at(T, 0), end };
        let place = window.step_geometry(&step("a", at(T + 1, 0), None));
        assert_eq!(place.width, Percent { numer: 2, denom: 1 });
        assert_eq!(value(place.width), 2.0);
    }
}

#[test]
fn end_to_end_geometry() {
    let t = trace(at(T, 0), Some(at(T + 20, 0)), vec![step("a", at(T, 0), Some(at(T + 10, 0)))]);
    let window = compute_window(&t);
    assert_eq!(window, Window { start: at(T, 0), end: at(T + 20, 0) });
    assert_eq!(window.delta_window(), 20);
    let places = layout_steps(&t);
    assert_eq!(
        places,
        vec![StepGeometry {
            position: Percent { numer: 0, denom: 20 },
            width: Percent { numer: 1000, denom: 20 },
        }]
    );
    assert_eq!(value(places[0].position), 0.0);
    assert_eq!(value(places[0].width), 50.0);
}

#[test]
fn geometry_follows_the_order_of_the_steps() {
    let t = trace(
        at(T, 0),
        None,
        vec![
            step("a", at(T + 10, 0), Some(at(T + 40, 0))),
            step("b", at(T + 20, 0), None),
            step("c", at(T, 0), Some(at(T + 5, 0))),
        ],
    );
    let places = layout_steps(&t);
    assert_eq!(places.len(), 3);
    assert_eq!(places[0].position, Percent { numer: 1000, denom: 40 });
    assert_eq!(places[0].width, Percent { numer: 3000, denom: 40 });
    assert_eq!(places[1].position, Percent { numer: 2000, denom: 40 });
    assert_eq!(places[1].width, Percent { numer: 2, denom: 1 });
    assert_eq!(places[2].position, Percent { numer: 0, denom: 40 });
    assert_eq!(places[2].width, Percent { numer: 500, denom: 40 });
    assert_eq!(value(places[0].position), 25.0);
    assert_eq!(value(places[0].width), 75.0);
}

#[test]
fn step_before_the_trace_is_not_clamped() {
    let window = Window { start: at(T, 0), end: at(T + 10, 0) };
    let place = window.step_geometry(&step("a", at(T - 5, 0), Some(at(T + 20, 0))));
    assert_eq!(place.position, Percent { numer: -500, denom: 10 });
    assert_eq!(place.width, Percent { numer: 2500, denom: 10 });
    assert_eq!(value(place.position), -50.0);
    assert_eq!(value(place.width), 250.0);
}

#[test]
fn step_completed_before_it_started_has_negative_width() {
    let window = Window { start: at(T, 0), end: at(T + 10, 0) };
    let place = window.step_geometry(&step("a", at(T + 4, 0), Some(at(T + 1, 0))));
    assert_eq!(place.width, Percent { numer: -300, denom: 10 });
}

#[test]
fn geometry_counts_whole_seconds() {
    let window = Window { start: at(T, 0), end: at(T + 10, 0) };
    let place = window.step_geometry(&step("a", at(T + 1, 999_999_999), Some(at(T + 3, 0))));
    assert_eq!(place.position, Percent { numer: 100, denom: 10 });
    assert_eq!(place.width, Percent { numer: 100, denom: 10 });
}

#[test]
fn empty_trace_has_no_bars() {
    let t = trace(at(T, 0), None, Vec::new());
    assert_eq!(layout_steps(&t), Vec::new());
    assert_eq!(compute_window(&t), Window { start: at(T, 0), end: at(T + 15, 0) });
}

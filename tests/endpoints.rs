use responder::counter::{error_count, error_count_reset, ErrorCounter};
use responder::fault::{fails_on_draw, random_error, random_status, should_fail};
use responder::redirect::{code_redirect, fixed_redirect, nested_redirect, RedirectTarget};
use responder::status::{resolve_status, BAD_REQUEST, INTERNAL_SERVER_ERROR, OK};

#[test]
fn valid_codes_resolve_to_themselves() {
    for code in [100u16, 200, 204, 301, 404, 418, 500, 599, 999] {
        assert_eq!(resolve_status(code), code);
    }
}

#[test]
fn invalid_codes_resolve_to_bad_request() {
    for code in [0u16, 1, 99, 1000, 4040, 65535] {
        assert_eq!(resolve_status(code), BAD_REQUEST);
    }
}

#[test]
fn zero_percent_never_fails() {
    for _ in 0..2000 {
        assert!(!should_fail(0));
        assert_eq!(random_error(0), OK);
    }
}

#[test]
fn hundred_percent_always_fails() {
    for _ in 0..2000 {
        assert!(should_fail(100));
        assert!(should_fail(250));
        assert_eq!(random_error(100), INTERNAL_SERVER_ERROR);
    }
}

#[test]
fn half_percent_fails_about_half_the_time() {
    let trials = 20000;
    let mut failures = 0;
    for _ in 0..trials {
        if should_fail(50) {
            failures += 1;
        }
    }
    let rate = failures as f64 / trials as f64;
    assert!(rate > 0.45 && rate < 0.55, "rate {}", rate);
}

#[test]
fn draw_at_or_below_percent_fails() {
    assert!(fails_on_draw(30, 1));
    assert!(fails_on_draw(30, 30));
    assert!(!fails_on_draw(30, 31));
    assert!(!fails_on_draw(0, 1));
    assert!(fails_on_draw(100, 100));
    assert_eq!(random_status(30, 30), INTERNAL_SERVER_ERROR);
    assert_eq!(random_status(30, 31), OK);
}

#[test]
fn threshold_three_fails_three_times_then_passes() {
    let mut c = ErrorCounter::new();
    let seen: Vec<bool> = (0..5).map(|_| c.increment_and_check(3)).collect();
    assert_eq!(seen, vec![true, true, true, false, false]);
    c.reset();
    assert_eq!(c.value(), 0);
    assert!(c.increment_and_check(3));
}

#[test]
fn serialized_calls_fail_exactly_min_of_calls_and_threshold() {
    for (k, t) in [(10u32, 4i32), (3, 7), (5, 5), (6, 0), (4, -2)] {
        let mut c = ErrorCounter::new();
        let failing = (0..k).filter(|_| c.increment_and_check(t)).count() as i64;
        assert_eq!(failing, (k as i64).min(t.max(0) as i64));
        assert_eq!(c.value(), k as u64);
    }
}

#[test]
fn lower_threshold_after_success_still_succeeds() {
    let mut c = ErrorCounter::new();
    assert!(c.increment_and_check(1));
    assert!(!c.increment_and_check(1));
    assert!(!c.increment_and_check(1));
    assert!(!c.increment_and_check(0));
    assert!(c.increment_and_check(10));
}

#[test]
fn counting_endpoint_statuses() {
    let mut c = ErrorCounter::new();
    assert_eq!(error_count(&mut c, 1), INTERNAL_SERVER_ERROR);
    assert_eq!(error_count(&mut c, 1), OK);
    assert_eq!(error_count_reset(&mut c), OK);
    assert_eq!(c.value(), 0);
    assert_eq!(error_count(&mut c, -5), OK);
}

#[test]
fn fixed_redirect_targets_code_200() {
    let r = fixed_redirect();
    assert_eq!(r.location, "/code/200/");
    assert!(!r.permanent);
}

#[test]
fn code_redirect_embeds_code() {
    let r = code_redirect(404);
    assert_eq!(
        r,
        RedirectTarget { location: String::from("/code/404/"), permanent: false }
    );
    assert!(r.location.contains("404"));
    assert_eq!(code_redirect(0).location, "/code/0/");
    assert_eq!(code_redirect(7).location, "/code/7/");
    assert_eq!(code_redirect(1000).location, "/code/1000/");
    assert_eq!(code_redirect(65535).location, "/code/65535/");
}

#[test]
fn nested_redirect_is_relative_and_permanent() {
    let r = nested_redirect();
    assert_eq!(r.location, "200");
    assert!(r.permanent);
    assert!(!r.location.starts_with('/'));
    assert!(!r.location.contains(':'));
}

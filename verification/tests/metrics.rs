use cadence::{i64_to_dec, u64_to_dec, Counter, Gauge, Histogram, Meter, Metric, Timer};

#[test]
fn test_counter_to_metric_string() {
    let counter = Counter::new("my.app", "test.counter", 4);
    assert_eq!("my.app.test.counter:4|c", counter.as_metric_str());
}

#[test]
fn test_timer_to_metric_string() {
    let timer = Timer::new("my.app", "test.timer", 34);
    assert_eq!("my.app.test.timer:34|ms", timer.as_metric_str());
}

#[test]
fn test_gauge_to_metric_string() {
    let gauge = Gauge::new("my.app", "test.gauge", 2);
    assert_eq!("my.app.test.gauge:2|g", gauge.as_metric_str());
}

#[test]
fn test_meter_to_metric_string() {
    let meter = Meter::new("my.app", "test.meter", 5);
    assert_eq!("my.app.test.meter:5|m", meter.as_metric_str());
}

#[test]
fn test_histogram_to_metric_string() {
    let histogram = Histogram::new("my.app", "test.histogram", 45);
    assert_eq!("my.app.test.histogram:45|h", histogram.as_metric_str());
}

#[test]
fn counter_with_negative_value() {
    let counter = Counter::new("my.app", "test.counter", -12);
    assert_eq!("my.app.test.counter:-12|c", counter.as_metric_str());
}

#[test]
fn counter_from_string_keeps_it() {
    let counter = Counter::from(String::from("already.formatted:1|c"));
    assert_eq!("already.formatted:1|c", counter.as_metric_str());
}

#[test]
fn timer_from_string_keeps_it() {
    let timer = Timer::from(String::from("already.formatted:2|ms"));
    assert_eq!("already.formatted:2|ms", timer.as_metric_str());
}

#[test]
fn decimal_rendering_exact_values() {
    assert_eq!("0", u64_to_dec(0));
    assert_eq!("10", u64_to_dec(10));
    assert_eq!("18446744073709551615", u64_to_dec(u64::MAX));
    assert_eq!("0", i64_to_dec(0));
    assert_eq!("-1", i64_to_dec(-1));
    assert_eq!("9223372036854775807", i64_to_dec(i64::MAX));
    assert_eq!("-9223372036854775808", i64_to_dec(i64::MIN));
}

#[test]
fn metrics_with_empty_prefix_and_key() {
    let counter = Counter::new("", "", 0);
    assert_eq!(".:0|c", counter.as_metric_str());
}

#[test]
fn set_to_metric_string() {
    let set = cadence::SetMetric::new("my.app", "test.set", 2);
    assert_eq!("my.app.test.set:2|s", set.as_metric_str());
}

#[test]
fn distribution_to_metric_string() {
    let dist = cadence::Distribution::new("my.app", "test.distribution", 7);
    assert_eq!("my.app.test.distribution:7|d", dist.as_metric_str());
}

use metrics_exporter_sentry::{
    DurationUnit, InformationUnit, MetricKey, MetricUnit, RecordKind, SentryRecorder, Unit,
    UnitCache, UnitStore,
};

fn key(name: &str, labels: &[(&str, &str)]) -> MetricKey {
    MetricKey {
        name: name.to_string(),
        labels: labels
            .iter()
            .map(|(k, v)| (k.to_string(), v.to_string()))
            .collect(),
    }
}

#[test]
fn describe_twice_last_write_wins() {
    let mut store = UnitStore::new();
    store.describe("request.duration", Some(Unit::Seconds));
    store.describe("request.duration", Some(Unit::Bytes));
    assert_eq!(
        store.lookup("request.duration"),
        Some(MetricUnit::Information(InformationUnit::Byte))
    );
}

#[test]
fn describe_without_unit_changes_nothing() {
    let mut store = UnitStore::new();
    store.describe("a", None);
    assert_eq!(store.lookup("a"), None);
    store.describe("a", Some(Unit::Percent));
    store.describe("a", None);
    assert_eq!(
        store.lookup("a"),
        Some(MetricUnit::Fraction(metrics_exporter_sentry::FractionUnit::Percent))
    );
}

#[test]
fn lookup_of_a_name_never_described_is_not_found() {
    let mut store = UnitStore::new();
    assert_eq!(store.lookup("never"), None);
    store.describe("described", Some(Unit::Seconds));
    assert_eq!(store.lookup("never"), None);
}

#[test]
fn caches_of_different_kinds_are_independent() {
    let recorder = SentryRecorder::new();
    recorder.describe_counter("m", Some(Unit::Seconds), "ignored");
    let gauge = recorder.register_gauge(key("m", &[]));
    let histogram = recorder.register_histogram(key("m", &[]));
    let counter = recorder.register_counter(key("m", &[]));
    assert_eq!(gauge.gauge_set().unwrap().unit, MetricUnit::NoUnit);
    assert_eq!(histogram.histogram_record().unwrap().unit, MetricUnit::NoUnit);
    assert_eq!(
        counter.counter_increment().unwrap().unit,
        MetricUnit::Duration(DurationUnit::Second)
    );
}

#[test]
fn handle_before_any_describe_uses_no_unit() {
    let recorder = SentryRecorder::new();
    let handle = recorder.register_counter(key("requests", &[]));
    let record = handle.counter_increment().unwrap();
    assert_eq!(record.name, "requests");
    assert_eq!(record.kind, RecordKind::Increment);
    assert!(record.tags.is_empty());
    assert_eq!(record.unit, MetricUnit::NoUnit);
}

#[test]
fn handle_before_any_describe_still_honours_a_unit_label() {
    let recorder = SentryRecorder::new();
    let handle = recorder.register_histogram(key("d", &[("unit", "ms")]));
    let record = handle.histogram_record().unwrap();
    assert_eq!(record.unit, MetricUnit::Duration(DurationUnit::MilliSecond));
    assert!(record.tags.is_empty());
}

#[test]
fn handle_snapshots_the_unit_at_registration_time() {
    let recorder = SentryRecorder::new();
    recorder.describe_gauge("queue.depth", Some(Unit::Bytes), "");
    let early = recorder.register_gauge(key("queue.depth", &[]));
    recorder.describe_gauge("queue.depth", Some(Unit::Seconds), "");
    let late = recorder.register_gauge(key("queue.depth", &[]));
    assert_eq!(
        early.gauge_set().unwrap().unit,
        MetricUnit::Information(InformationUnit::Byte)
    );
    assert_eq!(
        late.gauge_set().unwrap().unit,
        MetricUnit::Duration(DurationUnit::Second)
    );
}

#[test]
fn unit_label_becomes_the_unit_and_never_a_tag() {
    let recorder = SentryRecorder::new();
    let handle = recorder.register_counter(key("m", &[("unit", "second"), ("region", "us")]));
    let record = handle.counter_increment().unwrap();
    assert_eq!(record.unit, MetricUnit::Duration(DurationUnit::Second));
    assert_eq!(
        record.tags,
        vec![("region".to_string(), "us".to_string())]
    );
}

#[test]
fn noncanonical_unit_label_is_a_custom_unit_and_never_a_tag() {
    let recorder = SentryRecorder::new();
    let handle = recorder.register_counter(key("m", &[("unit", "seconds"), ("region", "us")]));
    let record = handle.counter_increment().unwrap();
    assert_eq!(record.unit, MetricUnit::Custom("seconds".to_string()));
    assert_eq!(
        record.tags,
        vec![("region".to_string(), "us".to_string())]
    );
}

#[test]
fn unknown_unit_label_is_a_custom_unit_and_never_a_tag() {
    let recorder = SentryRecorder::new();
    recorder.describe_counter("m", Some(Unit::Seconds), "");
    let handle =
        recorder.register_counter(key("m", &[("unit", "not-a-real-unit"), ("region", "us")]));
    let record = handle.counter_increment().unwrap();
    assert_eq!(
        record.unit,
        MetricUnit::Custom("not-a-real-unit".to_string())
    );
    assert_eq!(
        record.tags,
        vec![("region".to_string(), "us".to_string())]
    );
}

#[test]
fn the_last_unit_label_wins() {
    let recorder = SentryRecorder::new();
    let handle = recorder.register_counter(key("m", &[("unit", "second"), ("unit", "byte")]));
    let record = handle.counter_increment().unwrap();
    assert_eq!(record.unit, MetricUnit::Information(InformationUnit::Byte));
    assert!(record.tags.is_empty());
}

#[test]
fn tags_keep_order_and_duplicates() {
    let recorder = SentryRecorder::new();
    let handle = recorder.register_histogram(key(
        "m",
        &[("a", "1"), ("b", "2"), ("a", "3")],
    ));
    let record = handle.histogram_record().unwrap();
    assert_eq!(
        record.tags,
        vec![
            ("a".to_string(), "1".to_string()),
            ("b".to_string(), "2".to_string()),
            ("a".to_string(), "3".to_string()),
        ]
    );
}

#[test]
fn counter_absolute_emits_no_record() {
    let recorder = SentryRecorder::new();
    let handle = recorder.register_counter(key("m", &[("region", "us")]));
    assert!(handle.counter_absolute().is_none());
}

#[test]
fn gauge_increment_and_decrement_emit_no_record() {
    let recorder = SentryRecorder::new();
    let handle = recorder.register_gauge(key("m", &[]));
    assert!(handle.gauge_increment().is_none());
    assert!(handle.gauge_decrement().is_none());
}

#[test]
fn a_default_recorder_starts_with_empty_caches() {
    let recorder = SentryRecorder::default();
    let handle = recorder.register_counter(key("m", &[]));
    assert_eq!(handle.counter_increment().unwrap().unit, MetricUnit::NoUnit);
}

#[test]
fn a_cache_serves_describe_lookup_and_register() {
    let cache = UnitCache::new();
    assert_eq!(cache.lookup("m"), None);
    cache.describe("m", Some(Unit::Microseconds));
    assert_eq!(
        cache.lookup("m"),
        Some(MetricUnit::Duration(DurationUnit::MicroSecond))
    );
    let handle = cache.register(key("m", &[]));
    assert_eq!(
        handle.counter_increment().unwrap().unit,
        MetricUnit::Duration(DurationUnit::MicroSecond)
    );
}

#[test]
fn record_kind_follows_the_operation() {
    let recorder = SentryRecorder::new();
    let counter = recorder.register_counter(key("m", &[]));
    let gauge = recorder.register_gauge(key("m", &[]));
    let histogram = recorder.register_histogram(key("m", &[]));
    assert_eq!(counter.counter_increment().unwrap().kind, RecordKind::Increment);
    assert_eq!(gauge.gauge_set().unwrap().kind, RecordKind::Gauge);
    assert_eq!(
        histogram.histogram_record().unwrap().kind,
        RecordKind::Distribution
    );
}

use serial_bridge::timing::RateFilter;
use serial_bridge::topic::{same_text, topic_code, TopicType};
use serial_bridge::{has_elapsed_between, match_topic};

#[test]
fn match_topic_known_paths() {
    assert_eq!(match_topic("anemometer"), TopicType::Anemometer);
    assert_eq!(match_topic("sps30"), TopicType::SPS30);
    assert_eq!(match_topic("imu"), TopicType::Imu);
    assert_eq!(match_topic("status"), TopicType::Status);
}

#[test]
fn match_topic_unknown_paths() {
    for path in ["", "imu ", "IMU", "anemometer/1", "command", "stat", "sps3"] {
        assert_eq!(match_topic(path), TopicType::Unknown);
        assert_eq!(match_topic(path), TopicType::Unknown);
    }
}

#[test]
fn topic_codes() {
    assert_eq!(topic_code(TopicType::Anemometer), "anm");
    assert_eq!(topic_code(TopicType::SPS30), "sps");
    assert_eq!(topic_code(TopicType::Imu), "imu");
    assert_eq!(topic_code(TopicType::Status), "status");
}

#[test]
fn same_text_compares_characters() {
    assert!(same_text("héllo", "héllo"));
    assert!(!same_text("héllo", "hello"));
    assert!(!same_text("abc", "abcd"));
    assert!(same_text("", ""));
}

#[test]
fn elapsed_at_least_duration() {
    assert!(has_elapsed_between(1000, 1500, 500));
    assert!(!has_elapsed_between(1000, 1499, 500));
    assert!(has_elapsed_between(1000, 1000, 0));
}

#[test]
fn elapsed_saturates_when_clock_is_behind() {
    assert!(!has_elapsed_between(2000, 1000, 1));
    assert!(has_elapsed_between(2000, 1000, 0));
}

#[test]
fn rate_filter_second_event_depends_on_window() {
    let window = 1000;
    for (delta, passes) in [(0u64, false), (999, false), (1000, true), (5000, true)] {
        let mut f = RateFilter::new(window);
        let t0 = 0;
        assert!(f.accept(t0));
        assert_eq!(f.accept(t0 + delta), passes);
        assert_eq!(f.last, Some(if passes { t0 + delta } else { t0 }));
    }
}

#[test]
fn rate_filter_zero_window_passes_everything() {
    let mut f = RateFilter::new(0);
    for t in [10u64, 10, 11, 11, 500] {
        assert!(f.accept(t));
    }
}

#[test]
fn rate_filter_holds_back_early_reading() {
    let mut f = RateFilter::new(50);
    assert!(f.accept(100));
    assert!(!f.accept(120));
    assert_eq!(f.last, Some(100));
    assert!(f.accept(150));
    assert!(!f.accept(199));
    assert!(f.accept(200));
}

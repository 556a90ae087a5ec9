use universal_time::{Duration, SystemTime};

#[test]
fn system_unix_epoch_is_zero() {
    assert_eq!(SystemTime::unix_epoch().as_unix_duration(), Duration::zero());
}

#[test]
fn roundtrip_unix_duration() {
    let duration = Duration::from_secs(123) + Duration::from_nanos(456);
    let time = SystemTime::from_unix_duration(duration);
    assert_eq!(time.as_unix_duration(), duration);
}

#[test]
fn duration_since_forward() {
    let earlier = SystemTime::from_unix_duration(Duration::from_secs(10));
    let later = SystemTime::from_unix_duration(Duration::from_secs(12));
    assert_eq!(later.duration_since(earlier), Ok(Duration::from_secs(2)));
}

#[test]
fn duration_since_backward() {
    let earlier = SystemTime::from_unix_duration(Duration::from_secs(10));
    let later = SystemTime::from_unix_duration(Duration::from_secs(12));
    assert_eq!(earlier.duration_since(later), Err(Duration::from_secs(2)));
}

#[test]
fn epoch_duration_since_itself_is_zero() {
    let epoch = SystemTime::unix_epoch();
    assert_eq!(epoch.duration_since(epoch), Ok(Duration::zero()));
}

use instagen::timestamp::{
    generate_s3_key_with_timestamp, s3_key_for, s3_key_for_epoch_seconds, UtcTimestamp,
};

#[test]
fn key_is_the_zero_padded_timestamp() {
    let t = UtcTimestamp::new(2024, 1, 1, 0, 0, 0).unwrap();
    assert_eq!(s3_key_for(&t), "2024-01-01-00-00-00.jpg");
    let t = UtcTimestamp::new(2023, 1, 25, 15, 0, 9).unwrap();
    assert_eq!(s3_key_for(&t), "2023-01-25-15-00-09.jpg");
}

#[test]
fn invalid_dates_are_refused() {
    assert!(UtcTimestamp::new(2023, 2, 29, 0, 0, 0).is_none());
    assert!(UtcTimestamp::new(2024, 2, 29, 0, 0, 0).is_some());
    assert!(UtcTimestamp::new(1900, 2, 29, 0, 0, 0).is_none());
    assert!(UtcTimestamp::new(2000, 2, 29, 0, 0, 0).is_some());
    assert!(UtcTimestamp::new(-4, 2, 29, 0, 0, 0).is_some());
    assert!(UtcTimestamp::new(2024, 4, 31, 0, 0, 0).is_none());
    assert!(UtcTimestamp::new(2024, 13, 1, 0, 0, 0).is_none());
    assert!(UtcTimestamp::new(2024, 12, 31, 24, 0, 0).is_none());
    assert!(UtcTimestamp::new(2024, 12, 31, 23, 60, 0).is_none());
    assert!(UtcTimestamp::new(2024, 12, 31, 23, 59, 60).is_none());
    assert!(UtcTimestamp::new(300000, 1, 1, 0, 0, 0).is_none());
}

#[test]
fn key_of_now_has_the_timestamp_shape() {
    let k = generate_s3_key_with_timestamp().unwrap();
    assert!(k.ends_with(".jpg"));
    assert_eq!(k.len(), "2024-01-01-00-00-00.jpg".len());
    let b = k.as_bytes();
    for i in [4, 7, 10, 13, 16] {
        assert_eq!(b[i], b'-');
    }
}

#[test]
fn key_of_epoch_seconds() {
    assert_eq!(s3_key_for_epoch_seconds(0), Some("1970-01-01-00-00-00.jpg".to_string()));
    assert_eq!(s3_key_for_epoch_seconds(1431648000), Some("2015-05-15-00-00-00.jpg".to_string()));
    assert_eq!(s3_key_for_epoch_seconds(1704067199), Some("2023-12-31-23-59-59.jpg".to_string()));
    assert_eq!(s3_key_for_epoch_seconds(i64::MAX), None);
}

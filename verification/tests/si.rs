use toolstr::si::{bucket_of, letter_of};

#[test]
fn buckets_change_at_powers_of_one_thousand() {
    assert_eq!(bucket_of(0), 0);
    assert_eq!(bucket_of(1), 0);
    assert_eq!(bucket_of(2), 0);
    assert_eq!(bucket_of(3), 1);
    assert_eq!(bucket_of(5), 1);
    assert_eq!(bucket_of(6), 2);
    assert_eq!(bucket_of(23), 7);
    assert_eq!(bucket_of(24), 8);
    assert_eq!(bucket_of(-1), -1);
    assert_eq!(bucket_of(-2), -1);
    assert_eq!(bucket_of(-3), -1);
    assert_eq!(bucket_of(-4), -2);
    assert_eq!(bucket_of(-6), -2);
    assert_eq!(bucket_of(-7), -3);
    assert_eq!(bucket_of(-24), -8);
}

#[test]
fn buckets_are_held_within_the_table() {
    assert_eq!(bucket_of(26), 8);
    assert_eq!(bucket_of(27), 8);
    assert_eq!(bucket_of(100), 8);
    assert_eq!(bucket_of(i32::MAX), 8);
    assert_eq!(bucket_of(-25), -8);
    assert_eq!(bucket_of(-100), -8);
    assert_eq!(bucket_of(i32::MIN), -8);
}

#[test]
fn every_bucket_has_its_letter() {
    let letters = [
        'y', 'z', 'a', 'f', 'p', 'n', '\u{b5}', 'm', ' ', 'k', 'M', 'G', 'T', 'P', 'E', 'Z', 'Y',
    ];
    for bucket in -8..=8 {
        let expected = if bucket == 0 { None } else { Some(letters[(bucket + 8) as usize]) };
        assert_eq!(letter_of(bucket), expected);
    }
}

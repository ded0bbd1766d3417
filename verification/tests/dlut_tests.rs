use eldenring::dlut::DLDateTime;

#[test]
fn date_time_fields_come_from_low_bits() {
    let t: u64 = 0x0123_4567_89ab_cdef;
    let d = DLDateTime::from_time64(t, true);
    assert_eq!(d.time64, t);
    assert_eq!(d.years() as u64, t & 0xFFF);
    assert_eq!(d.milliseconds() as u64, t & 0x3FF);
    assert_eq!(d.months() as u64, t & 0xF);
    assert_eq!(d.day_of_week() as u64, t & 0x7);
    assert_eq!(d.days() as u64, t & 0x1F);
    assert_eq!(d.hours() as u64, t & 0x1F);
    assert_eq!(d.minutes() as u64, t & 0x3F);
    assert_eq!(d.seconds() as u64, t & 0x3F);
    assert!(d.is_utc());
}

#[test]
fn date_time_packed_value() {
    let d = DLDateTime::new(0xFFFF_FFFF_FFFF_FFFF, false);
    assert_eq!(d.date, 0x0007_FFFF_FFFF_FFFF);
    assert!(!d.is_utc());
    let z = DLDateTime::new(0, true);
    assert_eq!(z.date, 1u64 << 51);
    assert_eq!(z.years(), 0);
    assert!(z.is_utc());
}

#[test]
fn date_time_small_value() {
    let d = DLDateTime::from_time64(5, false);
    // every field is filled from the low bits of the time
    assert_eq!(d.years(), 5);
    assert_eq!(d.milliseconds(), 5);
    assert_eq!(d.months(), 5);
    assert_eq!(d.day_of_week(), 5);
    assert_eq!(d.days(), 5);
    assert_eq!(d.hours(), 5);
    assert_eq!(d.minutes(), 5);
    assert_eq!(d.seconds(), 5);
    let expected: u64 = (5 << 45) | (5 << 39) | (5 << 34) | (5 << 29) | (5 << 26) | (5 << 22)
        | (5 << 12) | 5;
    assert_eq!(d.date, expected);
}

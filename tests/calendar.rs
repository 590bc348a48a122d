use orbit_seasons::calendar::{update_calendar, Calendar, Months, DAY_DURATION_NANOS};

fn date(month: Months, day: u8) -> Calendar {
    Calendar { month, day }
}

#[test]
fn month_lengths() {
    let all = [
        (Months::January, 31),
        (Months::February, 28),
        (Months::March, 31),
        (Months::April, 30),
        (Months::May, 31),
        (Months::June, 30),
        (Months::July, 31),
        (Months::August, 31),
        (Months::September, 30),
        (Months::October, 31),
        (Months::November, 30),
        (Months::December, 31),
    ];
    let total: u32 = all.iter().map(|(m, _)| m.days() as u32).sum();
    assert_eq!(total, 365);
    for (m, d) in all {
        assert_eq!(m.days(), d);
    }
}

#[test]
fn next_month_cycles() {
    assert_eq!(Months::January.next(), Months::February);
    assert_eq!(Months::November.next(), Months::December);
    assert_eq!(Months::December.next(), Months::January);
    let mut m = Months::March;
    for _ in 0..12 {
        m = m.next();
    }
    assert_eq!(m, Months::March);
}

#[test]
fn default_is_first_of_january() {
    assert_eq!(Calendar::default(), date(Months::January, 1));
}

#[test]
fn end_of_january_rolls_to_february() {
    let mut c = date(Months::January, 31);
    let mut last: u64 = DAY_DURATION_NANOS - 16_000_000;
    update_calendar(&mut c, &mut last, 16_000_000);
    assert_eq!(c, date(Months::February, 1));
    assert_eq!(last, 0);
}

#[test]
fn end_of_december_wraps_to_january() {
    let mut c = date(Months::December, 31);
    let mut last: u64 = DAY_DURATION_NANOS + 500_000_000;
    update_calendar(&mut c, &mut last, 0);
    assert_eq!(c, date(Months::January, 1));
    assert_eq!(last, 0);
}

#[test]
fn mid_month_advances_one_day() {
    let mut c = date(Months::April, 29);
    c.advance_day();
    assert_eq!(c, date(Months::April, 30));
    c.advance_day();
    assert_eq!(c, date(Months::May, 1));
}

#[test]
fn below_threshold_only_accumulates() {
    let mut c = date(Months::March, 10);
    let mut last: u64 = DAY_DURATION_NANOS - 2;
    update_calendar(&mut c, &mut last, 1);
    assert_eq!(c, date(Months::March, 10));
    assert_eq!(last, DAY_DURATION_NANOS - 1);
    update_calendar(&mut c, &mut last, 0);
    assert_eq!(c, date(Months::March, 10));
    assert_eq!(last, DAY_DURATION_NANOS - 1);
    update_calendar(&mut c, &mut last, 7);
    assert_eq!(c, date(Months::March, 11));
    assert_eq!(last, 0);
}

#[test]
fn accumulator_saturates() {
    let mut c = date(Months::June, 1);
    let mut last: u64 = 5;
    update_calendar(&mut c, &mut last, u64::MAX);
    assert_eq!(c, date(Months::June, 2));
    assert_eq!(last, 0);
}

#[test]
fn whole_month_day_by_day_reaches_next_month() {
    for start in [Months::January, Months::February, Months::September, Months::December] {
        let mut c = date(start, 1);
        for _ in 0..start.days() {
            c.advance_day();
            assert!(c.day >= 1 && c.day <= c.month.days());
        }
        assert_eq!(c, date(start.next(), 1));
    }
}

#[test]
fn february_from_day_one_with_timer() {
    let mut c = date(Months::February, 1);
    let mut last: u64 = 0;
    for _ in 0..28 {
        update_calendar(&mut c, &mut last, DAY_DURATION_NANOS);
        update_calendar(&mut c, &mut last, 0);
    }
    assert_eq!(c, date(Months::March, 1));
}

#[test]
fn default_month_is_january() {
    assert_eq!(Months::default(), Months::January);
}

#[test]
fn day_advances_in_the_frame_that_completes_it() {
    let mut c = date(Months::January, 5);
    let mut last: u64 = DAY_DURATION_NANOS - 1;
    update_calendar(&mut c, &mut last, 1);
    assert_eq!(c, date(Months::January, 6));
    assert_eq!(last, 0);
}

#[test]
fn accumulator_stays_below_a_day() {
    let mut c = date(Months::August, 1);
    let mut last: u64 = 0;
    for _ in 0..3 {
        update_calendar(&mut c, &mut last, DAY_DURATION_NANOS / 3);
    }
    assert_eq!(c, date(Months::August, 1));
    assert_eq!(last, DAY_DURATION_NANOS / 3 * 3);
    update_calendar(&mut c, &mut last, 2);
    assert_eq!(c, date(Months::August, 2));
    assert_eq!(last, 0);
}

use reservation::{
    get_timestamp, str_to_option, validate_range, Error, NaiveRange, Normalizer, RangeBound,
    Reservation, ReservationFilterBuilder, ReservationQueryBuilder, ReservationStatus,
    RsvpStatus, TimeRange, Timestamp, Validator, DEFAULT_PAGE_SIZE, MAX_PAGE_SIZE,
    MIN_PAGE_SIZE,
};

#[test]
fn validate_range_should_allow_range() {
    let start = Timestamp { seconds: 1, nanos: 0 };
    let end = Timestamp { seconds: 2, nanos: 0 };

    assert!(validate_range(Some(&start), Some(&end)).is_ok());
}

#[test]
fn validate_range_should_reject_invalid_range() {
    let end = Timestamp { seconds: 1, nanos: 0 };
    let start = Timestamp { seconds: 2, nanos: 0 };

    assert!(validate_range(Some(&start), Some(&end)).is_err());
}

#[test]
fn get_timestamp_should_work_for_valid_start_end() {
    let start = Timestamp { seconds: 1, nanos: 0 };
    let end = Timestamp { seconds: 2, nanos: 0 };

    let range = get_timestamp(Some(&start), Some(&end));
    assert_eq!(range.start, RangeBound::Included(start));
    assert_eq!(range.end, RangeBound::Excluded(end));
}

fn at(seconds: i64, nanos: i32) -> Timestamp {
    Timestamp { seconds, nanos }
}

#[test]
fn validate_range_rejects_with_invalid_time() {
    let t = at(5, 0);
    assert_eq!(validate_range(Some(&t), Some(&t)), Err(Error::InvalidTime));
    assert_eq!(validate_range(Some(&at(6, 0)), Some(&t)), Err(Error::InvalidTime));
    assert_eq!(validate_range(None, Some(&t)), Err(Error::InvalidTime));
    assert_eq!(validate_range(Some(&t), None), Err(Error::InvalidTime));
    assert_eq!(validate_range(None, None), Err(Error::InvalidTime));
}

#[test]
fn validate_range_compares_instants() {
    assert_eq!(validate_range(Some(&at(5, 1)), Some(&at(5, 2))), Ok(()));
    assert_eq!(validate_range(Some(&at(5, 2)), Some(&at(5, 1))), Err(Error::InvalidTime));
    assert_eq!(validate_range(Some(&at(5, 999_999_999)), Some(&at(6, 0))), Ok(()));
    assert_eq!(validate_range(Some(&at(4, 1_000_000_000)), Some(&at(5, 0))), Err(Error::InvalidTime));
    assert_eq!(validate_range(Some(&at(-1, 0)), Some(&at(0, -1))), Ok(()));
    assert_eq!(
        validate_range(Some(&at(i64::MIN, i32::MIN)), Some(&at(i64::MAX, i32::MAX))),
        Ok(())
    );
    assert_eq!(
        validate_range(Some(&at(i64::MAX, i32::MAX)), Some(&at(i64::MIN, i32::MIN))),
        Err(Error::InvalidTime)
    );
}

#[test]
fn timestamps_are_put_in_order_by_their_instants() {
    assert!(at(1, 0).before(&at(2, 0)));
    assert!(!at(2, 0).before(&at(1, 0)));
    assert!(!at(1, 0).before(&at(1, 0)));
    assert!(at(1, 5).before(&at(1, 6)));
    assert!(!at(0, 1_000_000_000).before(&at(1, 0)));
    assert!(at(0, 999_999_999).before(&at(1, 0)));
}

#[test]
fn absent_ends_leave_the_range_open() {
    let t = at(3, 4);
    assert_eq!(
        get_timestamp(None, None),
        TimeRange { start: RangeBound::Unbounded, end: RangeBound::Unbounded }
    );
    assert_eq!(
        get_timestamp(Some(&t), None),
        TimeRange { start: RangeBound::Included(t), end: RangeBound::Unbounded }
    );
    assert_eq!(
        get_timestamp(None, Some(&t)),
        TimeRange { start: RangeBound::Unbounded, end: RangeBound::Excluded(t) }
    );
}

#[test]
fn naive_range_forgets_the_kind_of_each_end() {
    let (a, b) = (at(1, 0), at(2, 0));
    let ends = |start, end| NaiveRange::from(TimeRange { start, end });
    assert_eq!(
        ends(RangeBound::Included(a), RangeBound::Excluded(b)),
        NaiveRange { start: Some(a), end: Some(b) }
    );
    assert_eq!(
        ends(RangeBound::Excluded(a), RangeBound::Included(b)),
        NaiveRange { start: Some(a), end: Some(b) }
    );
    assert_eq!(
        ends(RangeBound::Unbounded, RangeBound::Unbounded),
        NaiveRange { start: None, end: None }
    );
}

#[test]
fn new_pending_fills_every_field() {
    let r = Reservation::new_pending("uid", "rid", at(1, 2), at(3, 4), "note");
    assert_eq!(
        r,
        Reservation {
            id: 0,
            user_id: "uid".to_string(),
            resource_id: "rid".to_string(),
            start: Some(at(1, 2)),
            end: Some(at(3, 4)),
            note: "note".to_string(),
            status: ReservationStatus::Pending as i32,
        }
    );
    assert_eq!(
        r.get_timespan(),
        TimeRange { start: RangeBound::Included(at(1, 2)), end: RangeBound::Excluded(at(3, 4)) }
    );
}

#[test]
fn stored_row_becomes_a_reservation() {
    let r = Reservation::from_stored(
        7,
        "uid".to_string(),
        "rid".to_string(),
        TimeRange { start: RangeBound::Included(at(1, 2)), end: RangeBound::Excluded(at(3, 4)) },
        "note".to_string(),
        RsvpStatus::Confirmed,
    );
    assert_eq!(
        r,
        Reservation {
            id: 7,
            user_id: "uid".to_string(),
            resource_id: "rid".to_string(),
            start: Some(at(1, 2)),
            end: Some(at(3, 4)),
            note: "note".to_string(),
            status: 2,
        }
    );
}

#[test]
fn stored_row_with_an_open_window_lacks_that_end() {
    let r = Reservation::from_stored(
        7,
        "uid".to_string(),
        "rid".to_string(),
        TimeRange { start: RangeBound::Excluded(at(1, 2)), end: RangeBound::Unbounded },
        "note".to_string(),
        RsvpStatus::Unknown,
    );
    assert_eq!(r.start, Some(at(1, 2)));
    assert_eq!(r.end, None);
    assert_eq!(r.status, 0);
    assert_eq!(r.validate(), Err(Error::InvalidTime));
}

#[test]
fn reservation_is_checked_field_by_field() {
    let good = Reservation::new_pending("u", "r", at(1, 0), at(2, 0), "");
    assert_eq!(good.validate(), Ok(()));

    let nobody = Reservation::new_pending("", "", at(2, 0), at(1, 0), "");
    assert_eq!(nobody.validate(), Err(Error::InvalidUserId(String::new())));

    let nothing = Reservation::new_pending("u", "", at(2, 0), at(1, 0), "");
    assert_eq!(nothing.validate(), Err(Error::InvalidResourceId(String::new())));

    let never = Reservation::new_pending("u", "r", at(2, 0), at(1, 0), "");
    assert_eq!(never.validate(), Err(Error::InvalidTime));

    let mut open = good.clone();
    open.start = None;
    assert_eq!(open.validate(), Err(Error::InvalidTime));

    let mut odd = good.clone();
    odd.status = 99;
    assert_eq!(odd.validate(), Ok(()));
}

#[test]
fn reservation_number_must_be_above_zero() {
    assert_eq!(1i64.validate(), Ok(()));
    assert_eq!(i64::MAX.validate(), Ok(()));
    assert_eq!(0i64.validate(), Err(Error::InvalidReservationId(0)));
    assert_eq!((-5i64).validate(), Err(Error::InvalidReservationId(-5)));
    assert_eq!(i64::MIN.validate(), Err(Error::InvalidReservationId(i64::MIN)));
}

#[test]
fn query_is_checked_and_normalized() {
    let q = ReservationQueryBuilder::default().build().unwrap();
    assert_eq!(q.status, 1);
    assert_eq!(q.get_status(), ReservationStatus::Pending);
    assert_eq!(q.user_id, "");
    assert_eq!(q.resource_id, "");
    assert_eq!(q.start, None);
    assert_eq!(q.end, None);
    assert!(!q.desc);

    let q = ReservationQueryBuilder::default()
        .user_id("u")
        .resource_id("r")
        .status(3)
        .start(at(1, 0))
        .end(at(2, 0))
        .desc(true)
        .build()
        .unwrap();
    assert_eq!(q.status, 3);
    assert_eq!(q.get_status(), ReservationStatus::Blocked);
    assert_eq!(q.user_id, "u");
    assert_eq!(q.resource_id, "r");
    assert_eq!(q.start, Some(at(1, 0)));
    assert_eq!(q.end, Some(at(2, 0)));
    assert!(q.desc);
    assert_eq!(
        q.get_timespan(),
        TimeRange { start: RangeBound::Included(at(1, 0)), end: RangeBound::Excluded(at(2, 0)) }
    );

    let bad = ReservationQueryBuilder::default().status(4).build();
    assert_eq!(bad.unwrap_err(), Error::InvalidStatus(4));
    let bad = ReservationQueryBuilder::default().start(at(2, 0)).end(at(2, 0)).build();
    assert_eq!(bad.unwrap_err(), Error::InvalidTime);
    let bad = ReservationQueryBuilder::default().status(-1).start(at(2, 0)).end(at(1, 0)).build();
    assert_eq!(bad.unwrap_err(), Error::InvalidStatus(-1));
}

#[test]
fn normalizing_twice_changes_nothing() {
    let mut q = ReservationQueryBuilder::default().user_id("u").build().unwrap();
    q.status = 0;
    assert_eq!(q.normalize(), Ok(()));
    let once = q.clone();
    assert_eq!(once.status, 1);
    assert_eq!(q.normalize(), Ok(()));
    assert_eq!(q, once);

    let mut f = ReservationFilterBuilder::default().user_id("u").build().unwrap();
    f.status = 0;
    f.page_size = 7;
    assert_eq!(f.normalize(), Ok(()));
    let once = f.clone();
    assert_eq!(once.status, 1);
    assert_eq!(once.page_size, 10);
    assert_eq!(f.normalize(), Ok(()));
    assert_eq!(f, once);
}

#[test]
fn failed_check_leaves_the_value_alone() {
    let mut q = ReservationQueryBuilder::default().build().unwrap();
    q.status = 0;
    q.start = Some(at(9, 0));
    q.end = Some(at(1, 0));
    let before = q.clone();
    assert_eq!(q.normalize(), Err(Error::InvalidTime));
    assert_eq!(q, before);
}

#[test]
fn filter_is_checked_and_normalized() {
    let f = ReservationFilterBuilder::default().build().unwrap();
    assert_eq!(f.status, 1);
    assert_eq!(f.get_status(), ReservationStatus::Pending);
    assert_eq!(f.cursor, None);
    assert_eq!(f.page_size, 10);
    assert!(!f.desc);

    let f = ReservationFilterBuilder::default()
        .user_id("u")
        .resource_id("r")
        .status(2)
        .cursor(-4)
        .page_size(50)
        .desc(true)
        .build()
        .unwrap();
    assert_eq!(f.user_id, "u");
    assert_eq!(f.resource_id, "r");
    assert_eq!(f.status, 2);
    assert_eq!(f.cursor, Some(-4));
    assert_eq!(f.page_size, 50);
    assert!(f.desc);

    let bad = ReservationFilterBuilder::default().cursor(0).build();
    assert_eq!(bad.unwrap_err(), Error::InvalidCursor(0));
    let bad = ReservationFilterBuilder::default().cursor(i64::MIN).build();
    assert_eq!(bad.unwrap_err(), Error::InvalidCursor(i64::MIN));
    let bad = ReservationFilterBuilder::default().status(5).build();
    assert_eq!(bad.unwrap_err(), Error::InvalidStatus(5));
    let bad = ReservationFilterBuilder::default().status(5).cursor(0).build();
    assert_eq!(bad.unwrap_err(), Error::InvalidCursor(0));
    assert!(ReservationFilterBuilder::default().cursor(i64::MAX).build().is_ok());
    assert!(ReservationFilterBuilder::default().cursor(i64::MIN + 1).build().is_ok());
}

#[test]
fn page_size_is_brought_into_range() {
    assert_eq!(DEFAULT_PAGE_SIZE, 10);
    assert_eq!(MIN_PAGE_SIZE, 10);
    assert_eq!(MAX_PAGE_SIZE, 100);
    let served = |asked: u32| {
        ReservationFilterBuilder::default().page_size(asked).build().unwrap().page_size
    };
    assert_eq!(served(0), 10);
    assert_eq!(served(1), 10);
    assert_eq!(served(9), 10);
    assert_eq!(served(10), 10);
    assert_eq!(served(11), 11);
    assert_eq!(served(99), 99);
    assert_eq!(served(100), 100);
    assert_eq!(served(101), 100);
    assert_eq!(served(u32::MAX), 100);
}

#[test]
fn empty_text_is_no_text() {
    assert_eq!(str_to_option(""), None);
    assert_eq!(str_to_option("a"), Some("a"));
    assert_eq!(str_to_option(" "), Some(" "));
}

use reservation::{
    RangeBound, ReservationFilterBuilder, ReservationQueryBuilder, ReservationStatus, SqlValue,
    Statement, TimeRange, Timestamp, ToSql,
};

fn text(s: &str) -> SqlValue {
    SqlValue::Text(s.to_string())
}

fn open_range() -> SqlValue {
    SqlValue::Range(TimeRange { start: RangeBound::Unbounded, end: RangeBound::Unbounded })
}

#[test]
fn statement_numbers_its_values_in_order() {
    let mut s = Statement::begin("SELECT ");
    assert_eq!(s.text, "SELECT ");
    assert!(s.params.is_empty());
    s.bind(SqlValue::Int(7));
    s.push_text(" + ");
    s.bind(text("x"));
    assert_eq!(s.text, "SELECT $1 + $2");
    assert_eq!(s.params, vec![SqlValue::Int(7), text("x")]);
}

#[test]
fn statement_numbers_beyond_nine_in_decimal() {
    let mut s = Statement::begin("");
    for i in 0..123 {
        s.push_text(",");
        s.bind(SqlValue::Int(i));
    }
    assert!(s.text.starts_with(",$1,$2,$3,$4,$5,$6,$7,$8,$9,$10,$11,"));
    assert!(s.text.ends_with(",$99,$100,$101,$102,$103,$104,$105,$106,$107,$108,$109,$110,$111,$112,$113,$114,$115,$116,$117,$118,$119,$120,$121,$122,$123"));
    assert_eq!(s.params.len(), 123);
}

#[test]
fn identity_clause_follows_the_names_given() {
    let mut none = Statement::begin("");
    none.push_identity("", "");
    assert_eq!(none.text, "TRUE");
    assert!(none.params.is_empty());

    let mut user = Statement::begin("");
    user.push_identity("u", "");
    assert_eq!(user.text, "user_id = $1");
    assert_eq!(user.params, vec![text("u")]);

    let mut resource = Statement::begin("");
    resource.push_identity("", "r");
    assert_eq!(resource.text, "resource_id = $1");
    assert_eq!(resource.params, vec![text("r")]);

    let mut both = Statement::begin("");
    both.push_identity("u", "r");
    assert_eq!(both.text, "user_id = $1 AND resource_id = $2");
    assert_eq!(both.params, vec![text("u"), text("r")]);
}

#[test]
fn cursor_clause_follows_the_way_of_travel() {
    let clause = |cursor: Option<i64>, desc: bool| {
        let mut s = Statement::begin("");
        s.push_cursor(cursor, desc);
        (s.text, s.params)
    };
    assert_eq!(clause(None, false), ("TRUE".to_string(), vec![]));
    assert_eq!(clause(None, true), ("TRUE".to_string(), vec![]));
    assert_eq!(clause(Some(10), false), ("id > $1".to_string(), vec![SqlValue::Int(10)]));
    assert_eq!(clause(Some(-11), false), ("id < $1".to_string(), vec![SqlValue::Int(11)]));
    assert_eq!(clause(Some(10), true), ("id < $1".to_string(), vec![SqlValue::Int(10)]));
    assert_eq!(clause(Some(-11), true), ("id > $1".to_string(), vec![SqlValue::Int(11)]));
    assert_eq!(
        clause(Some(i64::MIN), false),
        ("id < $1".to_string(), vec![SqlValue::Int(i64::MAX)])
    );
    assert_eq!(
        clause(Some(i64::MAX), false),
        ("id > $1".to_string(), vec![SqlValue::Int(i64::MAX)])
    );
}

#[test]
fn query_for_everything_binds_an_open_range() {
    let query = ReservationQueryBuilder::default().build().unwrap();
    let s = query.to_sql();
    assert_eq!(
        s.text,
        "SELECT * FROM rsvp.reservations WHERE $1 @> timespan AND status = $2::rsvp.reservation_status AND TRUE ORDER BY lower(timespan) ASC"
    );
    assert_eq!(s.params, vec![open_range(), text("pending")]);
}

#[test]
fn query_binds_range_status_and_names() {
    let start = Timestamp { seconds: 1669932000, nanos: 0 };
    let end = Timestamp { seconds: 1672254000, nanos: 0 };
    let query = ReservationQueryBuilder::default()
        .user_id("chalanziId")
        .resource_id("ocean-view-room-713")
        .start(start)
        .end(end)
        .status(ReservationStatus::Confirmed as i32)
        .desc(true)
        .build()
        .unwrap();
    let s = query.to_sql();
    assert_eq!(
        s.text,
        "SELECT * FROM rsvp.reservations WHERE $1 @> timespan AND status = $2::rsvp.reservation_status AND user_id = $3 AND resource_id = $4 ORDER BY lower(timespan) DESC"
    );
    assert_eq!(
        s.params,
        vec![
            SqlValue::Range(TimeRange {
                start: RangeBound::Included(start),
                end: RangeBound::Excluded(end),
            }),
            text("confirmed"),
            text("chalanziId"),
            text("ocean-view-room-713"),
        ]
    );
}

#[test]
fn query_with_one_name_binds_that_name() {
    let by_user = ReservationQueryBuilder::default().user_id("u").build().unwrap().to_sql();
    assert_eq!(
        by_user.text,
        "SELECT * FROM rsvp.reservations WHERE $1 @> timespan AND status = $2::rsvp.reservation_status AND user_id = $3 ORDER BY lower(timespan) ASC"
    );
    assert_eq!(by_user.params, vec![open_range(), text("pending"), text("u")]);

    let by_resource =
        ReservationQueryBuilder::default().resource_id("r").status(3).build().unwrap().to_sql();
    assert_eq!(
        by_resource.text,
        "SELECT * FROM rsvp.reservations WHERE $1 @> timespan AND status = $2::rsvp.reservation_status AND resource_id = $3 ORDER BY lower(timespan) ASC"
    );
    assert_eq!(by_resource.params, vec![open_range(), text("blocked"), text("r")]);
}

#[test]
fn query_with_one_end_leaves_the_other_open() {
    let t = Timestamp { seconds: 5, nanos: 9 };
    let from = ReservationQueryBuilder::default().start(t).build().unwrap().to_sql();
    assert_eq!(
        from.params[0],
        SqlValue::Range(TimeRange { start: RangeBound::Included(t), end: RangeBound::Unbounded })
    );
    let until = ReservationQueryBuilder::default().end(t).build().unwrap().to_sql();
    assert_eq!(
        until.params[0],
        SqlValue::Range(TimeRange { start: RangeBound::Unbounded, end: RangeBound::Excluded(t) })
    );
}

#[test]
fn names_never_enter_the_text() {
    let hostile = "x' OR 1=1; DROP TABLE rsvp.reservations; --";
    let plain = ReservationQueryBuilder::default().user_id("u").resource_id("r").build().unwrap();
    let odd =
        ReservationQueryBuilder::default().user_id(hostile).resource_id(hostile).build().unwrap();
    assert_eq!(plain.to_sql().text, odd.to_sql().text);
    assert_eq!(odd.to_sql().params[2], text(hostile));
    assert_eq!(odd.to_sql().params[3], text(hostile));

    let plain = ReservationFilterBuilder::default().user_id("u").cursor(3).build().unwrap();
    let odd = ReservationFilterBuilder::default().user_id(hostile).cursor(4).build().unwrap();
    assert_eq!(plain.to_sql().text, odd.to_sql().text);
    assert_eq!(odd.to_sql().params[1], text(hostile));
}

#[test]
fn filter_first_page_asks_for_one_row_more() {
    let filter = ReservationFilterBuilder::default()
        .user_id("chalanziId")
        .status(ReservationStatus::Pending as i32)
        .build()
        .unwrap();
    let s = filter.to_sql();
    assert_eq!(
        s.text,
        "SELECT * FROM rsvp.reservations WHERE status = $1::rsvp.reservation_status AND user_id = $2 AND TRUE ORDER BY id ASC LIMIT $3"
    );
    assert_eq!(s.params, vec![text("pending"), text("chalanziId"), SqlValue::Int(11)]);
}

#[test]
fn filter_forward_goes_on_behind_the_cursor() {
    let filter = ReservationFilterBuilder::default()
        .user_id("u")
        .resource_id("r")
        .cursor(10)
        .page_size(20)
        .build()
        .unwrap();
    let s = filter.to_sql();
    assert_eq!(
        s.text,
        "SELECT * FROM rsvp.reservations WHERE status = $1::rsvp.reservation_status AND user_id = $2 AND resource_id = $3 AND id > $4 ORDER BY id ASC LIMIT $5"
    );
    assert_eq!(
        s.params,
        vec![text("pending"), text("u"), text("r"), SqlValue::Int(10), SqlValue::Int(21)]
    );
}

#[test]
fn filter_backward_fetches_in_the_other_order() {
    let filter = ReservationFilterBuilder::default().cursor(-11).build().unwrap();
    let s = filter.to_sql();
    assert_eq!(
        s.text,
        "SELECT * FROM rsvp.reservations WHERE status = $1::rsvp.reservation_status AND TRUE AND id < $2 ORDER BY id DESC LIMIT $3"
    );
    assert_eq!(s.params, vec![text("pending"), SqlValue::Int(11), SqlValue::Int(11)]);
}

#[test]
fn filter_descending_turns_both_ways_round() {
    let forward = ReservationFilterBuilder::default().desc(true).cursor(6).build().unwrap();
    assert_eq!(
        forward.to_sql().text,
        "SELECT * FROM rsvp.reservations WHERE status = $1::rsvp.reservation_status AND TRUE AND id < $2 ORDER BY id DESC LIMIT $3"
    );
    let backward = ReservationFilterBuilder::default().desc(true).cursor(-6).build().unwrap();
    assert_eq!(
        backward.to_sql().text,
        "SELECT * FROM rsvp.reservations WHERE status = $1::rsvp.reservation_status AND TRUE AND id > $2 ORDER BY id ASC LIMIT $3"
    );
    assert_eq!(backward.to_sql().params[1], SqlValue::Int(6));
    let first = ReservationFilterBuilder::default().desc(true).build().unwrap();
    assert_eq!(
        first.to_sql().text,
        "SELECT * FROM rsvp.reservations WHERE status = $1::rsvp.reservation_status AND TRUE AND TRUE ORDER BY id DESC LIMIT $2"
    );
}

#[test]
fn filter_limit_does_not_overflow() {
    let mut filter = ReservationFilterBuilder::default().build().unwrap();
    filter.page_size = u32::MAX;
    assert_eq!(filter.to_sql().params[1], SqlValue::Int(4294967296));
}

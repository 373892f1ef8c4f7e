use hotel_reservations::auth::JwtMiddleware;
use hotel_reservations::common::{AppError, PaginationParams};
use hotel_reservations::dates::Date;
use hotel_reservations::pricing::price;
use hotel_reservations::response::{PaginationMeta, StandardResponse};

#[test]
fn price_is_nights_times_rate() {
    let check_in = Date::from_ymd(2024, 1, 1).unwrap();
    let check_out = Date::from_ymd(2024, 1, 3).unwrap();
    assert_eq!(price(check_in, check_out, 100), 200);

    let one_night = Date::from_ymd(2024, 1, 2).unwrap();
    assert_eq!(price(check_in, one_night, 75), 75);
}

#[test]
fn price_spans_month_and_leap_day() {
    // February 2024 has 29 days, so Feb 28 to Mar 1 is two nights.
    let check_in = Date::from_ymd(2024, 2, 28).unwrap();
    let check_out = Date::from_ymd(2024, 3, 1).unwrap();
    assert_eq!(price(check_in, check_out, 100), 200);
    // February 2023 has 28, so the same span is one night.
    let check_in23 = Date::from_ymd(2023, 2, 28).unwrap();
    let check_out23 = Date::from_ymd(2023, 3, 1).unwrap();
    assert_eq!(price(check_in23, check_out23, 100), 100);
}

#[test]
fn dates_follow_the_calendar() {
    let a = Date::from_ymd(2024, 1, 1).unwrap();
    let b = Date::from_ymd(2024, 1, 3).unwrap();
    assert_eq!(b.days - a.days, 2);
    // A year boundary is one day.
    let eve = Date::from_ymd(2023, 12, 31).unwrap();
    assert_eq!(a.days - eve.days, 1);

    assert!(Date::from_ymd(2024, 2, 29).is_some());
    assert!(Date::from_ymd(2023, 2, 29).is_none());
    assert!(Date::from_ymd(2023, 4, 31).is_none());
    assert!(Date::from_ymd(2023, 0, 1).is_none());
    assert!(Date::from_ymd(2023, 13, 1).is_none());
    assert!(Date::from_ymd(400000, 1, 1).is_none());
}

#[test]
fn pagination_params_resolve_defaults() {
    let p = PaginationParams { page: None, page_size: None };
    assert_eq!(p.resolve(), (1, 10));
    let q = PaginationParams { page: Some(4), page_size: Some(25) };
    assert_eq!(q.resolve(), (4, 25));
}

#[test]
fn app_error_messages() {
    let e = AppError::Conflict("Dates overlap with an existing reservation.".to_string());
    assert_eq!(e.message(), "Dates overlap with an existing reservation.");
    let v = AppError::ValidationError("bad".to_string());
    assert_eq!(v.message(), "bad");
    let n = AppError::NotFound("missing".to_string());
    assert_eq!(n.message(), "missing");
    let s = AppError::StorageFailure("full".to_string());
    assert_eq!(s.message(), "full");
}

#[test]
fn standard_response_constructors() {
    match StandardResponse::<()>::success("done") {
        StandardResponse::MessageOnly { status, message } => {
            assert!(status);
            assert_eq!(message, "done");
        }
        _ => panic!("wrong variant"),
    }
    match StandardResponse::<()>::error("boom") {
        StandardResponse::MessageOnly { status, message } => {
            assert!(!status);
            assert_eq!(message, "boom");
        }
        _ => panic!("wrong variant"),
    }
    match StandardResponse::success_with_data(5u8, "ok") {
        StandardResponse::WithData { status, message, data } => {
            assert!(status);
            assert_eq!(message, "ok");
            assert_eq!(data, 5);
        }
        _ => panic!("wrong variant"),
    }
    let meta = PaginationMeta { total_items: 25, total_pages: 3, current_page: 2, page_size: 10 };
    match StandardResponse::success_with_pagination(vec![1, 2], "ok", meta) {
        StandardResponse::WithDataAndPagination { status, message, data, pagination } => {
            assert!(status);
            assert_eq!(message, "ok");
            assert_eq!(data, vec![1, 2]);
            assert_eq!(pagination, meta);
        }
        _ => panic!("wrong variant"),
    }
}

#[test]
fn jwt_middleware_keeps_its_secret() {
    let mw = JwtMiddleware::new("not-a-real-secret".to_string());
    assert_eq!(mw.secret(), "not-a-real-secret");
}

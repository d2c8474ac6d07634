use mensatt::config::ImageServiceConfig;
use mensatt::error::{DbError, GqlApiError};
use mensatt::image_service::{response_outcome, HttpStatus, ImageServiceApiError};
use mensatt::models::{DbDish, DbOccurrence, DbReview, DbUser};
use mensatt::queries::{current_user, GqlDish, GqlOccurrence, GqlReview, ReviewFilter};
use mensatt::subscriptions::{ReviewEvent, ReviewSubscriptions};
use mensatt::time::Timestamp;

fn config() -> ImageServiceConfig {
    ImageServiceConfig { url: "http://img:3000".into(), api_key: "k".into() }
}

#[test]
fn image_service_urls() {
    let id = 0x67e5504410b1426f9247bb680e5fe0c8;
    assert_eq!(config().approve_url(id), "http://img:3000/approve/67e55044-10b1-426f-9247-bb680e5fe0c8");
    assert_eq!(config().unapprove_url(id), "http://img:3000/unapprove/67e55044-10b1-426f-9247-bb680e5fe0c8");
}

#[test]
fn image_service_answers() {
    assert!(response_outcome(HttpStatus { code: 200, text: "200 OK".into() }, None).is_ok());
    let e = response_outcome(HttpStatus { code: 404, text: "404 Not Found".into() }, Some("no such image".into()))
        .unwrap_err();
    assert_eq!(e.describe(), "Unexpected status '404 Not Found': no such image");
    let e = response_outcome(HttpStatus { code: 500, text: "500 Internal Server Error".into() }, None).unwrap_err();
    assert_eq!(e.describe(), "Unexpected status '500 Internal Server Error': ");
    assert_eq!(ImageServiceApiError::Http("timeout".into()).describe(), "HTTP error: timeout");
}

fn review(accepted: bool) -> DbReview {
    DbReview {
        id: 3,
        display_name: None,
        stars: 2,
        text: Some("ok".into()),
        created_at: Timestamp { micros: 0 },
        updated_at: Timestamp { micros: 1_000_000 },
        accepted_at: if accepted { Some(Timestamp { micros: 1_706_861_048_924_549 }) } else { None },
        occurrence: 8,
    }
}

#[test]
fn gql_reviews() {
    let g = GqlReview::from(review(true));
    assert_eq!(g.id, 3);
    assert_eq!(g.created_at.0, "1970-01-01T00:00:00.000000Z");
    assert_eq!(g.updated_at.0, "1970-01-01T00:00:01.000000Z");
    assert_eq!(g.accepted_at.unwrap().0, "2024-02-02T08:04:08.924549Z");
    assert_eq!(g.occurrence_id, 8);
    assert!(GqlReview::from(review(false)).accepted_at.is_none());
}

#[test]
fn review_subscriptions_filter_events() {
    let created = ReviewEvent::Created(GqlReview::from(review(false)));
    let accepted = ReviewEvent::Accepted(GqlReview::from(review(true)));
    assert_eq!(ReviewSubscriptions::created_item(Some(created)).unwrap().id, 3);
    assert!(ReviewSubscriptions::accepted_item(Some(ReviewEvent::Created(GqlReview::from(review(false))))).is_none());
    assert!(ReviewSubscriptions::accepted_item(Some(accepted)).is_some());
    assert!(ReviewSubscriptions::created_item(None).is_none());
}

#[test]
fn review_streams_yield_their_kind_in_order() {
    let mut first = review(false);
    first.id = 10;
    let mut second = review(true);
    second.id = 11;
    let mut third = review(false);
    third.id = 12;
    let received = vec![
        Some(ReviewEvent::Created(GqlReview::from(first))),
        None,
        Some(ReviewEvent::Accepted(GqlReview::from(second))),
        Some(ReviewEvent::Created(GqlReview::from(third))),
    ];
    let created: Vec<u128> =
        received.iter().cloned().filter_map(ReviewSubscriptions::created_item).map(|g| g.id).collect();
    let accepted: Vec<u128> =
        received.iter().cloned().filter_map(ReviewSubscriptions::accepted_item).map(|g| g.id).collect();
    assert_eq!(created, vec![10, 12]);
    assert_eq!(accepted, vec![11]);
}

#[test]
fn gql_occurrences_and_dishes() {
    let occ = DbOccurrence {
        id: 5,
        date: Timestamp { micros: 19_755 * 86_400_000_000 + 3_600_000_000 },
        kj: Some(1),
        kcal: None,
        fat: None,
        saturated_fat: None,
        carbohydrates: None,
        sugar: None,
        fiber: None,
        protein: None,
        salt: None,
        price_student: Some(250),
        price_staff: Some(400),
        price_guest: None,
        dish: 1,
        location: 4,
        not_available_after: Some(Timestamp { micros: 0 }),
        status: "AWAITING_APPROVAL".into(),
    };
    let g = GqlOccurrence::from(occ);
    assert_eq!(g.date.days, 19_755);
    assert_eq!(g.not_available_after.unwrap().0, "1970-01-01T00:00:00.000000Z");
    assert_eq!((g.dish_id, g.location_id, g.price_staff), (1, 4, Some(400)));
    let d = GqlDish::from(DbDish { id: 2, name_de: "Suppe".into(), name_en: None });
    let f = Some(ReviewFilter { approved: Some(true) });
    let data = d.review_data(f);
    assert_eq!((data.dish_id, data.filter), (2, f));
}

#[test]
fn current_users() {
    let u = DbUser {
        id: 1,
        email: "a@b.c".into(),
        password_hash: "h".into(),
        created_at: Timestamp { micros: 0 },
        updated_at: Timestamp { micros: 0 },
    };
    assert_eq!(current_user("a@b.c", Ok(u)).unwrap().email, "a@b.c");
    match current_user("a@b.c", Err(DbError::Other("down".into()))) {
        Err(GqlApiError::Internal { message, underlying_error }) => {
            assert_eq!(message, "Failed to fetch user with email 'a@b.c'");
            assert_eq!(underlying_error, "down");
        }
        _ => panic!("a failed lookup is internal"),
    }
    match current_user("a@b.c", Err(DbError::NotFound)) {
        Err(GqlApiError::Internal { underlying_error, .. }) => assert_eq!(underlying_error, "Record not found"),
        _ => panic!("a missing user is internal"),
    }
    let e = current_user("a@b.c", Err(DbError::NotFound)).unwrap_err();
    assert_eq!(
        e.client_message(),
        "Encountered an internal error while processing this request. See server logs for more details."
    );
}

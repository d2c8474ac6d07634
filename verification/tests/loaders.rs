use mensatt::loaders::{
    group_dish_aliases, group_reviews_by_dish, group_reviews_by_occurrence, group_side_dishes,
    group_tags, images_by_image_id, images_by_review_id, images_by_second, index_dishes,
    index_locations, index_occurrences, matches_filter, plan_image_keys, plan_review_keys,
    reviews_by_dish_id, reviews_by_occurrence_id, reviews_by_review_id, ImageLoaderKey,
    ReviewLoaderKey,
};
use mensatt::models::{DbDish, DbDishAlias, DbImage, DbLocation, DbOccurrence, DbReview, DbTag, TagPriority};
use mensatt::queries::ReviewFilter;
use mensatt::time::Timestamp;

fn review(id: u128, occurrence: u128, accepted: bool) -> DbReview {
    DbReview {
        id,
        display_name: Some(format!("r{id}")),
        stars: 4,
        text: None,
        created_at: Timestamp { micros: 10 },
        updated_at: Timestamp { micros: 20 },
        accepted_at: if accepted { Some(Timestamp { micros: 30 }) } else { None },
        occurrence,
    }
}

fn ids(v: &[DbReview]) -> Vec<u128> {
    v.iter().map(|r| r.id).collect()
}

const APPROVED: Option<ReviewFilter> = Some(ReviewFilter { approved: Some(true) });
const UNAPPROVED: Option<ReviewFilter> = Some(ReviewFilter { approved: Some(false) });
const NO_PREFERENCE: Option<ReviewFilter> = Some(ReviewFilter { approved: None });

#[test]
fn review_filters() {
    let acc = review(1, 1, true);
    let open = review(2, 1, false);
    assert!(matches_filter(&acc, APPROVED));
    assert!(!matches_filter(&open, APPROVED));
    assert!(matches_filter(&open, UNAPPROVED));
    assert!(!matches_filter(&acc, UNAPPROVED));
    assert!(matches_filter(&acc, NO_PREFERENCE) && matches_filter(&open, NO_PREFERENCE));
    assert!(matches_filter(&acc, None) && matches_filter(&open, None));
}

#[test]
fn review_keys_are_split_by_variant_in_order() {
    let keys = vec![
        ReviewLoaderKey::ByDishId { dish_id: 9, filter: None },
        ReviewLoaderKey::ByReviewId { id: 1 },
        ReviewLoaderKey::ByOccurrenceId { occurrence_id: 5, filter: APPROVED },
        ReviewLoaderKey::ByReviewId { id: 2 },
    ];
    let p = plan_review_keys(&keys);
    assert_eq!(p.by_review_id, vec![(1, keys[1]), (2, keys[3])]);
    assert_eq!(p.by_occurrence_id, vec![(5, APPROVED, keys[2])]);
    assert_eq!(p.by_dish_id, vec![(9, None, keys[0])]);
}

#[test]
fn reviews_for_review_ids() {
    let key_a = ReviewLoaderKey::ByReviewId { id: 1 };
    let key_b = ReviewLoaderKey::ByReviewId { id: 3 };
    let rows = vec![review(1, 7, false), review(2, 7, true)];
    let out = reviews_by_review_id(&[(1, key_a), (3, key_b)], rows);
    assert_eq!(out.len(), 2);
    assert_eq!(out[0].0, key_a);
    assert_eq!(ids(&out[0].1), vec![1]);
    assert_eq!(out[0].1[0].display_name.as_deref(), Some("r1"));
    assert_eq!(out[1].0, key_b);
    assert!(out[1].1.is_empty());
}

#[test]
fn reviews_for_occurrences_respect_filters() {
    let rows = vec![review(1, 7, true), review(2, 8, true), review(3, 7, false), review(4, 7, true)];
    let k_all = ReviewLoaderKey::ByOccurrenceId { occurrence_id: 7, filter: None };
    let k_acc = ReviewLoaderKey::ByOccurrenceId { occurrence_id: 7, filter: APPROVED };
    let k_open = ReviewLoaderKey::ByOccurrenceId { occurrence_id: 7, filter: UNAPPROVED };
    let k_none = ReviewLoaderKey::ByOccurrenceId { occurrence_id: 6, filter: None };
    let keys = vec![(7, None, k_all), (7, APPROVED, k_acc), (7, UNAPPROVED, k_open), (6, None, k_none)];
    let out = reviews_by_occurrence_id(&keys, rows);
    assert_eq!(ids(&out[0].1), vec![1, 3, 4]);
    assert_eq!(ids(&out[1].1), vec![1, 4]);
    assert_eq!(ids(&out[2].1), vec![3]);
    assert!(out[3].1.is_empty());
    assert_eq!(out[1].0, k_acc);
}

#[test]
fn reviews_for_dishes() {
    let rows = vec![(review(1, 7, true), 100), (review(2, 8, false), 100), (review(3, 9, true), 200)];
    let k = ReviewLoaderKey::ByDishId { dish_id: 100, filter: UNAPPROVED };
    let k2 = ReviewLoaderKey::ByDishId { dish_id: 200, filter: None };
    let out = reviews_by_dish_id(&[(100, UNAPPROVED, k), (200, None, k2)], rows);
    assert_eq!(ids(&out[0].1), vec![2]);
    assert_eq!(ids(&out[1].1), vec![3]);
}

#[test]
fn image_keys_and_answers() {
    let keys = vec![
        ImageLoaderKey::ByReviewId { review_id: 1 },
        ImageLoaderKey::ByImageId { id: 10 },
        ImageLoaderKey::ByDishId { dish_id: 3 },
        ImageLoaderKey::ByOccurrenceId { occurrence_id: 2 },
    ];
    let p = plan_image_keys(&keys);
    assert_eq!(p.by_review_id, vec![(1, keys[0])]);
    assert_eq!(p.by_image_id, vec![(10, keys[1])]);
    assert_eq!(p.by_dish_id, vec![(3, keys[2])]);
    assert_eq!(p.by_occurrence_id, vec![(2, keys[3])]);

    let rows = vec![DbImage { id: 10, review: 1 }, DbImage { id: 11, review: 1 }, DbImage { id: 12, review: 5 }];
    let by_id = images_by_image_id(&p.by_image_id, rows.clone());
    assert_eq!(by_id[0].1, vec![DbImage { id: 10, review: 1 }]);
    let by_review = images_by_review_id(&p.by_review_id, rows.clone());
    assert_eq!(by_review[0].1, vec![DbImage { id: 10, review: 1 }, DbImage { id: 11, review: 1 }]);
    let by_occ = images_by_second(&p.by_occurrence_id, vec![(rows[2], 2), (rows[0], 4)]);
    assert_eq!(by_occ[0].1, vec![DbImage { id: 12, review: 5 }]);
    let none = images_by_second(&[(99, keys[2])], vec![]);
    assert!(none[0].1.is_empty());
}

#[test]
fn grouping_loaders() {
    let aliases = vec![
        DbDishAlias { alias_name: "a".into(), normalized_alias_name: "a".into(), dish: 1 },
        DbDishAlias { alias_name: "b".into(), normalized_alias_name: "b".into(), dish: 2 },
        DbDishAlias { alias_name: "c".into(), normalized_alias_name: "c".into(), dish: 1 },
    ];
    let m = group_dish_aliases(aliases);
    assert_eq!(m.len(), 2);
    let names: Vec<_> = m[&1].iter().map(|a| a.alias_name.clone()).collect();
    assert_eq!(names, vec!["a", "c"]);

    let m = group_reviews_by_occurrence(vec![review(1, 7, true), review(2, 8, true), review(3, 7, true)]);
    assert_eq!(ids(&m[&7]), vec![1, 3]);
    assert!(!m.contains_key(&9));

    let m = group_reviews_by_dish(vec![(review(1, 7, true), 5), (review(2, 8, true), 5)]);
    assert_eq!(ids(&m[&5]), vec![1, 2]);

    let dish = |id: u128, name: &str| DbDish { id, name_de: name.into(), name_en: None };
    let m = group_side_dishes(vec![(1, dish(10, "x")), (1, dish(11, "y"))]);
    assert_eq!(m[&1].len(), 2);

    let tag = DbTag {
        key: "V".into(),
        name: "vegan".into(),
        description: "".into(),
        short_name: None,
        priority: TagPriority::HIGH,
        is_allergy: false,
    };
    let m = group_tags(vec![(3, tag)]);
    assert_eq!(m[&3][0].key, "V");
}

#[test]
fn indexing_loaders_keep_the_last_row() {
    let m = index_dishes(vec![
        DbDish { id: 1, name_de: "alt".into(), name_en: None },
        DbDish { id: 2, name_de: "b".into(), name_en: None },
        DbDish { id: 1, name_de: "neu".into(), name_en: Some("new".into()) },
    ]);
    assert_eq!(m.len(), 2);
    assert_eq!(m[&1].name_de, "neu");
    let m = index_locations(vec![DbLocation { id: 4, external_id: 1, name: "Mensa".into(), visible: true }]);
    assert_eq!(m[&4].name, "Mensa");
    let occ = DbOccurrence {
        id: 5,
        date: Timestamp { micros: 0 },
        kj: None,
        kcal: None,
        fat: None,
        saturated_fat: None,
        carbohydrates: None,
        sugar: None,
        fiber: None,
        protein: None,
        salt: None,
        price_student: Some(250),
        price_staff: None,
        price_guest: None,
        dish: 1,
        location: 4,
        not_available_after: None,
        status: "AWAITING_APPROVAL".into(),
    };
    let m = index_occurrences(vec![occ]);
    assert_eq!(m[&5].price_student, Some(250));
}

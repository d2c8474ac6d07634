use mensatt::error::{DbError, GqlApiError};
use mensatt::models::{DbDish, DbReview, DbUser};
use mensatt::mutations::dish::{
    check_merge_size, check_merge_targets, choose_merge_target, create_dish_row, merge_target,
    missing_ids, new_dish, obsolete_dishes, relinked_side_dishes, CreateDishInput, MergeDishesInput,
    MergeTarget,
};
use mensatt::mutations::dish_alias::{CreateDishAliasInput, DeleteDishAliasInput};
use mensatt::mutations::occurrence::{
    create_occurrence_rows, new_occurrence, AddSideDishToOccurrenceInput, AddTagToOccurrenceInput,
    CreateOccurrenceInput, RemoveSideDishFromOccurrenceInput, RemoveTagFromOccurrenceInput,
    UpdateOccurrenceInput,
};
use mensatt::models::DbOccurrenceChangeset;
use mensatt::mutations::review::{
    announces_acceptance, approval_transition, images_to_delete, create_review_row, deleted_one, image_ids,
    image_rows, loaded_review, new_review, plan_review_update, rollback_accepted_at,
    rotations_to_apply, updated_review, ApprovalTransition, CreateReviewInput, ImageInput,
    ReviewUpdateAction, ReviewUpdateEvent, ReviewUpdateFlow, UpdateReviewInput,
};
use mensatt::image_service::ImageServiceApiError;
use mensatt::models::DbReviewChangeset;
use mensatt::mutations::tag::{tag_id_not_found, tag_not_found};
use mensatt::mutations::user::{authenticate, new_user, register_user, CreateUserInput, LoginUserInput};
use mensatt::time::{GqlDate, Timestamp};

fn t(micros: i64) -> Timestamp {
    Timestamp { micros }
}

fn update(approved: Option<bool>) -> UpdateReviewInput {
    UpdateReviewInput { id: 1, occurrence: None, display_name: None, stars: None, text: None, approved }
}

fn review_accepted(accepted_at: Option<Timestamp>) -> DbReview {
    DbReview {
        id: 1,
        display_name: None,
        stars: 5,
        text: Some("gut".into()),
        created_at: t(1),
        updated_at: t(2),
        accepted_at,
        occurrence: 9,
    }
}

#[test]
fn review_changesets() {
    let c = DbReviewChangeset::from_update(update(None), t(50));
    assert!(c.updated_at.is_none() && c.accepted_at.is_none() && c.created_at.is_none());
    let c = DbReviewChangeset::from_update(update(Some(true)), t(50));
    assert_eq!(c.updated_at, Some(t(50)));
    assert_eq!(c.accepted_at, Some(Some(t(50))));
    let c = DbReviewChangeset::from_update(update(Some(false)), t(50));
    assert_eq!(c.accepted_at, Some(None));
    let mut u = update(None);
    u.stars = Some(3);
    u.text = Some("x".into());
    let c = DbReviewChangeset::from_update(u, t(60));
    assert_eq!(c.stars, Some(3));
    assert_eq!(c.text.as_deref(), Some("x"));
    assert_eq!(c.updated_at, Some(t(60)));
    assert!(c.accepted_at.is_none());
    let c = DbReviewChangeset::from(update(Some(true)));
    assert_eq!(c.accepted_at, Some(c.updated_at));
}

#[test]
fn review_update_plans() {
    let approved = review_accepted(Some(t(5)));
    let open = review_accepted(None);
    let p = plan_review_update(update(Some(true)), &approved, t(50));
    assert!(p.changeset.accepted_at.is_none());
    assert_eq!(p.changeset.updated_at, Some(t(50)));
    assert_eq!(p.transition, ApprovalTransition::Unchanged);
    let p = plan_review_update(update(Some(true)), &open, t(50));
    assert_eq!(p.changeset.accepted_at, Some(Some(t(50))));
    assert_eq!(p.transition, ApprovalTransition::FirstApproval);
    let p = plan_review_update(update(Some(false)), &approved, t(50));
    assert_eq!(p.changeset.accepted_at, Some(None));
    assert_eq!(p.transition, ApprovalTransition::Unapproval);
    let p = plan_review_update(update(Some(false)), &open, t(50));
    assert_eq!(p.transition, ApprovalTransition::Unchanged);
    assert_eq!(approval_transition(None, Some(t(1))), ApprovalTransition::Unchanged);
    assert_eq!(rollback_accepted_at(ApprovalTransition::FirstApproval, None), Some(None));
    assert_eq!(rollback_accepted_at(ApprovalTransition::Unapproval, Some(t(5))), Some(Some(t(5))));
    assert_eq!(rollback_accepted_at(ApprovalTransition::Unchanged, Some(t(5))), None);
    assert!(announces_acceptance(ApprovalTransition::FirstApproval));
    assert!(!announces_acceptance(ApprovalTransition::Unapproval));
    assert!(!announces_acceptance(ApprovalTransition::Unchanged));
    assert_eq!(updated_review(None, &approved).accepted_at, Some(t(5)));
    assert_eq!(updated_review(Some(review_accepted(None)), &approved).accepted_at, None);
}

#[test]
fn new_reviews_and_images() {
    let input = CreateReviewInput {
        occurrence: 9,
        display_name: Some("Anna".into()),
        stars: 4,
        text: None,
        images: Some(vec![ImageInput { id: 1, rotation: Some(90) }, ImageInput { id: 2, rotation: None }]),
    };
    let (r, images) = new_review(input, 77, t(1000));
    assert_eq!((r.id, r.occurrence, r.stars), (77, 9, 4));
    assert_eq!(r.display_name.as_deref(), Some("Anna"));
    assert_eq!((r.created_at, r.updated_at, r.accepted_at), (t(1000), t(1000), None));
    let images = images.unwrap();
    assert_eq!(image_ids(&images), vec![1, 2]);
    let more = vec![
        ImageInput { id: 1, rotation: Some(90) },
        ImageInput { id: 2, rotation: None },
        ImageInput { id: 3, rotation: Some(180) },
    ];
    assert_eq!(rotations_to_apply(&more, &vec![1, 2]), vec![(1, 90)]);
    assert_eq!(rotations_to_apply(&more, &vec![3, 1]), vec![(1, 90), (3, 180)]);
    let rows = image_rows(&vec![3, 1], 77);
    assert_eq!(rows.len(), 2);
    assert_eq!((rows[0].id, rows[0].review, rows[1].id), (3, 77, 1));
    let input = CreateReviewInput { occurrence: 2, display_name: None, stars: 1, text: None, images: None };
    let (r, images) = create_review_row(input);
    assert!(images.is_none());
    assert_eq!(r.created_at, r.updated_at);
    assert!(r.accepted_at.is_none());
}

#[test]
fn loaded_reviews_and_deletions() {
    assert!(deleted_one(1));
    assert!(!deleted_one(0));
    assert!(!deleted_one(2));
    assert_eq!(loaded_review(Some(vec![review_accepted(None)]), 1).unwrap().id, 1);
    for loaded in [None, Some(vec![])] {
        match loaded_review(loaded, 1) {
            Err(GqlApiError::NotFound(m)) => {
                assert_eq!(m, "Review with ID '00000000-0000-0000-0000-000000000001' not found")
            }
            other => panic!("unexpected {:?}", other),
        }
    }
}

#[test]
fn occurrence_changeset_copies_the_student_price_to_staff() {
    let u = UpdateOccurrenceInput {
        id: 1,
        date: Some(GqlDate { days: 2 }),
        kj: Some(1),
        kcal: None,
        fat: None,
        saturated_fat: None,
        carbohydrates: None,
        sugar: None,
        fiber: None,
        protein: None,
        salt: None,
        price_student: Some(250),
        price_staff: Some(400),
        price_guest: Some(500),
        dish: Some(3),
    };
    let c = DbOccurrenceChangeset::from(u);
    assert_eq!(c.date, Some(t(2 * 86_400_000_000)));
    assert_eq!(c.price_student, Some(250));
    assert_eq!(c.price_staff, Some(250));
    assert_eq!(c.price_guest, Some(500));
    assert_eq!(c.dish, Some(3));
    assert!(c.location.is_none() && c.status.is_none() && c.not_available_after.is_none());
}

fn create_input(date: Option<GqlDate>) -> CreateOccurrenceInput {
    CreateOccurrenceInput {
        date,
        kj: Some(1000),
        kcal: Some(240),
        fat: None,
        saturated_fat: None,
        carbohydrates: None,
        sugar: None,
        fiber: None,
        protein: None,
        salt: None,
        price_student: Some(250),
        price_staff: Some(400),
        price_guest: Some(500),
        dish: 3,
        location: 4,
        side_dishes: Some(vec![10, 11]),
        tags: Some(vec!["V".into(), "GL".into()]),
    }
}

#[test]
fn new_occurrences() {
    let n = new_occurrence(create_input(Some(GqlDate { days: 1 })), 42, t(7));
    assert_eq!(n.occurrence.id, 42);
    assert_eq!(n.occurrence.date, t(86_400_000_000));
    assert_eq!(n.occurrence.status, "AWAITING_APPROVAL");
    assert_eq!(n.occurrence.price_staff, Some(400));
    assert!(n.occurrence.not_available_after.is_none());
    assert_eq!(n.side_dishes.len(), 2);
    assert_eq!((n.side_dishes[1].occurrence, n.side_dishes[1].dish), (42, 11));
    assert_eq!(n.tags.len(), 2);
    assert_eq!((n.tags[1].occurrence, n.tags[1].tag.as_str()), (42, "GL"));
    let n = new_occurrence(create_input(None), 43, t(7));
    assert_eq!(n.occurrence.date, t(7));
    let n = create_occurrence_rows(create_input(None));
    assert!(n.tags.iter().all(|r| r.occurrence == n.occurrence.id));
}

#[test]
fn occurrence_links() {
    let a = AddSideDishToOccurrenceInput { occurrence: 1, dish: 2 };
    assert_eq!((a.row().occurrence, a.row().dish), (1, 2));
    assert_eq!((a.link().occurrence_id, a.link().dish_id), (1, 2));
    let r = RemoveSideDishFromOccurrenceInput { occurrence: 1, dish: 2 };
    assert_eq!(r.link().dish_id, 2);
    let at = AddTagToOccurrenceInput { occurrence: 1, tag: "V".into() };
    assert_eq!(at.row().tag, "V");
    let l = at.link();
    assert_eq!((l.occurrence_id, l.tag_id.as_str()), (1, "V"));
    let rt = RemoveTagFromOccurrenceInput { occurrence: 5, tag: "GL".into() };
    assert_eq!(rt.link().tag_id, "GL");
}

fn merge(ids: Vec<u128>) -> MergeDishesInput {
    MergeDishesInput { name_de: "Pommes".into(), name_en: None, merge_ids: ids }
}

#[test]
fn merging_dishes() {
    match check_merge_size(&merge(vec![1])) {
        Err(e) => assert_eq!(e.client_message(), "Invalid input provided: Merging needs at least two dish ids"),
        Ok(()) => panic!("one dish cannot be merged"),
    }
    assert!(check_merge_size(&merge(vec![1, 2])).is_ok());
    assert_eq!(missing_ids(&vec![1, 2, 3], &vec![2]), vec![1, 3]);
    match check_merge_targets(&merge(vec![1, 2]), &vec![2]) {
        Err(GqlApiError::NotFound(m)) => assert_eq!(
            m,
            "The following dish IDs were not found: [00000000-0000-0000-0000-000000000001]"
        ),
        other => panic!("unexpected {:?}", other),
    }
    assert!(check_merge_targets(&merge(vec![1, 2]), &vec![2, 1]).is_ok());
    match merge_target("Pommes".into(), Some("Fries".into()), Some(DbDish { id: 2, name_de: "Pommes".into(), name_en: None }), 9) {
        MergeTarget::Update { id, changeset } => {
            assert_eq!(id, 2);
            assert!(changeset.name_de.is_none());
            assert_eq!(changeset.name_en, Some(Some("Fries".into())));
        }
        other => panic!("unexpected {:?}", other),
    }
    let target = merge_target("Pommes".into(), None, None, 9);
    assert_eq!(target.id(), 9);
    let same = DbDish { id: 2, name_de: "Pommes".into(), name_en: Some("Chips".into()) };
    match choose_merge_target(MergeDishesInput { name_de: "Pommes".into(), name_en: Some("Fries".into()), merge_ids: vec![1, 2] }, Some(same)) {
        (MergeTarget::Update { id, changeset }, _) => {
            assert_eq!(id, 2);
            assert!(changeset.name_de.is_none());
            assert_eq!(changeset.name_en, Some(Some("Fries".into())));
        }
        other => panic!("unexpected {:?}", other),
    }
    let (t2, ids) = choose_merge_target(merge(vec![1, 2]), None);
    assert_eq!(ids, vec![1, 2]);
    match t2 {
        MergeTarget::Insert(d) => assert_eq!(d.name_de, "Pommes"),
        other => panic!("unexpected {:?}", other),
    }
    assert_eq!(relinked_side_dishes(&vec![(5, 1), (6, 2)], 9), vec![(5, 9), (6, 9)]);
    assert_eq!(obsolete_dishes(&vec![1, 2, 9], 2), vec![1, 9]);
    let d = new_dish(CreateDishInput { name_de: "Suppe".into(), name_en: Some("Soup".into()) }, 4);
    assert_eq!((d.id, d.name_de.as_str()), (4, "Suppe"));
    let d2 = create_dish_row(CreateDishInput { name_de: "Suppe".into(), name_en: None });
    assert_eq!(d2.name_de, "Suppe");
}

#[test]
fn aliases_and_tags() {
    let row = CreateDishAliasInput { alias_name: "Fritten".into(), normalized_alias_name: "fritten".into(), dish: 3 }.row();
    assert_eq!((row.alias_name.as_str(), row.dish), ("Fritten", 3));
    let e = DeleteDishAliasInput { alias_name: "Fritten".into() }.not_found();
    assert_eq!(e.client_message(), "Dish alias with name 'Fritten' not found");
    assert_eq!(tag_not_found("V").client_message(), "Tag 'V' not found");
    assert_eq!(tag_id_not_found("V").client_message(), "Tag with ID 'V' not found");
}

#[test]
fn users_register_and_log_in() {
    let user = register_user(CreateUserInput { email: "a@b.c".into(), password: "hunter2".into() }).unwrap();
    assert_eq!(user.email, "a@b.c");
    assert!(user.password_hash.starts_with("$argon2id$v=19$m=19456,t=2,p=1$"));
    assert_eq!(user.created_at, user.updated_at);
    let login = |pw: &str| LoginUserInput { email: "a@b.c".into(), password: pw.into() };
    let copy = |u: &DbUser| DbUser {
        id: u.id,
        email: u.email.clone(),
        password_hash: u.password_hash.clone(),
        created_at: u.created_at,
        updated_at: u.updated_at,
    };
    assert_eq!(authenticate(&login("hunter2"), Ok(copy(&user))).unwrap().id, user.id);
    assert!(matches!(authenticate(&login("wrong"), Ok(copy(&user))), Err(GqlApiError::InvalidCredentials)));
    assert!(matches!(authenticate(&login("hunter2"), Err(DbError::NotFound)), Err(GqlApiError::InvalidCredentials)));
    assert!(matches!(
        authenticate(&login("hunter2"), Err(DbError::Other("down".into()))),
        Err(GqlApiError::Internal { .. })
    ));
    // A hash whose parameters Argon2 refuses is an internal error, not a wrong password.
    let bad_params = new_user(
        CreateUserInput { email: "a@b.c".into(), password: "x".into() },
        1,
        t(0),
        user.password_hash.replacen("t=2", "t=0", 1),
    );
    match authenticate(&login("hunter2"), Ok(bad_params)) {
        Err(GqlApiError::Internal { message, .. }) => assert_eq!(message, "Unable to verify password for user 'a@b.c'"),
        other => panic!("unexpected {:?}", other),
    }
    match authenticate(&login("hunter2"), Err(DbError::Other("down".into()))) {
        Err(GqlApiError::Internal { message, underlying_error }) => {
            assert_eq!(message, "Error while fetching user 'a@b.c'");
            assert_eq!(underlying_error, "down");
        }
        other => panic!("unexpected {:?}", other),
    }
    let broken = new_user(CreateUserInput { email: "a@b.c".into(), password: "x".into() }, 1, t(0), "not a hash".into());
    match authenticate(&login("x"), Ok(broken)) {
        Err(GqlApiError::Internal { message, .. }) => {
            assert_eq!(message, "Unable to read password hash 'not a hash' of user 'a@b.c'")
        }
        other => panic!("unexpected {:?}", other),
    }
}

#[test]
fn review_update_steps() {
    let first = ReviewUpdateFlow { id: 7, transition: ApprovalTransition::FirstApproval, old_accepted_at: None };
    let unapproval = ReviewUpdateFlow { id: 7, transition: ApprovalTransition::Unapproval, old_accepted_at: Some(t(5)) };
    let unchanged = ReviewUpdateFlow { id: 7, transition: ApprovalTransition::Unchanged, old_accepted_at: None };
    assert!(matches!(unchanged.start(), ReviewUpdateAction::Finish { announce: false }));
    assert!(matches!(first.start(), ReviewUpdateAction::LoadImages));
    assert!(matches!(first.step(ReviewUpdateEvent::ImagesLoaded(vec![])), ReviewUpdateAction::Finish { announce: true }));
    match first.step(ReviewUpdateEvent::ImagesLoaded(vec![3, 4])) {
        ReviewUpdateAction::ApproveImages(ids) => assert_eq!(ids, vec![3, 4]),
        other => panic!("unexpected {:?}", other),
    }
    match unapproval.step(ReviewUpdateEvent::ImagesLoaded(vec![3])) {
        ReviewUpdateAction::UnapproveImages(ids) => assert_eq!(ids, vec![3]),
        other => panic!("unexpected {:?}", other),
    }
    assert!(matches!(first.step(ReviewUpdateEvent::ImageServiceAnswered(Ok(()))), ReviewUpdateAction::Finish { announce: true }));
    assert!(matches!(unapproval.step(ReviewUpdateEvent::ImageServiceAnswered(Ok(()))), ReviewUpdateAction::Finish { announce: false }));
    match first.step(ReviewUpdateEvent::ImageServiceAnswered(Err(ImageServiceApiError::Http("down".into())))) {
        ReviewUpdateAction::RollBack { accepted_at: None, error: GqlApiError::Internal { message, underlying_error } } => {
            assert_eq!(message, "Failed to approve images for review with ID '00000000-0000-0000-0000-000000000007'");
            assert_eq!(underlying_error, "HTTP error: down");
        }
        other => panic!("unexpected {:?}", other),
    }
    match unapproval.step(ReviewUpdateEvent::ImageServiceAnswered(Err(ImageServiceApiError::Http("down".into())))) {
        ReviewUpdateAction::RollBack { accepted_at, error: GqlApiError::Internal { message, .. } } => {
            assert_eq!(accepted_at, Some(t(5)));
            assert_eq!(message, "Failed to unapprove images for review with ID '00000000-0000-0000-0000-000000000007'");
        }
        other => panic!("unexpected {:?}", other),
    }
}

#[test]
fn review_images_to_delete() {
    assert_eq!(images_to_delete(vec![]), None);
    assert_eq!(images_to_delete(vec![3, 1]), Some(vec![3, 1]));
}

#[test]
fn merge_without_survivor_among_merged_keeps_relinked_ids() {
    // The survivor 9 is new: every old link is relinked to it and no merged dish survives.
    assert_eq!(relinked_side_dishes(&vec![(5, 1), (6, 2)], 9), vec![(5, 9), (6, 9)]);
    assert_eq!(obsolete_dishes(&vec![1, 2], 9), vec![1, 2]);
}

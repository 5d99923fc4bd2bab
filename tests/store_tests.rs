use comment_service::auth::MyJWTClaims;
use comment_service::error::ApiError;
use comment_service::handler::{
    create_comment, create_or_update_rating, delete_comment, delete_decision, get_rating_for_user,
    get_rating_for_video, read_outcome, report_comment, show_all_comments_for_video, show_all_reported_comments,
    write_outcome,
};
use comment_service::models::{Comment, NewComment, NewRating};
use comment_service::rating::{average_rating, RatingAverage};
use comment_service::repository::{MemoryStore, StoreError};

fn claims(email: &str, role: &str) -> MyJWTClaims {
    MyJWTClaims { email: email.to_string(), role: role.to_string(), exp: 0 }
}

fn new_comment(video_id: i32, owner: &str, body: &str) -> NewComment {
    NewComment { video_id, owner_email: owner.to_string(), body: body.to_string() }
}

fn new_rating(owner: &str, video_id: i32, rating: i32) -> NewRating {
    NewRating { rating_owner_email: owner.to_string(), rating_video_id: video_id, rating }
}

fn mean(avg: RatingAverage) -> f32 {
    if avg.count == 0 {
        0.0
    } else {
        avg.total as f32 / avg.count as f32
    }
}

#[test]
fn created_comment_is_listed_unreported() {
    let mut store = MemoryStore::new();
    let caller = claims("u@e.com", "RegisteredUser");
    assert_eq!(create_comment(new_comment(7, "u@e.com", "nice"), &mut store, &caller), Ok(()));
    let listed = show_all_comments_for_video(7, &store, &caller).unwrap();
    assert_eq!(listed.len(), 1);
    assert_eq!(listed[0].video_id, 7);
    assert_eq!(listed[0].owner_email, "u@e.com");
    assert_eq!(listed[0].body, "nice");
    assert!(!listed[0].reported);
    assert!(show_all_comments_for_video(8, &store, &caller).unwrap().is_empty());
}

#[test]
fn creating_for_someone_else_is_unauthorized() {
    let mut store = MemoryStore::new();
    let caller = claims("u@e.com", "Administrator");
    assert_eq!(create_comment(new_comment(7, "v@e.com", "x"), &mut store, &caller), Err(ApiError::Unauthorized));
    assert!(show_all_comments_for_video(7, &store, &caller).unwrap().is_empty());
}

#[test]
fn repository_assigns_increasing_ids() {
    let mut store = MemoryStore::new();
    let first = store.create_comment(new_comment(1, "a@x.com", "one")).unwrap();
    let second = store.create_comment(new_comment(1, "b@x.com", "two")).unwrap();
    assert_eq!(first.id, 1);
    assert_eq!(second.id, 2);
    assert_eq!(store.get_comment(2), Ok(second));
    assert_eq!(store.get_comment(3), Err(StoreError::NotFound));
}

#[test]
fn reporting_twice_keeps_the_flag() {
    let mut store = MemoryStore::new();
    let caller = claims("u@e.com", "RegisteredUser");
    let c = store.create_comment(new_comment(3, "u@e.com", "spam")).unwrap();
    assert_eq!(report_comment(c.id, &mut store, &caller), Ok(()));
    assert!(store.get_comment(c.id).unwrap().reported);
    assert_eq!(report_comment(c.id, &mut store, &caller), Ok(()));
    assert!(store.get_comment(c.id).unwrap().reported);
    assert_eq!(report_comment(99, &mut store, &caller), Err(ApiError::NotFound));
}

#[test]
fn reported_comments_for_administrators_only() {
    let mut store = MemoryStore::new();
    let c = store.create_comment(new_comment(3, "u@e.com", "spam")).unwrap();
    store.create_comment(new_comment(3, "u@e.com", "fine")).unwrap();
    store.report_comment(c.id).unwrap();
    let admin = claims("root@e.com", "Administrator");
    let user = claims("u@e.com", "RegisteredUser");
    let reported: Vec<Comment> = show_all_reported_comments(&store, &admin).unwrap();
    assert_eq!(reported.len(), 1);
    assert_eq!(reported[0].body, "spam");
    assert_eq!(show_all_reported_comments(&store, &user), Err(ApiError::Unauthorized));
}

#[test]
fn registered_user_may_delete_only_own_comment() {
    let mut store = MemoryStore::new();
    let theirs = store.create_comment(new_comment(1, "b@x.com", "b")).unwrap();
    let mine = store.create_comment(new_comment(1, "a@x.com", "a")).unwrap();
    let caller = claims("a@x.com", "RegisteredUser");
    assert_eq!(delete_comment(theirs.id, &mut store, &caller), Err(ApiError::Unauthorized));
    assert!(store.get_comment(theirs.id).is_ok());
    assert_eq!(delete_comment(mine.id, &mut store, &caller), Ok(()));
    assert_eq!(store.get_comment(mine.id), Err(StoreError::NotFound));
}

#[test]
fn other_roles_may_delete_any_comment() {
    let mut store = MemoryStore::new();
    let theirs = store.create_comment(new_comment(1, "b@x.com", "b")).unwrap();
    let admin = claims("a@x.com", "Administrator");
    assert_eq!(delete_comment(theirs.id, &mut store, &admin), Ok(()));
    assert_eq!(delete_comment(theirs.id, &mut store, &admin), Err(ApiError::NotFound));
}

#[test]
fn repository_delete_counts_rows() {
    let mut store = MemoryStore::new();
    let c = store.create_comment(new_comment(1, "b@x.com", "b")).unwrap();
    assert_eq!(store.delete_comment(c.id), 1);
    assert_eq!(store.delete_comment(c.id), 0);
}

#[test]
fn delete_decision_cases() {
    let caller = claims("a@x.com", "RegisteredUser");
    let theirs = Comment { id: 1, video_id: 1, owner_email: "b@x.com".to_string(), body: String::new(), reported: false };
    assert_eq!(delete_decision(&caller, &None), Err(ApiError::NotFound));
    assert_eq!(delete_decision(&caller, &Some(theirs.clone())), Err(ApiError::Unauthorized));
    let mine = Comment { owner_email: "a@x.com".to_string(), ..theirs };
    assert_eq!(delete_decision(&caller, &Some(mine)), Ok(()));
}

#[test]
fn average_of_no_ratings_is_zero() {
    let store = MemoryStore::new();
    let caller = claims("u@e.com", "RegisteredUser");
    let avg = get_rating_for_video(1, &store, &caller).unwrap();
    assert_eq!(avg, RatingAverage { total: 0, count: 0 });
    assert_eq!(mean(avg), 0.0);
}

#[test]
fn average_of_three_and_five_is_four() {
    let avg = average_rating(&vec![3, 5]);
    assert_eq!(avg, RatingAverage { total: 8, count: 2 });
    assert_eq!(mean(avg), 4.0);
    let big = average_rating(&vec![i32::MAX, i32::MAX, i32::MIN]);
    assert_eq!(big.total, 2147483646);
    assert_eq!(big.count, 3);
}

#[test]
fn second_rating_replaces_first() {
    let mut store = MemoryStore::new();
    let caller = claims("u@e.com", "RegisteredUser");
    assert_eq!(create_or_update_rating(new_rating("u@e.com", 1, 2), &mut store, &caller), Ok(()));
    assert_eq!(create_or_update_rating(new_rating("u@e.com", 1, 4), &mut store, &caller), Ok(()));
    let avg = get_rating_for_video(1, &store, &caller).unwrap();
    assert_eq!(avg, RatingAverage { total: 4, count: 1 });
    assert_eq!(get_rating_for_user("u@e.com".to_string(), 1, &store, &caller), Ok(4));
}

#[test]
fn posting_ratings_updates_the_total() {
    let mut store = MemoryStore::new();
    let caller = claims("u@e.com", "RegisteredUser");
    assert_eq!(create_or_update_rating(new_rating("u@e.com", 1, 5), &mut store, &caller), Ok(()));
    assert_eq!(mean(get_rating_for_video(1, &store, &caller).unwrap()), 5.0);
    assert_eq!(create_or_update_rating(new_rating("u@e.com", 1, 1), &mut store, &caller), Ok(()));
    assert_eq!(mean(get_rating_for_video(1, &store, &caller).unwrap()), 1.0);
}

#[test]
fn ratings_of_several_users_average() {
    let mut store = MemoryStore::new();
    store.create_or_update_rating(new_rating("a@x.com", 2, 3)).unwrap();
    store.create_or_update_rating(new_rating("b@x.com", 2, 4)).unwrap();
    store.create_or_update_rating(new_rating("a@x.com", 9, 1)).unwrap();
    let row = store.create_or_update_rating(new_rating("a@x.com", 2, 5)).unwrap();
    assert_eq!(row.rating_id, 1);
    assert_eq!(row.rating, 5);
    assert_eq!(store.get_rating_for_video(2), RatingAverage { total: 9, count: 2 });
}

#[test]
fn rating_for_someone_else_is_unauthorized() {
    let mut store = MemoryStore::new();
    let caller = claims("u@e.com", "Administrator");
    assert_eq!(create_or_update_rating(new_rating("v@e.com", 1, 5), &mut store, &caller), Err(ApiError::Unauthorized));
    assert_eq!(get_rating_for_user("v@e.com".to_string(), 1, &store, &caller), Err(ApiError::Unauthorized));
    assert_eq!(get_rating_for_user("u@e.com".to_string(), 1, &store, &caller), Err(ApiError::NotFound));
}

#[test]
fn outcome_mapping() {
    assert_eq!(read_outcome(Some(3)), Ok(3));
    assert_eq!(read_outcome::<i32>(None), Err(ApiError::NotFound));
    assert_eq!(write_outcome(true), Ok(()));
    assert_eq!(write_outcome(false), Err(ApiError::BadRequest));
}

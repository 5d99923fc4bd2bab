use vstd::prelude::*;
use crate::auth::MyJWTClaims;
use crate::error::ApiError;
use crate::models::{Comment, NewComment, NewRating};
use crate::policy::{
    may_create_comment, may_create_comment_spec, may_delete_comment, may_delete_comment_spec,
    may_list_reported, may_list_reported_spec, may_rate, may_rate_spec, may_read_user_rating,
    may_read_user_rating_spec,
};
use crate::rating::{RatingAverage, sum_of};
use crate::repository::{
    MemoryStore, comments_for_video, has_comment, has_rating, mark_reported, rating_values_for_video,
    reported_comments, upsert_rating, without_comment,
};

verus! {

/// The outcome of a read: the value found, or `NotFound`.
pub fn read_outcome<T>(found: Option<T>) -> (r: Result<T, ApiError>)
    ensures
        match found {
            Some(v) => r == Ok::<T, ApiError>(v),
            None => r == Err::<T, ApiError>(ApiError::NotFound),
        },
{
    match found {
        Some(v) => Ok(v),
        None => Err(ApiError::NotFound),
    }
}

/// The outcome of a write: success, or `BadRequest`.
pub fn write_outcome(succeeded: bool) -> (r: Result<(), ApiError>)
    ensures
        succeeded ==> r == Ok::<(), ApiError>(()),
        !succeeded ==> r == Err::<(), ApiError>(ApiError::BadRequest),
{
    if succeeded {
        Ok(())
    } else {
        Err(ApiError::BadRequest)
    }
}

/// Whether a deletion of a comment fetched as `fetched` may go ahead: a
/// missing comment is `NotFound`, one the caller may not delete is
/// `Unauthorized`.
pub fn delete_decision(claims: &MyJWTClaims, fetched: &Option<Comment>) -> (r: Result<(), ApiError>)
    ensures
        match *fetched {
            None => r == Err::<(), ApiError>(ApiError::NotFound),
            Some(c) => if may_delete_comment_spec(*claims, c) {
                r == Ok::<(), ApiError>(())
            } else {
                r == Err::<(), ApiError>(ApiError::Unauthorized)
            },
        },
{
    match fetched {
        None => Err(ApiError::NotFound),
        Some(c) => if may_delete_comment(claims, c) {
            Ok(())
        } else {
            Err(ApiError::Unauthorized)
        },
    }
}

/// Whether the comment with identifier `id` exists and `claims` may delete it.
pub open spec fn may_delete_id(claims: MyJWTClaims, cs: Seq<Comment>, id: i32) -> bool {
    exists|k: int| 0 <= k < cs.len() && #[trigger] cs[k].id == id && may_delete_comment_spec(claims, cs[k])
}

/// Lists the comments on video `video_id`.
pub fn show_all_comments_for_video(video_id: i32, store: &MemoryStore, _my_claims: &MyJWTClaims) -> (r: Result<Vec<Comment>, ApiError>)
    ensures
        r matches Ok(v) && v@ == comments_for_video(store.comments(), video_id),
{
    Ok(store.show_all_comments_for_video(video_id))
}

/// Creates a comment, for the caller's own email only.
pub fn create_comment(new_comment: NewComment, store: &mut MemoryStore, my_claims: &MyJWTClaims) -> (r: Result<(), ApiError>)
    requires
        old(store).wf(),
    ensures
        final(store).wf(),
        !may_create_comment_spec(*my_claims, new_comment) ==> r == Err::<(), ApiError>(ApiError::Unauthorized)
            && *final(store) == *old(store),
        may_create_comment_spec(*my_claims, new_comment) && old(store).next_comment_id() < i32::MAX ==> {
            &&& r == Ok::<(), ApiError>(())
            &&& final(store).comments() == old(store).comments().push(
                crate::models::comment_from_new(old(store).next_comment_id(), new_comment),
            )
            &&& final(store).next_comment_id() == old(store).next_comment_id() + 1
        },
        may_create_comment_spec(*my_claims, new_comment) && old(store).next_comment_id() == i32::MAX ==> {
            &&& r == Err::<(), ApiError>(ApiError::BadRequest)
            &&& final(store).comments() == old(store).comments()
            &&& final(store).next_comment_id() == old(store).next_comment_id()
        },
        final(store).ratings() == old(store).ratings(),
        final(store).next_rating_id() == old(store).next_rating_id(),
{
    if !may_create_comment(my_claims, &new_comment) {
        return Err(ApiError::Unauthorized);
    }
    let created = store.create_comment(new_comment);
    write_outcome(created.is_ok())
}

/// Lists the reported comments, for administrators only.
pub fn show_all_reported_comments(store: &MemoryStore, my_claims: &MyJWTClaims) -> (r: Result<Vec<Comment>, ApiError>)
    ensures
        !may_list_reported_spec(*my_claims) ==> r == Err::<Vec<Comment>, ApiError>(ApiError::Unauthorized),
        may_list_reported_spec(*my_claims) ==> (r matches Ok(v) && v@ == reported_comments(store.comments())),
{
    if !may_list_reported(my_claims) {
        return Err(ApiError::Unauthorized);
    }
    Ok(store.show_all_reported_comments())
}

/// Deletes a comment: `NotFound` if it does not exist, `Unauthorized` if a
/// registered user tries to delete another's comment.
pub fn delete_comment(comment_id: i32, store: &mut MemoryStore, my_claims: &MyJWTClaims) -> (r: Result<(), ApiError>)
    requires
        old(store).wf(),
    ensures
        final(store).wf(),
        !has_comment(old(store).comments(), comment_id) ==> r == Err::<(), ApiError>(ApiError::NotFound)
            && *final(store) == *old(store),
        has_comment(old(store).comments(), comment_id) && !may_delete_id(*my_claims, old(store).comments(), comment_id)
            ==> r == Err::<(), ApiError>(ApiError::Unauthorized) && *final(store) == *old(store),
        may_delete_id(*my_claims, old(store).comments(), comment_id) ==> r == Ok::<(), ApiError>(())
            && final(store).comments() == without_comment(old(store).comments(), comment_id),
        final(store).ratings() == old(store).ratings(),
        final(store).next_comment_id() == old(store).next_comment_id(),
        final(store).next_rating_id() == old(store).next_rating_id(),
{
    let fetched = match store.get_comment(comment_id) {
        Ok(c) => Some(c),
        Err(_) => None,
    };
    proof {
        if fetched is Some {
            let c = fetched->0;
            let cs = store.comments();
            let k = choose|k: int| 0 <= k < cs.len() && cs[k] == c;
            assert(cs[k].id == comment_id);
            assert forall|j: int| 0 <= j < cs.len() && #[trigger] cs[j].id == comment_id implies j == k by {
                if j < k {
                    assert(cs[j].id < cs[k].id);
                } else if k < j {
                    assert(cs[k].id < cs[j].id);
                }
            }
        }
    }
    match delete_decision(my_claims, &fetched) {
        Err(e) => Err(e),
        Ok(()) => {
            store.delete_comment(comment_id);
            Ok(())
        },
    }
}

/// Reports a comment; `NotFound` if it does not exist.
pub fn report_comment(comment_id: i32, store: &mut MemoryStore, _my_claims: &MyJWTClaims) -> (r: Result<(), ApiError>)
    requires
        old(store).wf(),
    ensures
        final(store).wf(),
        final(store).comments() == mark_reported(old(store).comments(), comment_id),
        has_comment(old(store).comments(), comment_id) ==> r == Ok::<(), ApiError>(()),
        !has_comment(old(store).comments(), comment_id) ==> r == Err::<(), ApiError>(ApiError::NotFound),
        final(store).ratings() == old(store).ratings(),
        final(store).next_comment_id() == old(store).next_comment_id(),
        final(store).next_rating_id() == old(store).next_rating_id(),
{
    match store.report_comment(comment_id) {
        Ok(_) => Ok(()),
        Err(_) => Err(ApiError::NotFound),
    }
}

/// Creates or updates a rating, for the caller's own email only.
pub fn create_or_update_rating(new_rating: NewRating, store: &mut MemoryStore, my_claims: &MyJWTClaims) -> (r: Result<(), ApiError>)
    requires
        old(store).wf(),
    ensures
        final(store).wf(),
        final(store).comments() == old(store).comments(),
        final(store).next_comment_id() == old(store).next_comment_id(),
        !may_rate_spec(*my_claims, new_rating) ==> r == Err::<(), ApiError>(ApiError::Unauthorized)
            && *final(store) == *old(store),
        may_rate_spec(*my_claims, new_rating) ==> ({
            if has_rating(old(store).ratings(), new_rating.rating_owner_email@, new_rating.rating_video_id)
                || old(store).next_rating_id() < i32::MAX {
                &&& r == Ok::<(), ApiError>(())
                &&& final(store).ratings() == upsert_rating(old(store).ratings(), new_rating, old(store).next_rating_id())
                &&& final(store).next_rating_id() == if has_rating(
                    old(store).ratings(),
                    new_rating.rating_owner_email@,
                    new_rating.rating_video_id,
                ) {
                    old(store).next_rating_id() as int
                } else {
                    old(store).next_rating_id() + 1
                }
            } else {
                &&& r == Err::<(), ApiError>(ApiError::BadRequest)
                &&& final(store).ratings() == old(store).ratings()
                &&& final(store).next_rating_id() == old(store).next_rating_id()
            }
        }),
{
    if !may_rate(my_claims, &new_rating) {
        return Err(ApiError::Unauthorized);
    }
    let stored = store.create_or_update_rating(new_rating);
    write_outcome(stored.is_ok())
}

/// The average rating of video `video_id`, as a sum and a count.
pub fn get_rating_for_video(video_id: i32, store: &MemoryStore, _my_claims: &MyJWTClaims) -> (r: Result<RatingAverage, ApiError>)
    ensures
        r matches Ok(avg) && avg.total == sum_of(rating_values_for_video(store.ratings(), video_id))
            && avg.count == rating_values_for_video(store.ratings(), video_id).len(),
{
    Ok(store.get_rating_for_video(video_id))
}

/// The caller's own rating of video `video_id`.
pub fn get_rating_for_user(owner_email: String, video_id: i32, store: &MemoryStore, my_claims: &MyJWTClaims) -> (r: Result<i32, ApiError>)
    requires
        store.wf(),
    ensures
        !may_read_user_rating_spec(*my_claims, owner_email@) ==> r == Err::<i32, ApiError>(ApiError::Unauthorized),
        may_read_user_rating_spec(*my_claims, owner_email@) ==> match r {
            Ok(v) => exists|k: int|
                0 <= k < store.ratings().len() && crate::repository::rating_key_is(
                    #[trigger] store.ratings()[k],
                    owner_email@,
                    video_id,
                ) && store.ratings()[k].rating == v,
            Err(e) => e == ApiError::NotFound && !has_rating(store.ratings(), owner_email@, video_id),
        },
{
    if !may_read_user_rating(my_claims, &owner_email) {
        return Err(ApiError::Unauthorized);
    }
    read_outcome(store.get_rating_for_user(owner_email, video_id).ok())
}

} // verus!

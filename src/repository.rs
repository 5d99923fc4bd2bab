use vstd::prelude::*;
use crate::models::{Comment, NewComment, NewRating, Rating, comment_from_new, rating_from_new};
use crate::rating::{RatingAverage, average_rating};

verus! {

broadcast use vstd::seq_lib::group_seq_properties;

/// Why a store operation did not complete.
#[derive(Clone, Copy, Debug, PartialEq, Eq, Structural)]
pub enum StoreError {
    /// No row has the key asked for.
    NotFound,
    /// Every identifier a new row could take has been used.
    IdsExhausted,
}

/// The comments on video `video_id`, in store order.
pub open spec fn comments_for_video(cs: Seq<Comment>, video_id: i32) -> Seq<Comment> {
    cs.filter(|c: Comment| c.video_id == video_id)
}

/// The reported comments, in store order.
pub open spec fn reported_comments(cs: Seq<Comment>) -> Seq<Comment> {
    cs.filter(|c: Comment| c.reported)
}

/// Whether some comment has identifier `id`.
pub open spec fn has_comment(cs: Seq<Comment>, id: i32) -> bool {
    exists|k: int| 0 <= k < cs.len() && #[trigger] cs[k].id == id
}

/// `c` with its reported flag set.
pub open spec fn reported_copy(c: Comment) -> Comment {
    Comment {
        id: c.id,
        video_id: c.video_id,
        owner_email: c.owner_email,
        body: c.body,
        reported: true,
    }
}

/// The comments after the one with identifier `id` has been reported.
pub open spec fn mark_reported(cs: Seq<Comment>, id: i32) -> Seq<Comment> {
    cs.map_values(|c: Comment| if c.id == id { reported_copy(c) } else { c })
}

/// The comments after the one with identifier `id` has been deleted.
pub open spec fn without_comment(cs: Seq<Comment>, id: i32) -> Seq<Comment> {
    cs.filter(|c: Comment| c.id != id)
}

/// Whether rating `r` is `email`'s rating of video `video_id`.
pub open spec fn rating_key_is(r: Rating, email: Seq<char>, video_id: i32) -> bool {
    r.rating_owner_email@ == email && r.rating_video_id == video_id
}

/// Whether some rating is `email`'s rating of video `video_id`.
pub open spec fn has_rating(rs: Seq<Rating>, email: Seq<char>, video_id: i32) -> bool {
    exists|k: int| 0 <= k < rs.len() && rating_key_is(#[trigger] rs[k], email, video_id)
}

/// The rating values of video `video_id`, in store order.
pub open spec fn rating_values_for_video(rs: Seq<Rating>, video_id: i32) -> Seq<i32> {
    rs.filter(|r: Rating| r.rating_video_id == video_id).map_values(|r: Rating| r.rating)
}

/// `r` with its value replaced by `value`.
pub open spec fn rerated(r: Rating, value: i32) -> Rating {
    Rating {
        rating_id: r.rating_id,
        rating_owner_email: r.rating_owner_email,
        rating_video_id: r.rating_video_id,
        rating: value,
    }
}

/// The ratings after `new` is stored: the existing rating of the same owner
/// and video takes the new value; without one, `new` is added under `id`.
pub open spec fn upsert_rating(rs: Seq<Rating>, new: NewRating, id: i32) -> Seq<Rating> {
    if has_rating(rs, new.rating_owner_email@, new.rating_video_id) {
        rs.map_values(
            |r: Rating|
                if rating_key_is(r, new.rating_owner_email@, new.rating_video_id) {
                    rerated(r, new.rating)
                } else {
                    r
                },
        )
    } else {
        rs.push(rating_from_new(id, new))
    }
}

/// Comment identifiers increase along the store and stay below `next`.
pub open spec fn comment_ids_ok(cs: Seq<Comment>, next: int) -> bool {
    &&& forall|i: int, j: int| 0 <= i < j < cs.len() ==> cs[i].id < cs[j].id
    &&& forall|i: int| 0 <= i < cs.len() ==> #[trigger] cs[i].id < next
}

/// At most one rating per owner and video.
pub open spec fn rating_keys_unique(rs: Seq<Rating>) -> bool {
    forall|i: int, j: int|
        0 <= i < rs.len() && 0 <= j < rs.len() && #[trigger] rs[i].rating_owner_email@
            == #[trigger] rs[j].rating_owner_email@ && rs[i].rating_video_id == rs[j].rating_video_id
            ==> i == j
}

/// The comments and ratings tables held in memory, with the operations of the
/// relational store.
pub struct MemoryStore {
    comments: Vec<Comment>,
    ratings: Vec<Rating>,
    next_comment_id: i32,
    next_rating_id: i32,
}

impl MemoryStore {
    pub closed spec fn comments(&self) -> Seq<Comment> {
        self.comments@
    }

    pub closed spec fn ratings(&self) -> Seq<Rating> {
        self.ratings@
    }

    /// The identifier the next created comment receives.
    pub closed spec fn next_comment_id(&self) -> i32 {
        self.next_comment_id
    }

    /// The identifier the next created rating receives.
    pub closed spec fn next_rating_id(&self) -> i32 {
        self.next_rating_id
    }

    pub open spec fn wf(&self) -> bool {
        &&& comment_ids_ok(self.comments(), self.next_comment_id() as int)
        &&& rating_keys_unique(self.ratings())
    }

    /// An empty store; identifiers start at 1.
    pub fn new() -> (r: MemoryStore)
        ensures
            r.wf(),
            r.comments() == Seq::<Comment>::empty(),
            r.ratings() == Seq::<Rating>::empty(),
            r.next_comment_id() == 1,
            r.next_rating_id() == 1,
    {
        MemoryStore { comments: Vec::new(), ratings: Vec::new(), next_comment_id: 1, next_rating_id: 1 }
    }

    /// The comment with identifier `comment_id`.
    pub fn get_comment(&self, comment_id: i32) -> (r: Result<Comment, StoreError>)
        requires
            self.wf(),
        ensures
            match r {
                Ok(c) => c.id == comment_id && self.comments().contains(c),
                Err(e) => e == StoreError::NotFound && !has_comment(self.comments(), comment_id),
            },
    {
        let mut i: usize = 0;
        while i < self.comments.len()
            invariant
                i <= self.comments@.len(),
                forall|k: int| 0 <= k < i ==> self.comments@[k].id != comment_id,
            decreases self.comments@.len() - i,
        {
            if self.comments[i].id == comment_id {
                return Ok(self.comments[i].duplicate());
            }
            i = i + 1;
        }
        Err(StoreError::NotFound)
    }

    /// Stores `new_comment` under the next identifier, not reported, and
    /// returns the stored row; fails only once identifiers run out.
    pub fn create_comment(&mut self, new_comment: NewComment) -> (r: Result<Comment, StoreError>)
        requires
            old(self).wf(),
        ensures
            final(self).wf(),
            final(self).ratings() == old(self).ratings(),
            final(self).next_rating_id() == old(self).next_rating_id(),
            old(self).next_comment_id() < i32::MAX ==> {
                &&& r == Ok::<Comment, StoreError>(comment_from_new(old(self).next_comment_id(), new_comment))
                &&& final(self).comments() == old(self).comments().push(comment_from_new(old(self).next_comment_id(), new_comment))
                &&& final(self).next_comment_id() == old(self).next_comment_id() + 1
            },
            old(self).next_comment_id() == i32::MAX ==> {
                &&& r == Err::<Comment, StoreError>(StoreError::IdsExhausted)
                &&& final(self).comments() == old(self).comments()
                &&& final(self).next_comment_id() == old(self).next_comment_id()
            },
    {
        if self.next_comment_id == i32::MAX {
            return Err(StoreError::IdsExhausted);
        }
        let id = self.next_comment_id;
        let stored = Comment {
            id,
            video_id: new_comment.video_id,
            owner_email: new_comment.owner_email,
            body: new_comment.body,
            reported: false,
        };
        let returned = stored.duplicate();
        self.comments.push(stored);
        self.next_comment_id = id + 1;
        Ok(returned)
    }

    /// Deletes the comment with identifier `comment_id`, if there is one, and
    /// returns the number of rows removed.
    pub fn delete_comment(&mut self, comment_id: i32) -> (r: usize)
        requires
            old(self).wf(),
        ensures
            final(self).wf(),
            final(self).comments() == without_comment(old(self).comments(), comment_id),
            r == if has_comment(old(self).comments(), comment_id) { 1usize } else { 0usize },
            final(self).ratings() == old(self).ratings(),
            final(self).next_comment_id() == old(self).next_comment_id(),
            final(self).next_rating_id() == old(self).next_rating_id(),
    {
        let ghost cs = self.comments@;
        let mut kept: Vec<Comment> = Vec::new();
        let mut removed: usize = 0;
        let mut i: usize = 0;
        while i < self.comments.len()
            invariant
                cs == self.comments@,
                comment_ids_ok(cs, self.next_comment_id as int),
                i <= cs.len(),
                kept@ == without_comment(cs.subrange(0, i as int), comment_id),
                comment_ids_ok(kept@, self.next_comment_id as int),
                i < cs.len() ==> forall|k: int| 0 <= k < kept@.len() ==> #[trigger] kept@[k].id < cs[i as int].id,
                removed == if has_comment(cs.subrange(0, i as int), comment_id) { 1usize } else { 0usize },
            decreases cs.len() - i,
        {
            proof {
                reveal(Seq::filter);
                assert(cs.subrange(0, i as int + 1).drop_last() == cs.subrange(0, i as int));
            }
            if self.comments[i].id != comment_id {
                kept.push(self.comments[i].duplicate());
            } else {
                proof {
                    if has_comment(cs.subrange(0, i as int), comment_id) {
                        let k = choose|k: int| 0 <= k < i && #[trigger] cs.subrange(0, i as int)[k].id == comment_id;
                        assert(cs[k].id == comment_id);
                    }
                }
                removed = 1;
            }
            proof {
                assert(cs.subrange(0, i as int + 1)[i as int] == cs[i as int]);
                if has_comment(cs.subrange(0, i as int), comment_id) {
                    let k = choose|k: int| 0 <= k < i && #[trigger] cs.subrange(0, i as int)[k].id == comment_id;
                    assert(cs.subrange(0, i as int + 1)[k].id == comment_id);
                }
                if has_comment(cs.subrange(0, i as int + 1), comment_id) && cs[i as int].id != comment_id {
                    let k = choose|k: int| 0 <= k < i + 1 && #[trigger] cs.subrange(0, i as int + 1)[k].id == comment_id;
                    assert(cs.subrange(0, i as int)[k].id == comment_id);
                }
            }
            i = i + 1;
        }
        assert(cs.subrange(0, i as int) == cs);
        self.comments = kept;
        removed
    }

    /// Sets the reported flag of the comment with identifier `comment_id` and
    /// returns the updated row; `NotFound` if there is none.
    pub fn report_comment(&mut self, comment_id: i32) -> (r: Result<Comment, StoreError>)
        requires
            old(self).wf(),
        ensures
            final(self).wf(),
            final(self).comments() == mark_reported(old(self).comments(), comment_id),
            r is Ok <==> has_comment(old(self).comments(), comment_id),
            match r {
                Ok(c) => c.id == comment_id && c.reported && final(self).comments().contains(c),
                Err(e) => e == StoreError::NotFound,
            },
            final(self).ratings() == old(self).ratings(),
            final(self).next_comment_id() == old(self).next_comment_id(),
            final(self).next_rating_id() == old(self).next_rating_id(),
    {
        let ghost cs = self.comments@;
        let mut i: usize = 0;
        while i < self.comments.len()
            invariant
                cs == self.comments@,
                cs == old(self).comments@,
                self.ratings@ == old(self).ratings@,
                self.next_comment_id == old(self).next_comment_id,
                self.next_rating_id == old(self).next_rating_id,
                comment_ids_ok(cs, self.next_comment_id as int),
                rating_keys_unique(self.ratings@),
                i <= cs.len(),
                forall|k: int| 0 <= k < i ==> cs[k].id != comment_id,
            decreases cs.len() - i,
        {
            if self.comments[i].id == comment_id {
                assert forall|k: int| 0 <= k < cs.len() && k != i implies cs[k].id != comment_id by {
                    if k > i {
                        assert(cs[i as int].id < cs[k].id);
                    }
                }
                let mut updated = self.comments[i].duplicate();
                updated.reported = true;
                let returned = updated.duplicate();
                self.comments.set(i, updated);
                assert(self.comments@ =~= mark_reported(cs, comment_id));
                assert(self.comments@[i as int] == returned);
                assert forall|a: int, b: int| 0 <= a < b < cs.len() implies self.comments@[a].id
                    < self.comments@[b].id by {
                    assert(self.comments@[a].id == cs[a].id);
                    assert(self.comments@[b].id == cs[b].id);
                }
                assert forall|k: int| 0 <= k < cs.len() implies #[trigger] self.comments@[k].id
                    < self.next_comment_id by {
                    assert(self.comments@[k].id == cs[k].id);
                }
                return Ok(returned);
            }
            i = i + 1;
        }
        assert(self.comments@ =~= mark_reported(cs, comment_id));
        Err(StoreError::NotFound)
    }

    /// Stores `new_rating`: the existing rating of the same owner and video
    /// takes the new value, else a new row is added under the next
    /// identifier. Returns the stored row; fails only when a new row is
    /// needed and identifiers have run out.
    pub fn create_or_update_rating(&mut self, new_rating: NewRating) -> (r: Result<Rating, StoreError>)
        requires
            old(self).wf(),
        ensures
            final(self).wf(),
            final(self).comments() == old(self).comments(),
            final(self).next_comment_id() == old(self).next_comment_id(),
            ({
                let key_found = has_rating(old(self).ratings(), new_rating.rating_owner_email@, new_rating.rating_video_id);
                if key_found || old(self).next_rating_id() < i32::MAX {
                    &&& final(self).ratings() == upsert_rating(old(self).ratings(), new_rating, old(self).next_rating_id())
                    &&& final(self).next_rating_id() == if key_found { old(self).next_rating_id() as int } else { old(self).next_rating_id() + 1 }
                    &&& r matches Ok(row) && final(self).ratings().contains(row)
                        && rating_key_is(row, new_rating.rating_owner_email@, new_rating.rating_video_id)
                        && row.rating == new_rating.rating
                } else {
                    &&& r == Err::<Rating, StoreError>(StoreError::IdsExhausted)
                    &&& final(self).ratings() == old(self).ratings()
                    &&& final(self).next_rating_id() == old(self).next_rating_id()
                }
            }),
    {
        let ghost rs = self.ratings@;
        let ghost email = new_rating.rating_owner_email@;
        let mut i: usize = 0;
        while i < self.ratings.len()
            invariant
                rs == self.ratings@,
                rs == old(self).ratings@,
                self.comments@ == old(self).comments@,
                self.next_comment_id == old(self).next_comment_id,
                self.next_rating_id == old(self).next_rating_id,
                comment_ids_ok(self.comments@, self.next_comment_id as int),
                rating_keys_unique(rs),
                email == new_rating.rating_owner_email@,
                i <= rs.len(),
                forall|k: int| 0 <= k < i ==> !rating_key_is(#[trigger] rs[k], email, new_rating.rating_video_id),
            decreases rs.len() - i,
        {
            if self.ratings[i].rating_owner_email == new_rating.rating_owner_email
                && self.ratings[i].rating_video_id == new_rating.rating_video_id {
                let mut updated = self.ratings[i].duplicate();
                updated.rating = new_rating.rating;
                let returned = updated.duplicate();
                self.ratings.set(i, updated);
                proof {
                    assert(rating_key_is(rs[i as int], email, new_rating.rating_video_id));
                    assert forall|k: int| 0 <= k < rs.len() && k != i implies !rating_key_is(
                        #[trigger] rs[k],
                        email,
                        new_rating.rating_video_id,
                    ) by {
                        if rating_key_is(rs[k], email, new_rating.rating_video_id) {
                            assert(rs[i as int].rating_owner_email@ == rs[k].rating_owner_email@);
                        }
                    }
                    assert(self.ratings@ =~= upsert_rating(rs, new_rating, self.next_rating_id));
                    assert(self.ratings@[i as int] == returned);
                    assert forall|a: int, b: int|
                        0 <= a < rs.len() && 0 <= b < rs.len() && #[trigger] self.ratings@[a].rating_owner_email@
                            == #[trigger] self.ratings@[b].rating_owner_email@
                            && self.ratings@[a].rating_video_id == self.ratings@[b].rating_video_id
                        implies a == b by {
                        assert(rs[a].rating_owner_email@ == rs[b].rating_owner_email@);
                    }
                }
                return Ok(returned);
            }
            i = i + 1;
        }
        if self.next_rating_id == i32::MAX {
            return Err(StoreError::IdsExhausted);
        }
        let id = self.next_rating_id;
        let stored = Rating {
            rating_id: id,
            rating_owner_email: new_rating.rating_owner_email,
            rating_video_id: new_rating.rating_video_id,
            rating: new_rating.rating,
        };
        let returned = stored.duplicate();
        self.ratings.push(stored);
        self.next_rating_id = id + 1;
        proof {
            let n = rs.len() as int;
            assert(self.ratings@[n] == returned);
            assert forall|a: int, b: int|
                0 <= a < n + 1 && 0 <= b < n + 1 && #[trigger] self.ratings@[a].rating_owner_email@
                    == #[trigger] self.ratings@[b].rating_owner_email@
                    && self.ratings@[a].rating_video_id == self.ratings@[b].rating_video_id
                implies a == b by {
                if a < n && b < n {
                    assert(rs[a].rating_owner_email@ == rs[b].rating_owner_email@);
                } else if a < n {
                    assert(!rating_key_is(rs[a], email, new_rating.rating_video_id));
                } else if b < n {
                    assert(!rating_key_is(rs[b], email, new_rating.rating_video_id));
                }
            }
        }
        Ok(returned)
    }

    /// The rating values of video `video_id`, summed and counted.
    pub fn get_rating_for_video(&self, video_id: i32) -> (r: RatingAverage)
        ensures
            r.total == crate::rating::sum_of(rating_values_for_video(self.ratings(), video_id)),
            r.count == rating_values_for_video(self.ratings(), video_id).len(),
    {
        let ghost rs = self.ratings@;
        let mut values: Vec<i32> = Vec::new();
        let mut i: usize = 0;
        while i < self.ratings.len()
            invariant
                rs == self.ratings@,
                i <= rs.len(),
                values@ == rating_values_for_video(rs.subrange(0, i as int), video_id),
            decreases rs.len() - i,
        {
            proof {
                reveal(Seq::filter);
                assert(rs.subrange(0, i as int + 1).drop_last() == rs.subrange(0, i as int));
            }
            if self.ratings[i].rating_video_id == video_id {
                values.push(self.ratings[i].rating);
                proof {
                    let f = rs.subrange(0, i as int).filter(|r: Rating| r.rating_video_id == video_id);
                    assert(f.push(rs[i as int]).map_values(|r: Rating| r.rating)
                        =~= f.map_values(|r: Rating| r.rating).push(rs[i as int].rating));
                }
            }
            i = i + 1;
        }
        assert(rs.subrange(0, i as int) == rs);
        average_rating(&values)
    }

    /// The value of `owner_email`'s rating of video `video_id`; `NotFound` if
    /// there is none.
    pub fn get_rating_for_user(&self, owner_email: String, video_id: i32) -> (r: Result<i32, StoreError>)
        requires
            self.wf(),
        ensures
            match r {
                Ok(v) => exists|k: int|
                    0 <= k < self.ratings().len() && rating_key_is(#[trigger] self.ratings()[k], owner_email@, video_id)
                        && self.ratings()[k].rating == v,
                Err(e) => e == StoreError::NotFound && !has_rating(self.ratings(), owner_email@, video_id),
            },
    {
        let mut i: usize = 0;
        while i < self.ratings.len()
            invariant
                i <= self.ratings@.len(),
                forall|k: int| 0 <= k < i ==> !rating_key_is(#[trigger] self.ratings@[k], owner_email@, video_id),
            decreases self.ratings@.len() - i,
        {
            if self.ratings[i].rating_owner_email == owner_email && self.ratings[i].rating_video_id == video_id {
                assert(rating_key_is(self.ratings()[i as int], owner_email@, video_id));
                return Ok(self.ratings[i].rating);
            }
            i = i + 1;
        }
        Err(StoreError::NotFound)
    }

    /// The comments on video `video_id`, in store order.
    pub fn show_all_comments_for_video(&self, video_id: i32) -> (r: Vec<Comment>)
        ensures
            r@ == comments_for_video(self.comments(), video_id),
    {
        let mut out: Vec<Comment> = Vec::new();
        let mut i: usize = 0;
        while i < self.comments.len()
            invariant
                i <= self.comments@.len(),
                out@ == comments_for_video(self.comments@.subrange(0, i as int), video_id),
            decreases self.comments@.len() - i,
        {
            proof {
                reveal(Seq::filter);
                assert(self.comments@.subrange(0, i as int + 1).drop_last()
                    == self.comments@.subrange(0, i as int));
            }
            if self.comments[i].video_id == video_id {
                out.push(self.comments[i].duplicate());
            }
            i = i + 1;
        }
        assert(self.comments@.subrange(0, i as int) == self.comments@);
        out
    }

    /// The comments that have been reported, in store order.
    pub fn show_all_reported_comments(&self) -> (r: Vec<Comment>)
        ensures
            r@ == reported_comments(self.comments()),
    {
        let mut out: Vec<Comment> = Vec::new();
        let mut i: usize = 0;
        while i < self.comments.len()
            invariant
                i <= self.comments@.len(),
                out@ == reported_comments(self.comments@.subrange(0, i as int)),
            decreases self.comments@.len() - i,
        {
            proof {
                reveal(Seq::filter);
                assert(self.comments@.subrange(0, i as int + 1).drop_last()
                    == self.comments@.subrange(0, i as int));
            }
            if self.comments[i].reported {
                out.push(self.comments[i].duplicate());
            }
            i = i + 1;
        }
        assert(self.comments@.subrange(0, i as int) == self.comments@);
        out
    }
}

/// A comment just created is listed among its video's comments, and is not
/// reported.
pub proof fn lemma_created_comment_is_listed(cs: Seq<Comment>, new_comment: NewComment, id: i32)
    ensures
        comments_for_video(cs.push(comment_from_new(id, new_comment)), new_comment.video_id).contains(
            comment_from_new(id, new_comment),
        ),
        !comment_from_new(id, new_comment).reported,
{
    let c = comment_from_new(id, new_comment);
    let pushed = cs.push(c);
    assert(pushed[cs.len() as int] == c);
}

/// Reporting a comment twice leaves the store as reporting it once; the
/// reported comment is flagged, and no flag is ever cleared.
pub proof fn lemma_report_is_idempotent(cs: Seq<Comment>, id: i32)
    ensures
        mark_reported(mark_reported(cs, id), id) == mark_reported(cs, id),
        forall|k: int| 0 <= k < cs.len() && cs[k].id == id ==> #[trigger] mark_reported(cs, id)[k].reported,
        forall|k: int| 0 <= k < cs.len() && cs[k].reported ==> #[trigger] mark_reported(cs, id)[k].reported,
{
    assert(mark_reported(mark_reported(cs, id), id) =~= mark_reported(cs, id));
}

/// Storing a rating keeps at most one rating per owner and video, and leaves
/// one for the rating's own owner and video.
pub proof fn lemma_upsert_keeps_keys_unique(rs: Seq<Rating>, new_rating: NewRating, id: i32)
    requires
        rating_keys_unique(rs),
    ensures
        rating_keys_unique(upsert_rating(rs, new_rating, id)),
        has_rating(upsert_rating(rs, new_rating, id), new_rating.rating_owner_email@, new_rating.rating_video_id),
{
    let email = new_rating.rating_owner_email@;
    let v = new_rating.rating_video_id;
    let after = upsert_rating(rs, new_rating, id);
    if has_rating(rs, email, v) {
        let k = choose|k: int| 0 <= k < rs.len() && rating_key_is(#[trigger] rs[k], email, v);
        assert(rating_key_is(after[k], email, v));
        assert forall|a: int, b: int|
            0 <= a < after.len() && 0 <= b < after.len() && #[trigger] after[a].rating_owner_email@
                == #[trigger] after[b].rating_owner_email@ && after[a].rating_video_id == after[b].rating_video_id
            implies a == b by {
            assert(rs[a].rating_owner_email@ == rs[b].rating_owner_email@);
        }
    } else {
        let n = rs.len() as int;
        assert(rating_key_is(after[n], email, v));
        assert forall|a: int, b: int|
            0 <= a < after.len() && 0 <= b < after.len() && #[trigger] after[a].rating_owner_email@
                == #[trigger] after[b].rating_owner_email@ && after[a].rating_video_id == after[b].rating_video_id
            implies a == b by {
            if a < n && b < n {
                assert(rs[a].rating_owner_email@ == rs[b].rating_owner_email@);
            } else if a < n {
                assert(!rating_key_is(rs[a], email, v));
            } else if b < n {
                assert(!rating_key_is(rs[b], email, v));
            }
        }
    }
}

/// Two ratings by the same owner of the same video leave exactly one stored
/// row for that owner and video, holding the second value.
pub proof fn lemma_second_rating_replaces_first(
    rs: Seq<Rating>,
    first: NewRating,
    second: NewRating,
    first_id: i32,
    second_id: i32,
)
    requires
        rating_keys_unique(rs),
        first.rating_owner_email@ == second.rating_owner_email@,
        first.rating_video_id == second.rating_video_id,
    ensures
        ({
            let after = upsert_rating(upsert_rating(rs, first, first_id), second, second_id);
            exists|k: int|
                0 <= k < after.len() && rating_key_is(#[trigger] after[k], second.rating_owner_email@, second.rating_video_id)
                    && after[k].rating == second.rating && forall|j: int|
                    0 <= j < after.len() && rating_key_is(#[trigger] after[j], second.rating_owner_email@, second.rating_video_id)
                        ==> j == k
        }),
{
    let email = second.rating_owner_email@;
    let v = second.rating_video_id;
    lemma_upsert_keeps_keys_unique(rs, first, first_id);
    let mid = upsert_rating(rs, first, first_id);
    let after = upsert_rating(mid, second, second_id);
    let k = choose|k: int| 0 <= k < mid.len() && rating_key_is(#[trigger] mid[k], email, v);
    assert(rating_key_is(after[k], email, v));
    assert forall|j: int| 0 <= j < after.len() && rating_key_is(#[trigger] after[j], email, v) implies j == k by {
        assert(rating_key_is(mid[j], email, v));
        assert(mid[j].rating_owner_email@ == mid[k].rating_owner_email@);
    }
}

} // verus!

use vstd::prelude::*;

verus! {

/// A comment on a video.
#[derive(Clone, Debug, PartialEq, Eq)]
pub struct Comment {
    pub id: i32,
    pub video_id: i32,
    pub owner_email: String,
    pub body: String,
    pub reported: bool,
}

/// What a caller supplies to create a comment.
#[derive(Clone, Debug, PartialEq, Eq)]
pub struct NewComment {
    pub video_id: i32,
    pub owner_email: String,
    pub body: String,
}

/// One user's rating of one video.
#[derive(Clone, Debug, PartialEq, Eq)]
pub struct Rating {
    pub rating_id: i32,
    pub rating_owner_email: String,
    pub rating_video_id: i32,
    pub rating: i32,
}

/// What a caller supplies to create or update a rating.
#[derive(Clone, Debug, PartialEq, Eq)]
pub struct NewRating {
    pub rating_owner_email: String,
    pub rating_video_id: i32,
    pub rating: i32,
}

/// The comment stored for `new` under the generated `id`: not reported.
pub open spec fn comment_from_new(id: i32, new: NewComment) -> Comment {
    Comment {
        id,
        video_id: new.video_id,
        owner_email: new.owner_email,
        body: new.body,
        reported: false,
    }
}

/// The rating stored for `new` under the generated `id`.
pub open spec fn rating_from_new(id: i32, new: NewRating) -> Rating {
    Rating {
        rating_id: id,
        rating_owner_email: new.rating_owner_email,
        rating_video_id: new.rating_video_id,
        rating: new.rating,
    }
}

impl Comment {
    /// A field-by-field copy.
    pub fn duplicate(&self) -> (r: Comment)
        ensures
            r == *self,
    {
        Comment {
            id: self.id,
            video_id: self.video_id,
            owner_email: self.owner_email.clone(),
            body: self.body.clone(),
            reported: self.reported,
        }
    }
}

impl Rating {
    /// A field-by-field copy.
    pub fn duplicate(&self) -> (r: Rating)
        ensures
            r == *self,
    {
        Rating {
            rating_id: self.rating_id,
            rating_owner_email: self.rating_owner_email.clone(),
            rating_video_id: self.rating_video_id,
            rating: self.rating,
        }
    }
}

} // verus!

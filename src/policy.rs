use vstd::prelude::*;
use vstd::string::*;
use crate::auth::MyJWTClaims;
use crate::models::{Comment, NewComment, NewRating};

verus! {

/// The role that may list reported comments.
pub open spec fn administrator_role() -> Seq<char> {
    "Administrator"@
}

/// The role whose deletions are limited to the caller's own comments.
pub open spec fn registered_user_role() -> Seq<char> {
    "RegisteredUser"@
}

pub open spec fn may_create_comment_spec(claims: MyJWTClaims, new: NewComment) -> bool {
    claims.email@ == new.owner_email@
}

pub open spec fn may_list_reported_spec(claims: MyJWTClaims) -> bool {
    claims.role@ == administrator_role()
}

pub open spec fn may_delete_comment_spec(claims: MyJWTClaims, comment: Comment) -> bool {
    claims.role@ != registered_user_role() || claims.email@ == comment.owner_email@
}

pub open spec fn may_rate_spec(claims: MyJWTClaims, new: NewRating) -> bool {
    claims.email@ == new.rating_owner_email@
}

pub open spec fn may_read_user_rating_spec(claims: MyJWTClaims, owner_email: Seq<char>) -> bool {
    claims.email@ == owner_email
}

/// A caller may create a comment only under their own email.
pub fn may_create_comment(claims: &MyJWTClaims, new: &NewComment) -> (r: bool)
    ensures
        r == may_create_comment_spec(*claims, *new),
{
    claims.email == new.owner_email
}

/// Only an administrator may list the reported comments.
pub fn may_list_reported(claims: &MyJWTClaims) -> (r: bool)
    ensures
        r == may_list_reported_spec(*claims),
{
    let admin = String::from_str("Administrator");
    claims.role == admin
}

/// Any role but a registered user may delete any comment; a registered user
/// only their own.
pub fn may_delete_comment(claims: &MyJWTClaims, comment: &Comment) -> (r: bool)
    ensures
        r == may_delete_comment_spec(*claims, *comment),
{
    let registered = String::from_str("RegisteredUser");
    !(claims.role == registered) || claims.email == comment.owner_email
}

/// A caller may create or update a rating only under their own email.
pub fn may_rate(claims: &MyJWTClaims, new: &NewRating) -> (r: bool)
    ensures
        r == may_rate_spec(*claims, *new),
{
    claims.email == new.rating_owner_email
}

/// A caller may read only their own rating of a video.
pub fn may_read_user_rating(claims: &MyJWTClaims, owner_email: &String) -> (r: bool)
    ensures
        r == may_read_user_rating_spec(*claims, owner_email@),
{
    claims.email == *owner_email
}

} // verus!

//! Plain data types of the HTTP surface: answer and query shapes for the
//! post, user and upload routes. They carry values; the serialisation to
//! and from the wire lives outside the core.

use vstd::prelude::*;
use crate::errors::ApiError;
use crate::ranks::{AvatarStyle, UserRank};
use crate::staging::Data;

verus! {

/// The answer to a successful upload: the staging token the client later
/// redeems.
#[derive(Debug, Clone)]
pub struct UploadResponse {
    pub token: String,
}

/// A page of posts.
#[derive(Debug)]
pub struct PostsAnswer {
    pub query: String,
    pub offset: u64,
    pub limit: u64,
    pub total: u64,
    pub results: Vec<Results>,
}

/// One row of a post listing.
#[derive(Debug)]
pub struct Results {
    pub id: i32,
    pub thumbnail_url: String,
    pub type_field: String,
    pub safety: String,
    pub score: i64,
    pub favorite_count: i64,
    pub comment_count: i64,
    pub tags: Vec<()>,
    pub version: i32,
}

/// The query parameters of a post listing request.
#[derive(Debug)]
pub struct PostsAnswerQuery {
    pub query: String,
    pub offset: Option<u64>,
    pub limit: u64,
    pub fields: String,
}

/// A page of posts in the compact listing shape.
#[derive(Debug)]
pub struct ListOfPostsAnswer {
    pub query: String,
    pub offset: u64,
    pub limit: u64,
    pub total: u64,
    pub results: Vec<MiniPost>,
}

/// The compact listing shape of one post.
#[derive(Debug)]
pub struct MiniPost {
    pub id: i32,
    pub thumbnail_url: String,
    pub type_field: String,
    pub safety: String,
    pub score: i32,
    pub favorite_count: i32,
    pub comment_count: i32,
    pub tags: Vec<()>,
    pub version: i32,
}

/// The fields of a stored post row that the compact listing reads.
#[derive(Debug, Clone)]
pub struct PostModel {
    pub id: i32,
    pub type_field: String,
    pub safety: String,
    pub version: i32,
}

impl MiniPost {
    /// The compact shape of a stored post row, with the counts and the
    /// thumbnail location the caller supplies.
    pub fn from_model(
        model: &PostModel,
        thumbnail_url: String,
        score: i32,
        favorite_count: i32,
        comment_count: i32,
        tags: Vec<()>,
    ) -> (r: Self)
        ensures
            r.id == model.id,
            r.thumbnail_url == thumbnail_url,
            r.type_field@ == model.type_field@,
            r.safety@ == model.safety@,
            r.score == score,
            r.favorite_count == favorite_count,
            r.comment_count == comment_count,
            r.tags == tags,
            r.version == model.version,
    {
        MiniPost {
            id: model.id,
            thumbnail_url,
            type_field: model.type_field.clone(),
            safety: model.safety.clone(),
            score,
            favorite_count,
            comment_count,
            tags,
            version: model.version,
        }
    }
}

/// The parameters of a post listing request.
#[derive(Debug)]
pub struct PostsParams {
    pub query: String,
    pub offset: Option<u64>,
    pub limit: u64,
    pub fields: String,
}

/// A reverse-search request: the staging token of the uploaded bytes to
/// search for.
#[derive(Debug)]
pub struct ReverseSearchQuery {
    pub content_token: String,
}

/// A reverse-search answer.
#[derive(Debug)]
pub struct ReverseSearchAnswer {
    pub exact_post: Option<String>,
    pub similar_posts: Vec<()>,
}

/// Answers a reverse search: the request is accepted exactly when its
/// content token is currently staged, and the search itself is a stub that
/// finds nothing yet.
pub fn reverse_post_search(store: &Data, query: &ReverseSearchQuery) -> (r: Result<
    ReverseSearchAnswer,
    ApiError,
>)
    ensures
        r is Ok <==> store@.dom().contains(query.content_token@),
        match r {
            Result::Ok(a) => a.exact_post is None && a.similar_posts@.len() == 0,
            Result::Err(e) => e is Uploads,
        },
{
    if !store.is_existing(query.content_token.as_str()) {
        return Result::Err(ApiError::Uploads);
    }
    Result::Ok(ReverseSearchAnswer { exact_post: Option::None, similar_posts: Vec::new() })
}

/// The compact shape of a user.
#[derive(Debug, Clone)]
pub struct MicroUser {
    pub name: String,
    pub avatar_url: String,
}

/// The query parameters of a user lookup.
#[derive(Debug)]
pub struct UserHttpQuery {
    pub bump_login: bool,
}

impl core::default::Default for UserHttpQuery {
    /// A lookup that does not bump the login time.
    fn default() -> (d: UserHttpQuery)
        ensures
            !d.bump_login,
    {
        UserHttpQuery { bump_login: false }
    }
}

/// The fields a new user row is created with.
#[derive(Debug, Clone)]
pub struct CreateUser {
    pub id: i32,
    pub username: Option<String>,
    pub password: String,
    pub enabled: bool,
    pub email: Option<String>,
    pub access_level: String,
    pub avatar_style: String,
}

/// One page of a paginated table read; `page` is a 0-based index.
#[derive(Debug)]
pub struct PaginationResult<T> {
    pub items: Vec<T>,
    pub total_items: i64,
    pub page: i64,
    pub page_size: i64,
    pub num_pages: i64,
}

/// The body of a user creation request.
#[derive(Debug)]
pub struct CreateUserHttpQuery {
    pub name: String,
    pub password: String,
    pub email: Option<String>,
    pub rank: Option<UserRank>,
    pub avatar_style: Option<AvatarStyle>,
}

} // verus!

//! The bodies of the requests that change content or sign a user in.

use vstd::prelude::*;

verus! {

/// A category to create. Without a slug, one is made of the name.
#[derive(Debug)]
pub struct CreateCategoryDto {
    pub name: String,
    pub slug: Option<String>,
    pub description: Option<String>,
}

/// The changes to a category; an absent field stays as it is.
#[derive(Debug)]
pub struct UpdateCategoryDto {
    pub name: Option<String>,
    pub slug: Option<String>,
    pub description: Option<String>,
}

/// A comment to create, by a signed-in user or under a given name.
#[derive(Debug)]
pub struct CreateCommentDto {
    pub post_id: i32,
    pub user_id: Option<i32>,
    pub author_name: Option<String>,
    pub author_email: Option<String>,
    pub content: String,
}

/// The changes to a comment.
#[derive(Debug)]
pub struct UpdateCommentDto {
    pub content: Option<String>,
}

/// A post to create. Without a slug, one is made of the title.
#[derive(Debug)]
pub struct CreatePostDto {
    pub title: String,
    pub body: String,
    pub slug: Option<String>,
    pub category_ids: Option<Vec<i32>>,
}

/// The changes to a post; an absent field stays as it is.
#[derive(Debug)]
pub struct UpdatePostDto {
    pub title: Option<String>,
    pub body: Option<String>,
    pub slug: Option<String>,
    pub category_ids: Option<Vec<i32>>,
}

/// A user to register. Without a role, the user gets the default one.
#[derive(Debug)]
pub struct CreateUserDto {
    pub username: String,
    pub email: String,
    pub password: String,
    pub role: Option<String>,
}

/// The changes to a user; an absent field stays as it is.
#[derive(Debug)]
pub struct UpdateUserDto {
    pub username: Option<String>,
    pub email: Option<String>,
    pub password: Option<String>,
    pub role: Option<String>,
}

/// The credentials of a sign-in.
#[derive(Debug)]
pub struct LoginDto {
    pub email: String,
    pub password: String,
}

/// The answer to a refresh: the new token.
#[derive(Debug)]
pub struct TokenResponseDto {
    pub token: String,
}

} // verus!

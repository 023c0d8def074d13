//! The rules on posts and categories: what a new one must hold, and how it
//! comes by its slug.

use vstd::prelude::*;
use crate::dto::{CreateCategoryDto, CreatePostDto};
use crate::error::{judged, AppError, AppResult, FailureKind};
use crate::slug::{deunicoded, slug_of, slugify};
use crate::store::{store_failed, StoreFailure};
use crate::text::{concat3, is_blank, is_blank_str, string_view};

verus! {

/// What is said of a post without a title.
pub open spec fn empty_title() -> Seq<char> {
    "El título no puede estar vacío"@
}

/// What is said of a post without text.
pub open spec fn empty_body() -> Seq<char> {
    "El contenido no puede estar vacío"@
}

/// What is said of a category without a name.
pub open spec fn empty_name() -> Seq<char> {
    "El nombre no puede estar vacío"@
}

/// What is said of a slug that another post has.
pub open spec fn post_slug_taken(slug: Seq<char>) -> Seq<char> {
    "Ya existe un post con el slug '"@ + slug + "'"@
}

/// What is said of a slug that another category has.
pub open spec fn category_slug_taken(slug: Seq<char>) -> Seq<char> {
    "Ya existe una categoría con el slug '"@ + slug + "'"@
}

/// The first rule that a new post breaks, if it breaks one: title and body
/// must hold more than white space.
pub open spec fn post_fault(title: Seq<char>, body: Seq<char>) -> Option<Seq<char>> {
    if is_blank(title) {
        Some(empty_title())
    } else if is_blank(body) {
        Some(empty_body())
    } else {
        None
    }
}

/// Holds a new post to its rules.
pub fn check_post(dto: &CreatePostDto) -> (r: AppResult<()>)
    ensures
        judged(r, post_fault(dto.title@, dto.body@)),
{
    if is_blank_str(dto.title.as_str()) {
        Err(AppError::ValidationError("El título no puede estar vacío".to_owned()))
    } else if is_blank_str(dto.body.as_str()) {
        Err(AppError::ValidationError("El contenido no puede estar vacío".to_owned()))
    } else {
        Ok(())
    }
}

/// Holds a new category to its rule: the name must hold more than white
/// space.
pub fn check_category(dto: &CreateCategoryDto) -> (r: AppResult<()>)
    ensures
        judged(
            r,
            if is_blank(dto.name@) {
                Some(empty_name())
            } else {
                None
            },
        ),
{
    if is_blank_str(dto.name.as_str()) {
        Err(AppError::ValidationError("El nombre no puede estar vacío".to_owned()))
    } else {
        Ok(())
    }
}

/// The slug of a new record: the given one where it holds more than white
/// space, otherwise the slug of the record's title or name.
pub open spec fn slug_for(given: Option<Seq<char>>, title: Seq<char>) -> Seq<char> {
    match given {
        Some(slug) => if is_blank(slug) {
            slug_of(deunicoded(title))
        } else {
            slug
        },
        None => slug_of(deunicoded(title)),
    }
}

/// Chooses the slug of a new post or category.
pub fn choose_slug(given: Option<String>, title: &str) -> (slug: String)
    ensures
        slug@ == slug_for(string_view(given), title@),
{
    match given {
        Some(slug) => {
            if is_blank_str(slug.as_str()) {
                slugify(title)
            } else {
                slug
            }
        },
        None => slugify(title),
    }
}

/// The slug of a changed record: the given one where the change gives one;
/// where it gives a new title or name and no slug, the slug of that; else
/// none, and the record keeps its slug.
pub open spec fn slug_for_change(
    title: Option<Seq<char>>,
    given: Option<Seq<char>>,
) -> Option<Seq<char>> {
    match given {
        Some(slug) => Some(slug),
        None => match title {
            Some(new_title) => Some(slug_of(deunicoded(new_title))),
            None => None,
        },
    }
}

/// Chooses the slug of a changed post or category.
pub fn choose_changed_slug(title: &Option<String>, given: Option<String>) -> (slug: Option<String>)
    ensures
        string_view(slug) == slug_for_change(string_view(*title), string_view(given)),
{
    match given {
        Some(slug) => Some(slug),
        None => match title {
            Some(new_title) => Some(slugify(new_title.as_str())),
            None => None,
        },
    }
}

/// Chooses the slug of a changed post. A post gets a slug from its new
/// title only when the change also files it under categories anew.
pub fn choose_changed_post_slug(
    title: &Option<String>,
    given: Option<String>,
    refiled: bool,
) -> (slug: Option<String>)
    ensures
        string_view(slug) == (if refiled {
            slug_for_change(string_view(*title), string_view(given))
        } else {
            string_view(given)
        }),
{
    if refiled {
        choose_changed_slug(title, given)
    } else {
        given
    }
}

/// Refuses a slug that another post has.
pub fn check_post_slug_free(slug: &str, taken: bool) -> (r: AppResult<()>)
    ensures
        judged(
            r,
            if taken {
                Some(post_slug_taken(slug@))
            } else {
                None
            },
        ),
{
    if taken {
        Err(AppError::ValidationError(concat3("Ya existe un post con el slug '", slug, "'")))
    } else {
        Ok(())
    }
}

/// Judges the lookup of a post by the slug that a new or changed post is to
/// have: a post that was found has the slug already; a lookup that found
/// none leaves the slug free; any other failure is the store's.
pub fn check_post_slug_lookup(slug: &str, found: Result<(), StoreFailure>) -> (r: AppResult<()>)
    ensures
        match found {
            Ok(_) => r matches Err(e) && e.is(FailureKind::Validation, post_slug_taken(slug@)),
            Err(failure) => if failure.not_found {
                r is Ok
            } else {
                r matches Err(e) && e.is(FailureKind::Database, failure.text@)
            },
        },
{
    match found {
        Ok(_) => check_post_slug_free(slug, true),
        Err(failure) => {
            if failure.not_found {
                Ok(())
            } else {
                Err(store_failed(failure))
            }
        },
    }
}

/// Refuses a slug that another category has.
pub fn check_category_slug_free(slug: &str, taken: bool) -> (r: AppResult<()>)
    ensures
        judged(
            r,
            if taken {
                Some(category_slug_taken(slug@))
            } else {
                None
            },
        ),
{
    if taken {
        Err(
            AppError::ValidationError(concat3("Ya existe una categoría con el slug '", slug, "'")),
        )
    } else {
        Ok(())
    }
}

/// Tells whether a new post is filed under categories: it names at least
/// one.
pub fn has_categories(category_ids: &Option<Vec<i32>>) -> (filed: bool)
    ensures
        filed == (category_ids matches Some(ids) && ids@.len() > 0),
{
    match category_ids {
        Some(ids) => ids.len() > 0,
        None => false,
    }
}

/// The links that file the post `post_id` under each of `category_ids`, in
/// their order: pairs of the post and a category.
pub fn category_links(post_id: i32, category_ids: &Vec<i32>) -> (links: Vec<(i32, i32)>)
    ensures
        links@.len() == category_ids@.len(),
        forall|i: int|
            0 <= i < links@.len() ==> #[trigger] links@[i] == (post_id, category_ids@[i]),
{
    let mut links: Vec<(i32, i32)> = Vec::new();
    let mut i: usize = 0;
    while i < category_ids.len()
        invariant
            i <= category_ids.len(),
            links@.len() == i,
            forall|j: int| 0 <= j < i ==> #[trigger] links@[j] == (post_id, category_ids@[j]),
        decreases category_ids.len() - i,
    {
        links.push((post_id, category_ids[i]));
        i = i + 1;
    }
    links
}

} // verus!

use blog_core::claims::Claims;
use blog_core::comments::{
    attribute, check_changed_content, check_content, check_post_exists, resolve_author, Account,
};
use blog_core::dto::{CreateCategoryDto, CreateCommentDto, CreatePostDto, CreateUserDto};
use blog_core::error::{AppError, AppResult, FailureKind};
use blog_core::posts::{
    category_links, check_category, check_category_slug_free, check_post, check_post_slug_free,
    check_post_slug_lookup,
    choose_changed_post_slug, choose_changed_slug, choose_slug, has_categories,
};
use blog_core::responses::Operation;
use blog_core::store::{store_failed, Key, Record, StoreFailure};
use blog_core::token::validate_token_at;
use blog_core::users::{
    check_credentials, check_email_free, check_new_password, check_registration,
    check_username_free, is_changed, role_or_default, session_token, session_token_at,
};

fn fault<T>(r: AppResult<T>) -> (FailureKind, String) {
    match r {
        Ok(_) => panic!("no failure"),
        Err(e) => (e.failure_kind(), e.detail_text().to_string()),
    }
}

fn registration(username: &str, email: &str, password: &str) -> CreateUserDto {
    CreateUserDto {
        username: String::from(username),
        email: String::from(email),
        password: String::from(password),
        role: None,
    }
}

#[test]
fn registration_rules_in_order() {
    assert!(check_registration(&registration("ada", "ada@example.org", "secret")).is_ok());
    assert_eq!(
        fault(check_registration(&registration("  ", "", ""))),
        (FailureKind::Validation, String::from("El nombre de usuario no puede estar vac\u{ed}o"))
    );
    assert_eq!(
        fault(check_registration(&registration("ada", " \t", ""))),
        (FailureKind::Validation, String::from("El email no puede estar vac\u{ed}o"))
    );
    assert_eq!(
        fault(check_registration(&registration("ada", "a@b.c", "12345"))),
        (FailureKind::Validation, String::from("La contrase\u{f1}a debe tener al menos 6 caracteres"))
    );
    assert_eq!(
        fault(check_registration(&registration("ada", "a@b.c", "        "))).0,
        FailureKind::Validation
    );
    assert!(check_registration(&registration("ada", "a@b.c", "123456")).is_ok());
    assert!(check_registration(&registration("ada", "a@b.c", "\u{e9}\u{e9}\u{e9}")).is_ok());
}

#[test]
fn changed_password_rule() {
    assert!(check_new_password("123456").is_ok());
    assert!(check_new_password("      ").is_ok());
    assert_eq!(
        fault(check_new_password("12345")).1,
        "La contrase\u{f1}a debe tener al menos 6 caracteres"
    );
    assert_eq!(fault(check_new_password("")).0, FailureKind::Validation);
}

#[test]
fn taken_values_are_refused_by_name() {
    assert!(check_email_free("a@b.c", false).is_ok());
    assert_eq!(
        fault(check_email_free("a@b.c", true)),
        (FailureKind::Validation, String::from("Ya existe un usuario con el email 'a@b.c'"))
    );
    assert!(check_username_free("ada", false).is_ok());
    assert_eq!(
        fault(check_username_free("ada", true)),
        (FailureKind::Validation, String::from("Ya existe un usuario con el nombre 'ada'"))
    );
}

#[test]
fn change_detection() {
    assert!(!is_changed(&None, "x"));
    assert!(!is_changed(&Some(String::from("x")), "x"));
    assert!(is_changed(&Some(String::from("y")), "x"));
    assert!(is_changed(&Some(String::new()), "x"));
}

#[test]
fn default_role_is_user() {
    assert_eq!(role_or_default(None), "user");
    assert_eq!(role_or_default(Some(String::from("admin"))), "admin");
    assert_eq!(role_or_default(Some(String::new())), "");
}

#[test]
fn credentials() {
    assert!(check_credentials(true).is_ok());
    assert_eq!(
        fault(check_credentials(false)),
        (FailureKind::Authentication, String::from("Credenciales inv\u{e1}lidas"))
    );
}

#[test]
fn session_token_lasts_a_day() {
    let token =
        session_token_at(42, String::from("ada"), String::from("user"), "k", 1_700_000_000).unwrap();
    let claims = validate_token_at(&token, "k", 1_700_000_000).unwrap();
    assert_eq!(claims.sub, "42");
    assert_eq!(claims.username, "ada");
    assert_eq!(claims.role, "user");
    assert_eq!(claims.iat, 1_700_000_000);
    assert_eq!(claims.exp, 1_700_086_400);
    let now = session_token(1, String::from("b"), String::from("admin"), "k").unwrap();
    let seen = validate_token_at(&now, "k", 0).unwrap();
    assert_eq!(seen.exp - seen.iat, 86_400);
}

#[test]
fn missing_records_by_kind() {
    let cases = [
        (Record::User, "Usuario con ID 7 no encontrado", "No se pudo eliminar el usuario con ID 7"),
        (Record::Category, "Categor\u{ed}a con ID 7 no encontrada", "No se pudo eliminar la categor\u{ed}a con ID 7"),
        (Record::Post, "Post con ID 7 no encontrado", "No se pudo eliminar el post con ID 7"),
        (Record::Comment, "Comentario con ID 7 no encontrado", "No se pudo eliminar el comentario con ID 7"),
    ];
    for (record, missing, undeleted) in cases {
        let e = record.missing(7);
        assert_eq!((e.failure_kind(), e.detail_text()), (FailureKind::NotFound, missing));
        let e = record.undeleted(7);
        assert_eq!((e.failure_kind(), e.detail_text()), (FailureKind::NotFound, undeleted));
        assert!(record.deletion(7, 1).is_ok());
        assert!(record.deletion(7, 3).is_ok());
        assert_eq!(fault(record.deletion(7, 0)), (FailureKind::NotFound, String::from(undeleted)));
    }
    assert_eq!(Record::User.missing(-12).detail_text(), "Usuario con ID -12 no encontrado");
}

#[test]
fn store_failures() {
    let gone = || StoreFailure { not_found: true, text: String::from("Record not found") };
    let down = || StoreFailure { not_found: false, text: String::from("connection reset") };
    let e = Record::Post.lookup_failed(3, gone());
    assert_eq!((e.failure_kind(), e.detail_text()), (FailureKind::NotFound, "Post con ID 3 no encontrado"));
    let e = Record::Post.lookup_failed(3, down());
    assert_eq!((e.failure_kind(), e.detail_text()), (FailureKind::Database, "connection reset"));
    let e = store_failed(gone());
    assert_eq!((e.failure_kind(), e.detail_text()), (FailureKind::Database, "Record not found"));
    let e = store_failed(down());
    assert_eq!((e.failure_kind(), e.detail_text()), (FailureKind::Database, "connection reset"));
}

#[test]
fn failures_in_words() {
    let all = [
        (AppError::DatabaseError(String::from("x")), "Error de base de datos: x"),
        (AppError::IoError(String::from("x")), "Error de IO: x"),
        (AppError::NotFound(String::from("x")), "Recurso no encontrado: x"),
        (AppError::ValidationError(String::from("x")), "Error de validaci\u{f3}n: x"),
        (AppError::AuthenticationError(String::from("x")), "Error de autenticaci\u{f3}n: x"),
        (AppError::AuthorizationError(String::from("x")), "Error de autorizaci\u{f3}n: x"),
        (AppError::InternalServerError(String::from("x")), "Error interno del servidor: x"),
    ];
    for (e, words) in all {
        assert_eq!(e.message(), words);
        assert_eq!(e.detail_text(), "x");
    }
}

fn comment(user_id: Option<i32>, name: Option<&str>) -> CreateCommentDto {
    CreateCommentDto {
        post_id: 5,
        user_id,
        author_name: name.map(String::from),
        author_email: Some(String::from("x@y.z")),
        content: String::from("hi"),
    }
}

fn identity(sub: &str) -> Option<Claims> {
    Some(Claims {
        sub: String::from(sub),
        exp: 2,
        iat: 1,
        role: String::from("user"),
        username: String::from("ada"),
    })
}

#[test]
fn comments_are_attributed_to_the_verified_subject() {
    let out = attribute(comment(None, None), &identity("42"));
    assert_eq!(out.user_id, Some(42));
    assert_eq!(out.author_name, None);
    assert_eq!(out.post_id, 5);
    assert_eq!(out.author_email.as_deref(), Some("x@y.z"));
    assert_eq!(out.content, "hi");

    let out = attribute(comment(Some(9), Some("eve")), &identity("42"));
    assert_eq!(out.user_id, Some(42));
    assert_eq!(out.author_name.as_deref(), Some("eve"));
}

#[test]
fn comments_without_a_usable_subject_keep_what_they_name() {
    for sub in ["0", "-4", "abc", ""] {
        let out = attribute(comment(Some(9), None), &identity(sub));
        assert_eq!(out.user_id, Some(9));
        assert_eq!(out.author_name, None);
    }
    let out = attribute(comment(Some(9), None), &None);
    assert_eq!(out.user_id, Some(9));
}

#[test]
fn comments_of_nobody_are_anonymous() {
    let out = attribute(comment(None, None), &None);
    assert_eq!(out.user_id, None);
    assert_eq!(out.author_name.as_deref(), Some("An\u{f3}nimo"));
    let out = attribute(comment(None, Some("eve")), &None);
    assert_eq!(out.author_name.as_deref(), Some("eve"));
    let out = attribute(comment(None, Some("")), &identity("x"));
    assert_eq!(out.author_name.as_deref(), Some(""));
}

#[test]
fn comment_content_rules() {
    assert!(check_content("hi").is_ok());
    assert_eq!(
        fault(check_content("  \n")),
        (FailureKind::Validation, String::from("El contenido no puede estar vac\u{ed}o"))
    );
    assert!(check_changed_content(&None).is_ok());
    assert!(check_changed_content(&Some(String::from(" "))).is_ok());
    assert_eq!(
        fault(check_changed_content(&Some(String::new()))).1,
        "El contenido no puede estar vac\u{ed}o"
    );
}

#[test]
fn comment_needs_its_post() {
    assert!(check_post_exists(5, true).is_ok());
    assert_eq!(
        fault(check_post_exists(5, false)),
        (FailureKind::Validation, String::from("El post con ID 5 no existe"))
    );
}

#[test]
fn author_of_a_user_comment_is_the_account() {
    let account = || Some(Account { username: String::from("ada"), email: String::from("ada@example.org") });
    let a = resolve_author(Some(1), Some(String::from("ghost")), None, account()).unwrap();
    assert_eq!(a.name.as_deref(), Some("ada"));
    assert_eq!(a.email.as_deref(), Some("ada@example.org"));
    let a = resolve_author(Some(1), None, Some(String::from("other@example.org")), account()).unwrap();
    assert_eq!(a.name.as_deref(), Some("ada"));
    assert_eq!(a.email.as_deref(), Some("other@example.org"));
    assert_eq!(
        fault(resolve_author(Some(8), Some(String::from("ghost")), None, None)),
        (FailureKind::Validation, String::from("El usuario con ID 8 no existe"))
    );
}

#[test]
fn author_of_an_anonymous_comment_needs_a_name() {
    let a = resolve_author(None, Some(String::from("eve")), None, None).unwrap();
    assert_eq!(a.name.as_deref(), Some("eve"));
    assert_eq!(a.email, None);
    let a = resolve_author(None, Some(String::from("eve")), Some(String::from("e@x.y")), None).unwrap();
    assert_eq!(a.email.as_deref(), Some("e@x.y"));
    for name in [None, Some(String::new()), Some(String::from("  "))] {
        assert_eq!(
            fault(resolve_author(None, name, None, None)),
            (
                FailureKind::Validation,
                String::from("Se requiere un nombre de autor para comentarios an\u{f3}nimos")
            )
        );
    }
}

fn post(title: &str, body: &str) -> CreatePostDto {
    CreatePostDto { title: String::from(title), body: String::from(body), slug: None, category_ids: None }
}

#[test]
fn post_rules_in_order() {
    assert!(check_post(&post("t", "b")).is_ok());
    assert_eq!(
        fault(check_post(&post(" ", " "))),
        (FailureKind::Validation, String::from("El t\u{ed}tulo no puede estar vac\u{ed}o"))
    );
    assert_eq!(
        fault(check_post(&post("t", ""))),
        (FailureKind::Validation, String::from("El contenido no puede estar vac\u{ed}o"))
    );
}

#[test]
fn category_rule() {
    let c = |name: &str| CreateCategoryDto { name: String::from(name), slug: None, description: None };
    assert!(check_category(&c("News")).is_ok());
    assert_eq!(
        fault(check_category(&c("\t"))),
        (FailureKind::Validation, String::from("El nombre no puede estar vac\u{ed}o"))
    );
}

#[test]
fn slug_of_a_new_record() {
    assert_eq!(choose_slug(None, "Hello World"), "hello-world");
    assert_eq!(choose_slug(Some(String::from("  ")), "Hello World"), "hello-world");
    assert_eq!(choose_slug(Some(String::new()), "Hello World"), "hello-world");
    assert_eq!(choose_slug(Some(String::from("My Slug")), "Hello World"), "My Slug");
    assert_eq!(choose_slug(None, "???"), "post");
}

#[test]
fn slug_of_a_changed_record() {
    let title = Some(String::from("New Title"));
    assert_eq!(choose_changed_slug(&title, None).as_deref(), Some("new-title"));
    assert_eq!(choose_changed_slug(&title, Some(String::from("kept"))).as_deref(), Some("kept"));
    assert_eq!(choose_changed_slug(&title, Some(String::new())).as_deref(), Some(""));
    assert_eq!(choose_changed_slug(&None, None), None);
    assert_eq!(choose_changed_slug(&None, Some(String::from("s"))).as_deref(), Some("s"));

    assert_eq!(choose_changed_post_slug(&title, None, true).as_deref(), Some("new-title"));
    assert_eq!(choose_changed_post_slug(&title, None, false), None);
    assert_eq!(choose_changed_post_slug(&title, Some(String::from("s")), false).as_deref(), Some("s"));
}

#[test]
fn taken_slugs_are_refused_by_name() {
    assert!(check_post_slug_free("s", false).is_ok());
    assert_eq!(
        fault(check_post_slug_free("s", true)),
        (FailureKind::Validation, String::from("Ya existe un post con el slug 's'"))
    );
    assert!(check_category_slug_free("s", false).is_ok());
    assert_eq!(
        fault(check_category_slug_free("s", true)),
        (FailureKind::Validation, String::from("Ya existe una categor\u{ed}a con el slug 's'"))
    );
}

#[test]
fn filing_under_categories() {
    assert!(!has_categories(&None));
    assert!(!has_categories(&Some(vec![])));
    assert!(has_categories(&Some(vec![3])));
    assert_eq!(category_links(7, &vec![]), vec![]);
    assert_eq!(category_links(7, &vec![3, 1, 3]), vec![(7, 3), (7, 1), (7, 3)]);
}

#[test]
fn statuses_of_operations() {
    let e = |kind: FailureKind| match kind {
        FailureKind::Database => AppError::DatabaseError(String::from("d")),
        FailureKind::Io => AppError::IoError(String::from("d")),
        FailureKind::NotFound => AppError::NotFound(String::from("d")),
        FailureKind::Validation => AppError::ValidationError(String::from("d")),
        FailureKind::Authentication => AppError::AuthenticationError(String::from("d")),
        FailureKind::Authorization => AppError::AuthorizationError(String::from("d")),
        FailureKind::Internal => AppError::InternalServerError(String::from("d")),
    };
    let kinds = [
        FailureKind::Database,
        FailureKind::Io,
        FailureKind::NotFound,
        FailureKind::Validation,
        FailureKind::Authentication,
        FailureKind::Authorization,
        FailureKind::Internal,
    ];
    let table = [
        (Operation::Login, 200, [500, 500, 404, 500, 401, 500, 500]),
        (Operation::Create, 201, [500, 500, 500, 400, 500, 500, 500]),
        (Operation::Read, 200, [500, 500, 404, 500, 500, 500, 500]),
        (Operation::List, 200, [500, 500, 500, 500, 500, 500, 500]),
        (Operation::Update, 200, [500, 500, 404, 400, 500, 500, 500]),
        (Operation::Delete, 204, [500, 500, 404, 500, 500, 500, 500]),
    ];
    for (op, success, failures) in table {
        assert_eq!(op.success_status(), success);
        for (kind, status) in kinds.iter().zip(failures) {
            let failure = e(*kind);
            assert_eq!(op.failure_status(&failure), status);
            assert_eq!(op.is_reported(*kind), status != 500);
            let body = op.failure_body(&failure, "fallback");
            assert_eq!(body, if status == 500 { "fallback" } else { "d" });
        }
    }
}

#[test]
fn missing_records_by_key() {
    let gone = || StoreFailure { not_found: true, text: String::from("Record not found") };
    let down = || StoreFailure { not_found: false, text: String::from("timeout") };
    let e = Record::Category.lookup_by_failed(Key::Slug, "news", gone());
    assert_eq!(
        (e.failure_kind(), e.detail_text()),
        (FailureKind::NotFound, "Categor\u{ed}a con slug 'news' no encontrada")
    );
    let e = Record::Post.lookup_by_failed(Key::Slug, "hello", gone());
    assert_eq!(e.detail_text(), "Post con slug 'hello' no encontrado");
    let e = Record::User.lookup_by_failed(Key::Email, "a@b.c", gone());
    assert_eq!(e.detail_text(), "Usuario con email 'a@b.c' no encontrado");
    let e = Record::User.lookup_by_failed(Key::Email, "a@b.c", down());
    assert_eq!((e.failure_kind(), e.detail_text()), (FailureKind::Database, "timeout"));
}

#[test]
fn slug_lookup_of_a_post() {
    assert_eq!(
        fault(check_post_slug_lookup("s", Ok(()))),
        (FailureKind::Validation, String::from("Ya existe un post con el slug 's'"))
    );
    let gone = StoreFailure { not_found: true, text: String::from("Record not found") };
    assert!(check_post_slug_lookup("s", Err(gone)).is_ok());
    let down = StoreFailure { not_found: false, text: String::from("timeout") };
    assert_eq!(
        fault(check_post_slug_lookup("s", Err(down))),
        (FailureKind::Database, String::from("timeout"))
    );
}

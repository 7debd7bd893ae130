use hubbitos_backend::comment_feed::MemoryCommentFeed;
use hubbitos_backend::entities::{Article, ArticleTag, Comment, CommentReport, CommentWithAuthor, User};
use hubbitos_backend::errors::DomainError;
use hubbitos_backend::pagination::PaginationResponse;
use hubbitos_backend::repository::{MemoryRepository, Repository};
use hubbitos_backend::role::Role;
use hubbitos_backend::services::delete_article_service::{DeleteArticleParams, DeleteArticleService};
use hubbitos_backend::services::delete_article_tag_service::{DeleteArticleTagParams, DeleteArticleTagService};
use hubbitos_backend::services::delete_comment_report_service::{
    DeleteCommentReportParams, DeleteCommentReportService,
};
use hubbitos_backend::services::fetch_many_comments_with_author_service::{
    FetchManyArticleCommentsWithAuthorParams, FetchManyArticleCommentsWithAuthorService,
};
use hubbitos_backend::services::get_user_service::{GetUserService, GetUserServiceParams};
use hubbitos_backend::services::toggle_comment_visibility_service::{
    ToggleCommentVisibilityParams, ToggleCommentVisibilityService,
};

fn user_store(users: Vec<User>) -> MemoryRepository<u128, User> {
    let mut repo = MemoryRepository::new();
    for u in users {
        repo.save(u).unwrap();
    }
    repo
}

fn article_service(
    role: Option<Role>,
) -> (DeleteArticleService<MemoryRepository<u128, Article>, MemoryRepository<u128, User>>, u128, u128) {
    let actor = User::new_from_existing(7, "Fake name".to_string(), "password".to_string(), 0, None, role);
    let actor_id = actor.id;
    let article = Article::new(
        actor_id,
        "Título inicial".to_string(),
        "Conteúdo inicial".to_string(),
        "coverurl.inicial".to_string(),
    );
    let article_id = article.id;
    let mut articles = MemoryRepository::new();
    articles.save(article).unwrap();
    let service = DeleteArticleService::new(Box::new(articles), Box::new(user_store(vec![actor])));
    (service, actor_id, article_id)
}

fn report(id: i32, message: &str) -> CommentReport {
    CommentReport::new_from_existing(id, uuid::Uuid::new_v4().as_u128(), uuid::Uuid::new_v4().as_u128(), message.into(), None, 0)
}

#[test]
fn delete_article_service_test() {
    let (mut service, user_id, article_id) = article_service(Some(Role::Principal));
    assert_eq!(1, service.article_repository().len());

    let result = service.exec(DeleteArticleParams { user_id, article_id });

    assert!(result.is_ok());
    assert_eq!(0, service.article_repository().len());
}

#[test]
fn deleted_article_is_no_longer_found() {
    let (mut service, user_id, article_id) = article_service(Some(Role::Principal));
    assert!(service.exec(DeleteArticleParams { user_id, article_id }).is_ok());
    assert!(service.article_repository().find_by_id(article_id).unwrap().is_none());
}

#[test]
fn user_role_cannot_delete_article() {
    let (mut service, user_id, article_id) = article_service(Some(Role::User));
    let result = service.exec(DeleteArticleParams { user_id, article_id });
    assert!(matches!(result, Err(DomainError::Unauthorized(_))));
    assert!(service.article_repository().find_by_id(article_id).unwrap().is_some());
}

#[test]
fn actor_without_role_cannot_delete_article() {
    let (mut service, user_id, article_id) = article_service(None);
    let result = service.exec(DeleteArticleParams { user_id, article_id });
    assert!(matches!(result, Err(DomainError::Unauthorized(_))));
    assert_eq!(1, service.article_repository().len());
}

#[test]
fn unknown_actor_cannot_delete_article() {
    let (mut service, _, article_id) = article_service(Some(Role::Ceo));
    let result = service.exec(DeleteArticleParams { user_id: 999, article_id });
    assert!(matches!(result, Err(DomainError::Unauthorized(_))));
    assert_eq!(1, service.article_repository().len());
}

#[test]
fn deleting_missing_article_is_not_found() {
    let (mut service, user_id, _) = article_service(Some(Role::Principal));
    let result = service.exec(DeleteArticleParams { user_id, article_id: 12345 });
    let err = result.unwrap_err();
    assert!(matches!(err, DomainError::ResourceNotFound(_)));
    assert_eq!(404, err.code());
    assert_eq!("Resource not found.", err.message());
    assert_eq!(1, service.article_repository().len());
}

#[test]
fn failing_user_store_is_internal_error() {
    let actor = User::new_from_existing(7, "Fake name".into(), "password".into(), 0, None, Some(Role::Ceo));
    let mut users = user_store(vec![actor]);
    users.set_available(false);
    let article = Article::new(7, "t".into(), "c".into(), "u".into());
    let article_id = article.id;
    let mut articles = MemoryRepository::new();
    articles.save(article).unwrap();
    let mut service = DeleteArticleService::new(Box::new(articles), Box::new(users));
    let err = service.exec(DeleteArticleParams { user_id: 7, article_id }).unwrap_err();
    assert!(matches!(err, DomainError::Internal(_)));
    assert_eq!(500, err.code());
    assert_eq!("Internal server error.", err.message());
    assert_eq!(1, service.article_repository().len());
}

#[test]
fn test_if_staff_can_delete_article_tag() {
    let mut tags = MemoryRepository::new();
    tags.save(ArticleTag::new_from_existing(1, "Foo".into())).unwrap();
    let mut sut = DeleteArticleTagService::new(tags);

    let response = sut.exec(DeleteArticleTagParams { tag_id: 1, user_role: &Role::Ceo });

    assert!(response.is_ok());
    assert_eq!(
        0,
        sut.repository().len(),
        "Expected database to be empty after the successful delete of the article tag."
    );
}

#[test]
fn test_if_non_authorized_user_cannot_delete_article_tag() {
    let mut tags = MemoryRepository::new();
    tags.save(ArticleTag::new_from_existing(1, "Foo".into())).unwrap();
    let mut sut = DeleteArticleTagService::new(tags);

    let response = sut.exec(DeleteArticleTagParams { tag_id: 1, user_role: &Role::Principal });

    assert!(response.is_err());
    assert_eq!(
        1,
        sut.repository().len(),
        "Expected database not to be empty after delete request being rejected."
    );
}

#[test]
fn deleting_absent_tag_succeeds_without_change() {
    let mut tags = MemoryRepository::new();
    tags.save(ArticleTag::new_from_existing(1, "Foo".into())).unwrap();
    let mut sut = DeleteArticleTagService::new(tags);
    assert!(sut.exec(DeleteArticleTagParams { tag_id: 2, user_role: &Role::Ceo }).is_ok());
    assert_eq!(1, sut.repository().len());
    assert_eq!("Foo", sut.repository().find_by_id(1).unwrap().unwrap().value);
}

#[test]
fn delete_comment_report_service_test() {
    let mut reports = MemoryRepository::new();
    let comment_report_1 = report(1, "Esse comentário é tóxico.");
    let comment_report_id_1 = comment_report_1.id;
    let comment_report_2 = report(2, "Estão me ofendendo neste comentário!");
    let comment_report_id_2 = comment_report_2.id;
    reports.save(comment_report_1).unwrap();
    reports.save(comment_report_2).unwrap();

    let mut sut = DeleteCommentReportService::new(Box::new(reports));

    let result = sut.exec(DeleteCommentReportParams { staff_role: Role::Principal, com_report_id: comment_report_id_1 });

    assert!(result.is_ok());
    assert!(sut.repository().find_by_id(comment_report_id_1).unwrap().is_none());
    assert_eq!(1, sut.repository().len());

    let result_2 = sut.exec(DeleteCommentReportParams { staff_role: Role::User, com_report_id: comment_report_id_2 });

    assert!(result_2.is_err());
    assert_eq!(comment_report_id_2, sut.repository().find_by_id(comment_report_id_2).unwrap().unwrap().id);
}

#[test]
fn deleting_absent_report_is_bad_request() {
    let mut reports = MemoryRepository::new();
    reports.save(report(1, "Esse comentário é tóxico.")).unwrap();
    let mut sut = DeleteCommentReportService::new(Box::new(reports));
    let err = sut.exec(DeleteCommentReportParams { staff_role: Role::Ceo, com_report_id: 5 }).unwrap_err();
    assert!(matches!(err, DomainError::BadRequest(_)));
    assert_eq!(400, err.code());
    assert_eq!("Bad request.", err.message());
    assert_eq!(1, sut.repository().len());
}

#[test]
fn user_role_cannot_delete_report() {
    let mut reports = MemoryRepository::new();
    reports.save(report(1, "Esse comentário é tóxico.")).unwrap();
    let mut sut = DeleteCommentReportService::new(Box::new(reports));
    let err = sut.exec(DeleteCommentReportParams { staff_role: Role::User, com_report_id: 1 }).unwrap_err();
    assert!(matches!(err, DomainError::Unauthorized(_)));
    assert_eq!(401, err.code());
    assert_eq!("Unauthorized.", err.message());
    assert!(sut.repository().find_by_id(1).unwrap().is_some());
}

#[test]
fn fetch_many_comments_with_author_service_test() {
    let mut feed = MemoryCommentFeed::new();
    let user = User::new("Floricultor".to_string(), "password".to_string(), Some(Role::Principal));
    let article = Article::new(user.id, "Título da notícia".into(), "Conteúdo da notícia".into(), "url do cover".into());
    let article_id = article.id;

    let author = |u: &User| {
        User::new_from_existing(u.id, u.name.clone(), u.password.clone(), u.created_at, u.updated_at, u.role)
    };
    feed.push(CommentWithAuthor::new(Some(article_id), "Comment 1 content here".to_string(), author(&user)));
    feed.push(CommentWithAuthor::new(Some(article_id), "Comment 2 content here".to_string(), author(&user)));
    feed.push(CommentWithAuthor::new_from_existing(
        uuid::Uuid::new_v4().as_u128(),
        Some(article_id),
        "Comment 2 content here".into(),
        false,
        0,
        author(&user),
    ));

    let service = FetchManyArticleCommentsWithAuthorService::new(Box::new(feed));

    let response = service
        .exec(article_id, FetchManyArticleCommentsWithAuthorParams { page: None, per_page: None })
        .unwrap();

    assert_eq!(2, response.data.len());
    assert_eq!(response.pagination, PaginationResponse { current_page: 1, total_pages: 1, total_items: 2 });
    assert_eq!(response.data[0].content, "Comment 1 content here");
    assert_eq!(response.data[1].content, "Comment 2 content here");
}

#[test]
fn fetch_many_comments_second_page() {
    let mut feed = MemoryCommentFeed::new();
    let writer = User::new_from_existing(3, "Floricultor".into(), "password".into(), 0, None, None);
    for i in 0..5u128 {
        feed.push(CommentWithAuthor::new_from_existing(
            100 + i,
            Some(42),
            format!("comment {}", i),
            true,
            0,
            User::new_from_existing(3, writer.name.clone(), writer.password.clone(), 0, None, None),
        ));
    }
    feed.push(CommentWithAuthor::new_from_existing(
        200,
        Some(43),
        "elsewhere".into(),
        true,
        0,
        User::new_from_existing(3, writer.name.clone(), writer.password.clone(), 0, None, None),
    ));
    let service = FetchManyArticleCommentsWithAuthorService::new(Box::new(feed));
    let response = service
        .exec(42, FetchManyArticleCommentsWithAuthorParams { page: Some(2), per_page: Some(2) })
        .unwrap();
    assert_eq!(response.pagination, PaginationResponse { current_page: 2, total_items: 5, total_pages: 3 });
    assert_eq!(vec![102u128, 103], response.data.iter().map(|c| c.id).collect::<Vec<_>>());

    let past_end = service
        .exec(42, FetchManyArticleCommentsWithAuthorParams { page: Some(9), per_page: Some(2) })
        .unwrap();
    assert!(past_end.data.is_empty());
    assert_eq!(past_end.pagination.current_page, 9);
}

#[test]
fn fetch_many_comments_failing_store_is_internal() {
    let mut feed = MemoryCommentFeed::new();
    feed.set_available(false);
    let service = FetchManyArticleCommentsWithAuthorService::new(Box::new(feed));
    let result = service.exec(1, FetchManyArticleCommentsWithAuthorParams { page: None, per_page: None });
    assert!(matches!(result, Err(DomainError::Internal(_))));
}

#[test]
fn test_get_user_service() {
    let user = User::new("Kaio".into(), "12345".into(), Some(Role::Coord));
    let user_id = user.id;
    let sut = GetUserService::new(Box::new(user_store(vec![user])));

    let success_result = sut.exec(GetUserServiceParams { user_id }).unwrap();
    assert!(success_result.is_some());

    let failling_result = sut.exec(GetUserServiceParams { user_id: uuid::Uuid::new_v4().as_u128() }).unwrap();
    assert!(failling_result.is_none());
}

fn toggle_fixture() -> (
    ToggleCommentVisibilityService<MemoryRepository<u128, User>, MemoryRepository<u128, Comment>>,
    u128,
    u128,
    u128,
) {
    let editor_user = User::new("Floricultor".into(), "123".into(), Some(Role::Editor));
    let coord_user = User::new("Floricultor".into(), "123".into(), Some(Role::Coord));
    let comment = Comment::new(uuid::Uuid::new_v4().as_u128(), Some(uuid::Uuid::new_v4().as_u128()), "Comment content haha".into());
    let (editor_id, coord_id, comment_id) = (editor_user.id, coord_user.id, comment.id);
    let mut comments = MemoryRepository::new();
    comments.save(comment).unwrap();
    let users = user_store(vec![editor_user, coord_user]);
    (ToggleCommentVisibilityService::new(Box::new(users), Box::new(comments)), editor_id, coord_id, comment_id)
}

#[test]
fn toggle_comment_visibility_service_test() {
    let (mut sut, editor_id, coord_id, comment_id) = toggle_fixture();

    let res = sut.exec(ToggleCommentVisibilityParams { user_id: editor_id, comment_id });

    assert_eq!(true, res.is_err());
    assert_eq!(true, sut.comment_repository().find_by_id(comment_id).unwrap().unwrap().is_active);

    let res = sut.exec(ToggleCommentVisibilityParams { user_id: coord_id, comment_id });

    assert_eq!(false, res.unwrap().is_active);
}

#[test]
fn toggling_twice_restores_visibility() {
    let (mut sut, _, coord_id, comment_id) = toggle_fixture();
    let first = sut.exec(ToggleCommentVisibilityParams { user_id: coord_id, comment_id }).unwrap();
    assert!(!first.is_active);
    assert!(!sut.comment_repository().find_by_id(comment_id).unwrap().unwrap().is_active);
    let second = sut.exec(ToggleCommentVisibilityParams { user_id: coord_id, comment_id }).unwrap();
    assert!(second.is_active);
    assert!(sut.comment_repository().find_by_id(comment_id).unwrap().unwrap().is_active);
}

#[test]
fn toggling_missing_comment_is_not_found() {
    let (mut sut, _, coord_id, _) = toggle_fixture();
    let res = sut.exec(ToggleCommentVisibilityParams { user_id: coord_id, comment_id: 5 });
    assert!(matches!(res, Err(DomainError::ResourceNotFound(_))));
}

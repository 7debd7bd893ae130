use hubbitos_backend::entities::{Article, ArticleTag, Comment, CommentReport, User};
use hubbitos_backend::errors::{generate_service_internal_error, DomainError, StorageError, UnauthorizedError};
use hubbitos_backend::pagination::{paginate, resolve_parameters, total_pages, PaginationResponse, DEFAULT_PER_PAGE};
use hubbitos_backend::permissions::{authorize, verify_role_has_permission, RolePermissions};
use hubbitos_backend::politics::ArticlePolitics;
use hubbitos_backend::role::Role;
use hubbitos_backend::errors::{BadRequestError, InternalError, ResourceNotFoundError};
use hubbitos_backend::repository::{MemoryRepository, Repository};
use hubbitos_backend::services::actor_step;
use hubbitos_backend::services::delete_article_service::article_step;
use hubbitos_backend::services::delete_article_tag_service::{DeleteArticleTagParams, DeleteArticleTagService};
use hubbitos_backend::services::delete_article_tag_service::{tag_step, TagDeletion};
use hubbitos_backend::services::delete_comment_report_service::report_step;
use hubbitos_backend::services::delete_comment_report_service::{DeleteCommentReportParams, DeleteCommentReportService};
use hubbitos_backend::services::toggle_comment_visibility_service::comment_step;

const ORDER: [Role; 7] =
    [Role::User, Role::Writer, Role::Editor, Role::Coord, Role::Admin, Role::Principal, Role::Ceo];

const ALL: [RolePermissions; 18] = [
    RolePermissions::UpdateUser,
    RolePermissions::ChangeUserPassword,
    RolePermissions::CreateArticle,
    RolePermissions::UpdateArticle,
    RolePermissions::ApproveArticle,
    RolePermissions::DisapproveArticle,
    RolePermissions::DeleteArticle,
    RolePermissions::InactivateComment,
    RolePermissions::DeleteComment,
    RolePermissions::SolveReport,
    RolePermissions::DeleteReport,
    RolePermissions::CreateNewTeamRole,
    RolePermissions::UpdateTeamRole,
    RolePermissions::DeleteTeamRole,
    RolePermissions::CreateTeamUser,
    RolePermissions::UpdateTeamUser,
    RolePermissions::DeleteTeamUser,
    RolePermissions::DeleteArticleTag,
];

#[test]
fn permissions_grow_along_the_hierarchy() {
    for pair in ORDER.windows(2) {
        let lo = RolePermissions::get_from_role(&pair[0]);
        let hi = RolePermissions::get_from_role(&pair[1]);
        assert!(lo.iter().all(|p| hi.contains(p)));
        assert!(hi.len() > lo.len());
    }
}

#[test]
fn documented_increments() {
    assert!(RolePermissions::get_from_role(&Role::User).is_empty());
    assert_eq!(RolePermissions::get_from_role(&Role::Writer), vec![RolePermissions::CreateArticle]);
    let editor = RolePermissions::get_from_role(&Role::Editor);
    assert_eq!(editor.len(), 3);
    assert!(editor.contains(&RolePermissions::ApproveArticle));
    let coord = RolePermissions::get_from_role(&Role::Coord);
    assert!(coord.contains(&RolePermissions::InactivateComment));
    assert!(!coord.contains(&RolePermissions::UpdateUser));
    let admin = RolePermissions::get_from_role(&Role::Admin);
    assert!(admin.contains(&RolePermissions::DeleteComment));
    assert!(!admin.contains(&RolePermissions::DeleteArticle));
    let principal = RolePermissions::get_from_role(&Role::Principal);
    assert!(principal.contains(&RolePermissions::DeleteReport));
    assert!(!principal.contains(&RolePermissions::DeleteTeamRole));
    let ceo = RolePermissions::get_from_role(&Role::Ceo);
    assert_eq!(ceo.len(), ALL.len());
}

#[test]
fn guard_matches_resolved_set() {
    for role in ORDER.iter() {
        let resolved = RolePermissions::get_from_role(role);
        for p in ALL.iter() {
            assert_eq!(verify_role_has_permission(role, *p), resolved.contains(p));
            assert_eq!(authorize(Some(*role), *p), resolved.contains(p));
        }
    }
}

#[test]
fn absent_role_has_no_permission() {
    for p in ALL.iter() {
        assert!(!authorize(None, *p));
    }
}

#[test]
fn role_levels_follow_the_order() {
    for (i, role) in ORDER.iter().enumerate() {
        assert_eq!(role.level() as usize, i);
        assert_eq!(Role::at_level(i as u8), *role);
    }
}

#[test]
fn page_zero_is_clamped_and_pages_rounded_up() {
    let r = paginate(Some(0), Some(9), 20);
    assert_eq!(r, PaginationResponse { current_page: 1, total_items: 20, total_pages: 3 });
}

#[test]
fn defaults_fit_two_items_in_one_page() {
    assert!(DEFAULT_PER_PAGE >= 2);
    let r = paginate(None, None, 2);
    assert_eq!(r, PaginationResponse { current_page: 1, total_items: 2, total_pages: 1 });
}

#[test]
fn page_count_edges() {
    assert_eq!(total_pages(0, 9), 0);
    assert_eq!(total_pages(18, 9), 2);
    assert_eq!(total_pages(19, 9), 3);
    assert_eq!(total_pages(5, 0), u32::MAX);
    assert_eq!(total_pages(0, 0), 0);
    assert_eq!(total_pages(u64::MAX, 1), u32::MAX);
    let params = resolve_parameters(Some(4), None);
    assert_eq!(params.page, 4);
    assert_eq!(params.items_per_page, DEFAULT_PER_PAGE);
    assert!(params.query.is_none());
}

#[test]
fn error_codes_and_messages() {
    let e = UnauthorizedError::new();
    assert_eq!(*e.code(), 401);
    assert_eq!(e.message(), "Unauthorized.");
    assert_eq!(DomainError::not_found().code(), 404);
    assert_eq!(DomainError::bad_request().code(), 400);
    assert_eq!(DomainError::internal().code(), 500);
    assert_eq!(DomainError::unauthorized().message(), "Unauthorized.");
    let converted = generate_service_internal_error("context", &StorageError { detail: "boom".into() });
    assert!(matches!(converted, DomainError::Internal(_)));
    assert_eq!(converted.message(), "Internal server error.");
}

#[test]
fn article_recency_window() {
    let mut article = Article::new(1, "t".into(), "c".into(), "u".into());
    article.created_at = 1_000_000;
    let make = |a: &Article| Article {
        id: a.id,
        author_id: a.author_id,
        title: a.title.clone(),
        content: a.content.clone(),
        cover_url: a.cover_url.clone(),
        created_at: a.created_at,
    };
    assert!(ArticlePolitics::article_is_recent(make(&article), 1_000_000 + 48 * 3600));
    assert!(ArticlePolitics::article_is_recent(make(&article), 1_000_000 + 49 * 3600 - 1));
    assert!(!ArticlePolitics::article_is_recent(make(&article), 1_000_000 + 49 * 3600));
    assert!(ArticlePolitics::article_is_recent(make(&article), 0));
    assert!(!ArticlePolitics::article_is_recent(make(&article), i64::MAX));
}

#[test]
fn new_entities_get_distinct_ids() {
    let a = User::new("a".into(), "p".into(), None);
    let b = User::new("a".into(), "p".into(), None);
    assert_ne!(a.id, b.id);
    assert!(a.created_at > 0);
    let c = Comment::new(a.id, None, "x".into());
    assert!(c.is_active);
    assert_ne!(c.id, a.id);
}

#[test]
fn toggle_flips_only_visibility() {
    let mut c = Comment::new(1, Some(2), "x".into());
    let id = c.id;
    c.toggle_visibility();
    assert!(!c.is_active);
    c.toggle_visibility();
    assert!(c.is_active);
    assert_eq!(c.id, id);
    assert_eq!(c.content, "x");
}

#[test]
fn actor_step_decides_on_the_lookup() {
    let with_role = |role| Some(User::new_from_existing(1, "n".into(), "p".into(), 0, None, role));
    assert!(actor_step(with_role(Some(Role::Principal)), RolePermissions::DeleteArticle).is_ok());
    assert!(matches!(
        actor_step(with_role(Some(Role::User)), RolePermissions::DeleteArticle),
        Err(DomainError::Unauthorized(_))
    ));
    assert!(matches!(actor_step(with_role(None), RolePermissions::DeleteArticle), Err(DomainError::Unauthorized(_))));
    assert!(matches!(actor_step(None, RolePermissions::DeleteArticle), Err(DomainError::Unauthorized(_))));
}

#[test]
fn target_steps_follow_each_policy() {
    assert!(matches!(article_step(None), Err(DomainError::ResourceNotFound(_))));
    let a = Article::new(1, "t".into(), "c".into(), "u".into());
    let id = a.id;
    assert_eq!(article_step(Some(a)).unwrap().id, id);

    assert!(matches!(comment_step(None), Err(DomainError::ResourceNotFound(_))));
    let c = Comment::new(1, None, "x".into());
    let flipped = comment_step(Some(c)).unwrap();
    assert!(!flipped.is_active);

    assert!(matches!(report_step(None), Err(DomainError::BadRequest(_))));
    let rep = CommentReport::new_from_existing(3, 1, 2, "m".into(), None, 0);
    assert_eq!(report_step(Some(rep)).unwrap().id, 3);

    assert!(matches!(tag_step(None), TagDeletion::AlreadyAbsent));
    match tag_step(Some(ArticleTag::new_from_existing(4, "Foo".into()))) {
        TagDeletion::Remove(t) => assert_eq!(t.id, 4),
        TagDeletion::AlreadyAbsent => panic!("a found tag is to be removed"),
    }
}

#[test]
fn error_constructors_carry_code_and_message() {
    assert_eq!(*ResourceNotFoundError::new().code(), 404);
    assert_eq!(ResourceNotFoundError::new().message(), "Resource not found.");
    assert_eq!(*BadRequestError::new().code(), 400);
    assert_eq!(BadRequestError::new().message(), "Bad request.");
    assert_eq!(*InternalError::new().code(), 500);
    assert_eq!(InternalError::new().message(), "Internal server error.");
}

#[test]
fn repeated_deletions_follow_each_policy() {
    let mut tags = MemoryRepository::new();
    tags.save(ArticleTag::new_from_existing(1, "Foo".into())).unwrap();
    let mut tag_service = DeleteArticleTagService::new(tags);
    assert!(tag_service.exec(DeleteArticleTagParams { user_role: &Role::Ceo, tag_id: 1 }).is_ok());
    assert!(tag_service.exec(DeleteArticleTagParams { user_role: &Role::Ceo, tag_id: 1 }).is_ok());
    assert_eq!(tag_service.repository().len(), 0);

    let mut reports = MemoryRepository::new();
    reports.save(CommentReport::new_from_existing(1, 1, 2, "m".into(), None, 0)).unwrap();
    let mut report_service = DeleteCommentReportService::new(Box::new(reports));
    let params = || DeleteCommentReportParams { staff_role: Role::Principal, com_report_id: 1 };
    assert!(report_service.exec(params()).is_ok());
    assert!(matches!(report_service.exec(params()), Err(DomainError::BadRequest(_))));
    assert_eq!(report_service.repository().len(), 0);
}

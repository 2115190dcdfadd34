use axumbooru::config::{Config, FrontendConfig, Privileges, Smtp, Thumbnails};
use axumbooru::errors::{ApiError, DatabaseError, DeleteUserTokenError, GetUserError, TestError};
use axumbooru::models::{MiniPost, PostModel, UploadResponse, UserHttpQuery};
use axumbooru::ranks::{AvatarStyle, UserRank};
use axumbooru::strutil::{split_all, split_once_str, to_hex, u64_to_dec};

#[test]
fn hex_encoding() {
    assert_eq!(to_hex(&[]), "");
    assert_eq!(to_hex(&[0x00, 0x0f, 0xa5, 0xff]), "000fa5ff");
}

#[test]
fn decimal_rendering() {
    assert_eq!(u64_to_dec(0), "0");
    assert_eq!(u64_to_dec(7), "7");
    assert_eq!(u64_to_dec(42), "42");
    assert_eq!(u64_to_dec(1000000), "1000000");
    assert_eq!(u64_to_dec(u64::MAX), "18446744073709551615");
}

#[test]
fn split_once_behaviour() {
    assert_eq!(
        split_once_str("a.b.c", '.'),
        Some(("a".to_string(), "b.c".to_string()))
    );
    assert_eq!(split_once_str("abc", '.'), None);
    assert_eq!(split_once_str("", '.'), None);
    assert_eq!(
        split_once_str(".lead", '.'),
        Some(("".to_string(), "lead".to_string()))
    );
}

#[test]
fn split_all_behaviour() {
    assert_eq!(split_all("a,b,c", ','), vec!["a", "b", "c"]);
    assert_eq!(split_all("plain", ','), vec!["plain"]);
    assert_eq!(split_all("x,,y", ','), vec!["x", "", "y"]);
    assert_eq!(split_all("", ','), vec![""]);
}

#[test]
fn user_rank_string_round_trips() {
    let ranks = [
        UserRank::Administrator,
        UserRank::Moderator,
        UserRank::Power,
        UserRank::Regular,
        UserRank::Restricted,
        UserRank::Anonymous,
        UserRank::Nobody,
    ];
    for rank in ranks {
        assert_eq!(UserRank::from_str(&rank.to_string()), Ok(rank));
    }
    assert_eq!(UserRank::to_string(&UserRank::Administrator), "administrator");
    assert_eq!(UserRank::from_str("emperor"), Err(()));
}

#[test]
fn avatar_style_string_round_trips() {
    assert_eq!(AvatarStyle::to_string(&AvatarStyle::Gravatar), "gravatar");
    assert_eq!(AvatarStyle::to_string(&AvatarStyle::Manual), "manual");
    assert_eq!(AvatarStyle::from_str("gravatar"), Ok(AvatarStyle::Gravatar));
    assert_eq!(AvatarStyle::from_str("manual"), Ok(AvatarStyle::Manual));
    assert_eq!(AvatarStyle::from_str("painted"), Err(()));
}

#[test]
fn mini_post_from_model() {
    let model = PostModel {
        id: 5,
        type_field: "image".to_string(),
        safety: "safe".to_string(),
        version: 3,
    };
    let mini = MiniPost::from_model(&model, "data/t.jpg".to_string(), 1, 2, 4, Vec::new());
    assert_eq!(mini.id, 5);
    assert_eq!(mini.thumbnail_url, "data/t.jpg");
    assert_eq!(mini.type_field, "image");
    assert_eq!(mini.safety, "safe");
    assert_eq!(mini.score, 1);
    assert_eq!(mini.favorite_count, 2);
    assert_eq!(mini.comment_count, 4);
    assert!(mini.tags.is_empty());
    assert_eq!(mini.version, 3);
}

#[test]
fn user_http_query_default() {
    assert!(!UserHttpQuery::default().bump_login);
}

#[test]
fn upload_response_carries_token() {
    let r = UploadResponse { token: "abc123".to_string() };
    assert_eq!(r.token, "abc123");
}

#[test]
fn api_error_from_conversions() {
    assert_eq!(ApiError::from(TestError::ItsJustForTest), ApiError::Test(TestError::ItsJustForTest));
    assert_eq!(ApiError::from(TestError::SecondEntry), ApiError::Test(TestError::SecondEntry));
    assert_eq!(ApiError::from(DatabaseError), ApiError::Database(DatabaseError));
    assert_eq!(
        ApiError::from(GetUserError::DatabaseError(DatabaseError)),
        ApiError::GetUser(GetUserError::DatabaseError(DatabaseError))
    );
    assert_eq!(
        ApiError::from(DeleteUserTokenError::TokenUserIdDontMatch),
        ApiError::DeleteToken(DeleteUserTokenError::TokenUserIdDontMatch)
    );
    assert_eq!(GetUserError::from(DatabaseError), GetUserError::DatabaseError(DatabaseError));
    assert_eq!(
        DeleteUserTokenError::from(DatabaseError),
        DeleteUserTokenError::DatabaseError(DatabaseError)
    );
}

#[test]
fn get_user_error_holds_the_name() {
    let e = GetUserError::UserNotFound { name: "ghost".to_string(), source: DatabaseError };
    match e {
        GetUserError::UserNotFound { name, .. } => assert_eq!(name, "ghost"),
        _ => panic!("wrong variant"),
    }
}

fn privileges_all(rank: UserRank) -> Privileges {
    Privileges {
        users_create_self: rank,
        users_create_any: rank,
        users_list: rank,
        users_view: rank,
        users_edit_any_name: rank,
        users_edit_any_pass: rank,
        users_edit_any_email: rank,
        users_edit_any_avatar: rank,
        users_edit_any_rank: rank,
        users_edit_self_name: rank,
        users_edit_self_pass: rank,
        users_edit_self_email: rank,
        users_edit_self_avatar: rank,
        users_edit_self_rank: rank,
        users_delete_any: rank,
        users_delete_self: rank,
        user_tokens_list_any: rank,
        user_tokens_list_self: rank,
        user_tokens_create_any: rank,
        user_tokens_create_self: rank,
        user_tokens_edit_any: rank,
        user_tokens_edit_self: rank,
        user_tokens_delete_any: rank,
        user_tokens_delete_self: rank,
        posts_create_anonymous: rank,
        posts_create_identified: rank,
        posts_list: rank,
        posts_reverse_search: rank,
        posts_view: rank,
        posts_view_featured: rank,
        posts_edit_content: rank,
        posts_edit_flags: rank,
        posts_edit_notes: rank,
        posts_edit_relations: rank,
        posts_edit_safety: rank,
        posts_edit_source: rank,
        posts_edit_tags: rank,
        posts_edit_thumbnail: rank,
        posts_feature: rank,
        posts_delete: rank,
        posts_score: rank,
        posts_merge: rank,
        posts_favorite: rank,
        posts_bulk_edit_tags: rank,
        posts_bulk_edit_safety: rank,
        posts_bulk_edit_delete: rank,
        tags_create: rank,
        tags_edit_names: rank,
        tags_edit_category: rank,
        tags_edit_description: rank,
        tags_edit_implications: rank,
        tags_edit_suggestions: rank,
        tags_list: rank,
        tags_view: rank,
        tags_merge: rank,
        tags_delete: rank,
        tag_categories_create: rank,
        tag_categories_edit_name: rank,
        tag_categories_edit_color: rank,
        tag_categories_edit_order: rank,
        tag_categories_list: rank,
        tag_categories_view: rank,
        tag_categories_delete: rank,
        tag_categories_set_default: rank,
        pools_create: rank,
        pools_edit_names: rank,
        pools_edit_category: rank,
        pools_edit_description: rank,
        pools_edit_posts: rank,
        pools_list: rank,
        pools_view: rank,
        pools_merge: rank,
        pools_delete: rank,
        pool_categories_create: rank,
        pool_categories_edit_name: rank,
        pool_categories_edit_color: rank,
        pool_categories_list: rank,
        pool_categories_view: rank,
        pool_categories_delete: rank,
        pool_categories_set_default: rank,
        comments_create: rank,
        comments_delete_any: rank,
        comments_delete_own: rank,
        comments_edit_any: rank,
        comments_edit_own: rank,
        comments_list: rank,
        comments_view: rank,
        comments_score: rank,
        snapshots_list: rank,
        uploads_create: rank,
        uploads_use_downloader: rank,
    }
}

#[test]
fn frontend_config_from_config() {
    let config = Config {
        name: "axumbooru".to_string(),
        domain: "example.org".to_string(),
        listen: "127.0.0.1:6666".to_string(),
        secret: "server-key".to_string(),
        delete_source_files: false,
        contact_email: "admin@example.org".to_string(),
        enable_safety: true,
        tag_name_regex: "^\\S+$".to_string(),
        tag_category_name_regex: "^[^\\s%+#/]+$".to_string(),
        pool_name_regex: "^\\S+$".to_string(),
        pool_category_name_regex: "^[^\\s%+#/]+$".to_string(),
        password_regex: "^.{5,}$".to_string(),
        user_name_regex: "^[a-zA-Z0-9_-]{1,32}$".to_string(),
        allow_broken_uploads: false,
        webhooks: None,
        default_rank: UserRank::Regular,
        thumbnails: Thumbnails {
            avatar_width: 300,
            avatar_height: 300,
            post_width: 300,
            post_height: 300,
        },
        smtp: Smtp {
            enabled: false,
            host: "".to_string(),
            port: 25,
            user: "".to_string(),
            pass: "".to_string(),
            from: "".to_string(),
        },
        privileges: privileges_all(UserRank::Regular),
    };
    let f = FrontendConfig::from_config(config);
    assert_eq!(f.name, "axumbooru");
    assert_eq!(f.user_name_regex, "^[a-zA-Z0-9_-]{1,32}$");
    assert_eq!(f.password_regex, "^.{5,}$");
    assert_eq!(f.tag_name_regex, "^\\S+$");
    assert_eq!(f.tag_category_name_regex, "^[^\\s%+#/]+$");
    assert_eq!(f.default_user_rank, UserRank::Regular);
    assert!(f.enable_safety);
    assert_eq!(f.contact_email, "admin@example.org");
    // Mail sending is on exactly when SMTP is enabled.
    assert!(!f.can_send_mails);
    assert_eq!(f.privileges.users_list, UserRank::Regular);
}

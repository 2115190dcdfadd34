//! The server configuration as the core reads it: plain values already
//! parsed from the configuration file, and the subset of them the frontend
//! is shown.

use vstd::prelude::*;
use crate::ranks::UserRank;

verus! {

/// The server-wide configuration.
#[derive(Debug, Clone)]
pub struct Config {
    pub name: String,
    pub domain: String,
    pub listen: String,
    /// The server-wide signing key the resource locator hashes with.
    pub secret: String,
    pub delete_source_files: bool,
    pub contact_email: String,
    pub enable_safety: bool,
    pub tag_name_regex: String,
    pub tag_category_name_regex: String,
    pub pool_name_regex: String,
    pub pool_category_name_regex: String,
    pub password_regex: String,
    pub user_name_regex: String,
    pub allow_broken_uploads: bool,
    pub webhooks: Option<Vec<String>>,
    pub default_rank: UserRank,
    pub thumbnails: Thumbnails,
    pub smtp: Smtp,
    pub privileges: Privileges,
}

/// The dimensions thumbnails are generated at.
#[derive(Debug, Clone)]
pub struct Thumbnails {
    pub avatar_width: u64,
    pub avatar_height: u64,
    pub post_width: u64,
    pub post_height: u64,
}

/// The outgoing-mail settings.
#[derive(Debug, Clone)]
pub struct Smtp {
    pub enabled: bool,
    pub host: String,
    pub port: u16,
    pub user: String,
    pub pass: String,
    pub from: String,
}

/// The least rank each action requires.
#[derive(Debug, Clone)]
pub struct Privileges {
    pub users_create_self: UserRank,
    pub users_create_any: UserRank,
    pub users_list: UserRank,
    pub users_view: UserRank,
    pub users_edit_any_name: UserRank,
    pub users_edit_any_pass: UserRank,
    pub users_edit_any_email: UserRank,
    pub users_edit_any_avatar: UserRank,
    pub users_edit_any_rank: UserRank,
    pub users_edit_self_name: UserRank,
    pub users_edit_self_pass: UserRank,
    pub users_edit_self_email: UserRank,
    pub users_edit_self_avatar: UserRank,
    pub users_edit_self_rank: UserRank,
    pub users_delete_any: UserRank,
    pub users_delete_self: UserRank,
    pub user_tokens_list_any: UserRank,
    pub user_tokens_list_self: UserRank,
    pub user_tokens_create_any: UserRank,
    pub user_tokens_create_self: UserRank,
    pub user_tokens_edit_any: UserRank,
    pub user_tokens_edit_self: UserRank,
    pub user_tokens_delete_any: UserRank,
    pub user_tokens_delete_self: UserRank,
    pub posts_create_anonymous: UserRank,
    pub posts_create_identified: UserRank,
    pub posts_list: UserRank,
    pub posts_reverse_search: UserRank,
    pub posts_view: UserRank,
    pub posts_view_featured: UserRank,
    pub posts_edit_content: UserRank,
    pub posts_edit_flags: UserRank,
    pub posts_edit_notes: UserRank,
    pub posts_edit_relations: UserRank,
    pub posts_edit_safety: UserRank,
    pub posts_edit_source: UserRank,
    pub posts_edit_tags: UserRank,
    pub posts_edit_thumbnail: UserRank,
    pub posts_feature: UserRank,
    pub posts_delete: UserRank,
    pub posts_score: UserRank,
    pub posts_merge: UserRank,
    pub posts_favorite: UserRank,
    pub posts_bulk_edit_tags: UserRank,
    pub posts_bulk_edit_safety: UserRank,
    pub posts_bulk_edit_delete: UserRank,
    pub tags_create: UserRank,
    pub tags_edit_names: UserRank,
    pub tags_edit_category: UserRank,
    pub tags_edit_description: UserRank,
    pub tags_edit_implications: UserRank,
    pub tags_edit_suggestions: UserRank,
    pub tags_list: UserRank,
    pub tags_view: UserRank,
    pub tags_merge: UserRank,
    pub tags_delete: UserRank,
    pub tag_categories_create: UserRank,
    pub tag_categories_edit_name: UserRank,
    pub tag_categories_edit_color: UserRank,
    pub tag_categories_edit_order: UserRank,
    pub tag_categories_list: UserRank,
    pub tag_categories_view: UserRank,
    pub tag_categories_delete: UserRank,
    pub tag_categories_set_default: UserRank,
    pub pools_create: UserRank,
    pub pools_edit_names: UserRank,
    pub pools_edit_category: UserRank,
    pub pools_edit_description: UserRank,
    pub pools_edit_posts: UserRank,
    pub pools_list: UserRank,
    pub pools_view: UserRank,
    pub pools_merge: UserRank,
    pub pools_delete: UserRank,
    pub pool_categories_create: UserRank,
    pub pool_categories_edit_name: UserRank,
    pub pool_categories_edit_color: UserRank,
    pub pool_categories_list: UserRank,
    pub pool_categories_view: UserRank,
    pub pool_categories_delete: UserRank,
    pub pool_categories_set_default: UserRank,
    pub comments_create: UserRank,
    pub comments_delete_any: UserRank,
    pub comments_delete_own: UserRank,
    pub comments_edit_any: UserRank,
    pub comments_edit_own: UserRank,
    pub comments_list: UserRank,
    pub comments_view: UserRank,
    pub comments_score: UserRank,
    pub snapshots_list: UserRank,
    pub uploads_create: UserRank,
    pub uploads_use_downloader: UserRank,
}

/// The part of the configuration the frontend is shown.
#[derive(Debug, Clone)]
pub struct FrontendConfig {
    pub name: String,
    pub user_name_regex: String,
    pub password_regex: String,
    pub tag_name_regex: String,
    pub tag_category_name_regex: String,
    pub default_user_rank: UserRank,
    pub enable_safety: bool,
    pub contact_email: String,
    pub can_send_mails: bool,
    pub privileges: Privileges,
}

impl FrontendConfig {
    /// The frontend's view of a configuration: the public fields carried
    /// over unchanged, and mail-sending derived from whether SMTP is on.
    pub fn from_config(config: Config) -> (r: Self)
        ensures
            r.name == config.name,
            r.user_name_regex == config.user_name_regex,
            r.password_regex == config.password_regex,
            r.tag_name_regex == config.tag_name_regex,
            r.tag_category_name_regex == config.tag_category_name_regex,
            r.default_user_rank == config.default_rank,
            r.enable_safety == config.enable_safety,
            r.contact_email == config.contact_email,
            r.can_send_mails == config.smtp.enabled,
            r.privileges == config.privileges,
    {
        FrontendConfig {
            name: config.name,
            user_name_regex: config.user_name_regex,
            password_regex: config.password_regex,
            tag_name_regex: config.tag_name_regex,
            tag_category_name_regex: config.tag_category_name_regex,
            default_user_rank: config.default_rank,
            enable_safety: config.enable_safety,
            contact_email: config.contact_email,
            can_send_mails: config.smtp.enabled,
            privileges: config.privileges,
        }
    }
}

} // verus!

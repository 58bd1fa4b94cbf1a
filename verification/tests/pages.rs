use vc_server::pages::handlers::{
    at_page_limit, category_write_error, check_category_limit, check_category_owned,
    retry_revision, check_category_in_guild, check_page_limit, check_page_scope, check_platform_category,
    check_slug_free, check_slug_not_recently_deleted, check_system_admin, choose_slug,
    effective_revision_limit, restore_fields, validate_category_name, validate_create_request,
    validate_slug, validate_update_request, RevisionFields,
};
use vc_server::pages::queries::{hash_content, hex_encode, is_reserved_slug, slugify};
use vc_server::pages::reorder::{
    check_reorder_count, check_reorder_ids, check_reorder_scope, check_reorder_size,
    has_duplicate_ids, reorder_positions, ReorderTarget,
};
use vc_server::pages::types::{CreatePageRequest, UpdatePageRequest};

#[test]
fn test_hash_content() {
    let hash = hash_content("Hello, World!");
    assert_eq!(hash.len(), 64); // SHA-256 produces 64 hex chars
    assert!(hash.chars().all(|c| c.is_ascii_hexdigit()));

    // Same content produces same hash
    assert_eq!(hash, hash_content("Hello, World!"));

    // Different content produces different hash
    assert_ne!(hash, hash_content("Hello, World"));
}

#[test]
fn hash_content_of_empty_text_is_sha256_of_nothing() {
    assert_eq!(
        hash_content(""),
        "e3b0c44298fc1c149afbf4c8996fb92427ae41e4649b934ca495991b7852b855"
    );
}

#[test]
fn hex_encode_is_lowercase_pairs() {
    assert_eq!(hex_encode(&[0x00, 0xab, 0x7f]), "00ab7f");
}

#[test]
fn test_slugify() {
    assert_eq!(slugify("Hello World"), "hello-world");
    assert_eq!(slugify("Terms of Service"), "terms-of-service");
    assert_eq!(slugify("FAQ & Help"), "faq-help");
    assert_eq!(slugify("  Leading  Spaces  "), "leading-spaces");
    assert_eq!(slugify("Multiple---Dashes"), "multiple-dashes");
    assert_eq!(slugify("123 Numbers"), "123-numbers");
}

#[test]
fn slugify_of_symbols_only_is_empty() {
    assert_eq!(slugify("!!!"), "");
}

#[test]
fn test_is_reserved_slug() {
    assert!(is_reserved_slug("admin"));
    assert!(is_reserved_slug("api"));
    assert!(is_reserved_slug("new"));
    assert!(is_reserved_slug("settings"));

    assert!(is_reserved_slug("library"));
    assert!(is_reserved_slug("revisions"));
    assert!(is_reserved_slug("categories"));

    assert!(!is_reserved_slug("terms-of-service"));
    assert!(!is_reserved_slug("rules"));
    assert!(!is_reserved_slug("faq"));
}

fn create(title: &str, content: &str) -> CreatePageRequest {
    CreatePageRequest {
        title: title.to_string(),
        slug: None,
        content: content.to_string(),
        requires_acceptance: None,
        category_id: None,
    }
}

#[test]
fn create_request_needs_title_and_content() {
    let e = validate_create_request(&create("", "body")).unwrap_err();
    assert_eq!((e.status, e.message.as_str()), (400, "Title is required"));
    let e = validate_create_request(&create("Rules", "")).unwrap_err();
    assert_eq!((e.status, e.message.as_str()), (400, "Content is required"));
    let e = validate_create_request(&create(&"t".repeat(101), "body")).unwrap_err();
    assert_eq!(e.message, "Title exceeds 100 characters");
    assert!(validate_create_request(&create("Rules", "Be kind.")).is_ok());
}

#[test]
fn update_request_checks_only_given_fields() {
    let none = UpdatePageRequest {
        title: None,
        slug: None,
        content: None,
        requires_acceptance: None,
        category_id: None,
    };
    assert!(validate_update_request(&none).is_ok());
    let empty_title = UpdatePageRequest { title: Some(String::new()), ..none.clone() };
    let e = validate_update_request(&empty_title).unwrap_err();
    assert_eq!(e.message, "Title cannot be empty");
}

#[test]
fn slug_rules() {
    assert!(validate_slug("terms-of-service").is_ok());
    assert_eq!(validate_slug("").unwrap_err().message, "Slug cannot be empty");
    assert_eq!(validate_slug("admin").unwrap_err().message, "'admin' is a reserved slug");
    assert!(validate_slug("Bad--Slug").is_err());
    assert!(validate_slug("-lead").is_err());
    assert!(validate_slug("trail-").is_err());
}

#[test]
fn chosen_slug_prefers_request() {
    assert_eq!(choose_slug(Some("custom".to_string()), "Title Here"), "custom");
    assert_eq!(choose_slug(None, "Title Here"), "title-here");
}

#[test]
fn category_names_are_trimmed() {
    assert_eq!(validate_category_name("  News  ").unwrap(), "News");
    assert_eq!(validate_category_name("   ").unwrap_err().message, "Category name is required");
}

#[test]
fn page_scope_checks() {
    assert!(check_page_scope(Some(Some(7)), Some(7)).is_ok());
    assert!(check_page_scope(Some(None), None).is_ok());
    let e = check_page_scope(Some(Some(7)), Some(8)).unwrap_err();
    assert_eq!((e.status, e.message.as_str()), (404, "Page not found"));
    assert!(check_page_scope(Some(Some(7)), None).is_err());
    assert!(check_page_scope(None, Some(7)).is_err());
}

#[test]
fn failed_lookups_are_conservative() {
    assert!(check_slug_free(Some(false)).is_ok());
    assert_eq!(check_slug_free(None).unwrap_err().status, 409);
    assert_eq!(check_slug_free(Some(true)).unwrap_err().message, "Slug already exists");
    assert!(check_slug_not_recently_deleted(None).is_err());
    assert!(check_page_limit(Some(false), 50).is_ok());
    let e = check_page_limit(None, 50).unwrap_err();
    assert_eq!((e.status, e.message.as_str()), (400, "Maximum 50 pages reached"));
}

#[test]
fn admin_and_category_checks() {
    assert_eq!(check_system_admin(None).unwrap_err().status, 500);
    assert_eq!(check_system_admin(Some(false)).unwrap_err().message, "System admin required");
    assert!(check_system_admin(Some(true)).is_ok());
    assert!(check_platform_category(true).is_err());
    assert!(check_category_in_guild(Some(3), 3).is_ok());
    assert_eq!(
        check_category_in_guild(Some(4), 3).unwrap_err().message,
        "Category does not belong to this guild"
    );
    assert_eq!(check_category_in_guild(None, 3).unwrap_err().message, "Category not found");
}

#[test]
fn restoring_a_revision() {
    let rev = RevisionFields { content: Some("old body".to_string()), title: None };
    let (title, content) = restore_fields(Some(rev), "Current".to_string()).unwrap();
    assert_eq!((title.as_str(), content.as_str()), ("Current", "old body"));
    let corrupt = RevisionFields { content: None, title: Some("T".to_string()) };
    assert_eq!(restore_fields(Some(corrupt), "Current".to_string()).unwrap_err().status, 500);
    assert_eq!(restore_fields(None, "Current".to_string()).unwrap_err().message, "Revision not found");
}

#[test]
fn revision_limit_falls_back_to_default() {
    assert_eq!(effective_revision_limit(Some(Some(5)), 50), 5);
    assert_eq!(effective_revision_limit(Some(None), 50), 50);
    assert_eq!(effective_revision_limit(None, 50), 50);
}

#[test]
fn reorder_rejects_duplicate_ids() {
    assert!(has_duplicate_ids(&vec![1, 2, 1]));
    assert!(!has_duplicate_ids(&vec![1, 2, 3]));
    assert!(!has_duplicate_ids(&vec![]));
    assert_eq!(
        check_reorder_ids(ReorderTarget::Pages, &vec![7, 7]),
        Err("Duplicate page IDs in reorder request".to_string())
    );
    assert_eq!(
        check_reorder_ids(ReorderTarget::Categories, &vec![3, 4, 3]),
        Err("Duplicate category IDs in reorder request".to_string())
    );
    assert_eq!(check_reorder_ids(ReorderTarget::Pages, &vec![1, 2]), Ok(()));
}

#[test]
fn reorder_count_and_scope_checks() {
    assert_eq!(check_reorder_count(ReorderTarget::Pages, 3, 3), Ok(()));
    assert_eq!(
        check_reorder_count(ReorderTarget::Pages, 2, 3),
        Err("Page count mismatch during reorder".to_string())
    );
    assert_eq!(
        check_reorder_count(ReorderTarget::Categories, 4, 3),
        Err("Category count mismatch during reorder".to_string())
    );
    assert_eq!(check_reorder_scope(ReorderTarget::Categories, 2, 2), Ok(()));
    assert_eq!(
        check_reorder_scope(ReorderTarget::Pages, 3, 2),
        Err("Invalid page IDs: some pages do not belong to this scope".to_string())
    );
    assert_eq!(
        check_reorder_scope(ReorderTarget::Categories, 3, 1),
        Err("Invalid category IDs: some do not belong to this guild".to_string())
    );
}

#[test]
fn reorder_size_limits() {
    assert!(check_reorder_size(ReorderTarget::Pages, 1000).is_ok());
    let e = check_reorder_size(ReorderTarget::Pages, 1001).unwrap_err();
    assert_eq!((e.status, e.message.as_str()), (400, "Too many page IDs"));
    assert!(check_reorder_size(ReorderTarget::Categories, 20).is_ok());
    let e = check_reorder_size(ReorderTarget::Categories, 21).unwrap_err();
    assert_eq!((e.status, e.message.as_str()), (400, "Too many category IDs"));
}

#[test]
fn reorder_positions_follow_request_order() {
    assert_eq!(reorder_positions(&vec![30, 10, 20]), vec![(30, 0), (10, 1), (20, 2)]);
    assert!(reorder_positions(&vec![]).is_empty());
}

#[test]
fn category_limit_and_ownership() {
    assert!(check_category_limit(Some(19)).is_ok());
    let e = check_category_limit(Some(20)).unwrap_err();
    assert_eq!((e.status, e.message.as_str()), (400, "Maximum 20 categories reached"));
    assert!(check_category_limit(None).is_err());
    assert!(check_category_owned(Some(5), 5).is_ok());
    let e = check_category_owned(Some(6), 5).unwrap_err();
    assert_eq!((e.status, e.message.as_str()), (404, "Category not found"));
    assert_eq!(check_category_owned(None, 5).unwrap_err().status, 404);
}

#[test]
fn category_write_error_maps_unique_clash() {
    let e = category_write_error(
        "duplicate key value violates unique constraint \"idx_page_categories_guild_name\"",
    );
    assert_eq!((e.status, e.message.as_str()), (409, "Category name already exists"));
    let e = category_write_error("connection reset");
    assert_eq!((e.status, e.message.as_str()), (500, "Internal server error"));
}

#[test]
fn revision_retry_and_page_limit() {
    assert!(retry_revision(0, true));
    assert!(retry_revision(1, true));
    assert!(!retry_revision(2, true));
    assert!(!retry_revision(0, false));
    assert!(at_page_limit(10, 10));
    assert!(!at_page_limit(9, 10));
}

#[test]
fn slugify_of_a_slug_is_the_slug() {
    for title in ["Hello World", "  FAQ & Help  ", "Ünïcode Títle 42", "a--b", "ÀÉÎ"] {
        let slug = slugify(title);
        assert_eq!(slugify(&slug), slug);
    }
    // A cut at 100 characters that ends in a dash loses the dash on a second pass.
    let title = format!("{} b", "a".repeat(99));
    let slug = slugify(&title);
    assert_eq!(slug.len(), 100);
    assert!(slug.ends_with('-'));
    assert_eq!(slugify(&slug), "a".repeat(99));
}

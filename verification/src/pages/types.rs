//! Request bodies of the pages API.

use vstd::prelude::*;

verus! {

/// Request body for creating a new page.
#[derive(Debug, Clone)]
pub struct CreatePageRequest {
    /// Page title (required).
    pub title: String,
    /// URL-friendly slug (generated from the title if not provided).
    pub slug: Option<String>,
    /// Markdown content (required).
    pub content: String,
    /// Whether users must accept this page (default: false).
    pub requires_acceptance: Option<bool>,
    /// Category ID (guild pages only).
    pub category_id: Option<u128>,
}

/// Request body for updating an existing page.
#[derive(Debug, Clone)]
pub struct UpdatePageRequest {
    /// New title (optional).
    pub title: Option<String>,
    /// New slug (optional).
    pub slug: Option<String>,
    /// New content (optional).
    pub content: Option<String>,
    /// New acceptance requirement (optional).
    pub requires_acceptance: Option<bool>,
    /// Category update: absent = no change, `Some(None)` = remove, value = set.
    pub category_id: Option<Option<u128>>,
}

/// Request body for creating a page category.
#[derive(Debug, Clone)]
pub struct CreateCategoryRequest {
    /// Category name (max 50 characters).
    pub name: String,
}

/// Request body for updating a page category.
#[derive(Debug, Clone)]
pub struct UpdateCategoryRequest {
    /// New category name (max 50 characters).
    pub name: String,
}

/// Request body for reordering pages.
#[derive(Debug, Clone)]
pub struct ReorderRequest {
    /// Ordered list of page IDs representing the new order.
    pub page_ids: Vec<u128>,
}

/// Request body for reordering categories.
#[derive(Debug, Clone)]
pub struct ReorderCategoriesRequest {
    /// Ordered list of category IDs representing the new order.
    pub category_ids: Vec<u128>,
}

} // verus!

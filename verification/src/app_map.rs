//! The structure of a discovered web application, as a discovery step reports it.

use vstd::prelude::*;

verus! {

/// Complete map of a discovered web application.
#[derive(Debug)]
pub struct AppMap {
    /// Base URL of the application.
    pub base_url: String,
    /// Application title (from page title or heading).
    pub title: String,
    /// Whether authentication is required.
    pub requires_auth: bool,
    /// Discovered pages or sections.
    pub pages: Vec<PageInfo>,
    /// Top-level navigation items.
    pub navigation: Vec<NavItem>,
}

/// A single discovered page.
#[derive(Debug, Clone)]
pub struct PageInfo {
    /// URL path, relative to the base URL.
    pub path: String,
    /// Page title or heading.
    pub title: String,
    /// Forms found on the page.
    pub forms: Vec<FormInfo>,
    /// Interactive elements (buttons, dropdowns, tabs).
    pub interactive_elements: Vec<String>,
    /// Whether the page requires authentication.
    pub requires_auth: bool,
}

/// A form on a page.
#[derive(Debug, Clone)]
pub struct FormInfo {
    /// Purpose of the form (transfer, search, settings, ...).
    pub purpose: String,
    /// HTTP method, if it could be detected.
    pub method: Option<String>,
    /// Fields of the form.
    pub fields: Vec<FieldInfo>,
    /// Text of the submit button.
    pub submit_label: Option<String>,
}

/// A field of a form.
#[derive(Debug, Clone)]
pub struct FieldInfo {
    /// Label text.
    pub label: String,
    /// Input type (text, password, select, checkbox, ...).
    pub field_type: String,
    /// Whether the field is required.
    pub required: bool,
    /// Placeholder text, if any.
    pub placeholder: Option<String>,
}

/// A navigation menu item.
#[derive(Debug)]
pub struct NavItem {
    /// Display label.
    pub label: String,
    /// URL or path.
    pub url: String,
    /// Sub-items.
    pub children: Vec<NavItem>,
}

} // verus!

//! Verified core of the Mjolnir terminal dashboard.

pub mod activation;
pub mod begin;
pub mod bundle_editor;
pub mod catalog;
pub mod changes;
pub mod controls;
pub mod conversation;
pub mod dashboard;
pub mod dashboard_state;
pub mod decimal;
pub mod declarations;
pub mod draft_rules;
pub mod drafts;
pub mod duplicate;
pub mod events;
pub mod form_screens;
pub mod geometry;
pub mod lists;
pub mod mounts;
pub mod new_session;
pub mod on_screen;
pub mod ordering;
pub mod panes;
pub mod path_updates;
pub mod paths;
pub mod picker;
pub mod project_screen;
pub mod projects;
pub mod ratio;
pub mod readiness;
pub mod records;
pub mod resources;
pub mod resume;
pub mod review;
pub mod review_pages;
pub mod rounding;
pub mod sameness;
pub mod screen;
pub mod selection;
pub mod shortcuts;
pub mod tables;
pub mod text;
pub mod tile_laws;
pub mod tile_layout;
pub mod tile_navigation;
pub mod widgets;
pub mod wizard_screens;

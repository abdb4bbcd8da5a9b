//! Verified core of a screen-capture tool: selection geometry, capture and
//! export planning, settings, and the mode state machine that drives the
//! user interface.

pub mod app_state;
pub mod auto_click;
pub mod capture;
pub mod constants;
pub mod export_pdf;
pub mod folder_manager;
pub mod geometry;
pub mod hook;
pub mod overlay;
pub mod pdf_document;
pub mod pdf_model;
pub mod text;
pub mod ui;

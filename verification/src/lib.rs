//! The text, the rules and the page building behind the local web workbench
//! and the saved reports of a source line counter.

pub mod analyze;
pub mod artifacts;
pub mod browser;
pub mod classify;
pub mod forms;
pub mod html;
pub mod model;
pub mod order;
pub mod pages;
pub mod paths;
pub mod pdf;
pub mod preview;
pub mod report;
pub mod report_text;
pub mod text;
pub mod tree;
pub mod web_text;


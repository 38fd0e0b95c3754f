//! What tests of a running proxy are made of.

pub mod app;
pub mod app_laws;
pub mod components;
pub mod components_laws;
pub mod parsed_metrics;
pub mod parsed_metrics_laws;
pub mod scrape;
pub mod status;

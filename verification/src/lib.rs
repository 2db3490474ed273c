//! Core of a water-meter metrics exporter: a fixed catalog of metrics is
//! updated from readings polled off a local device and rendered as plain-text
//! exposition for a scraping agent, while HTTP readers serve the most recently
//! published render.
//!
//! The surrounding process (argument parsing, the HTTP stack, the network
//! calls themselves) lives outside the library and hands it plain values.

pub mod config;
pub mod homewizard;
pub mod metrics;
pub mod poller;
pub mod textfmt;

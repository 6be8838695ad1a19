//! The core of a bounded, polite web crawler.
//!
//! From seed URLs the crawler walks linked HTML pages breadth first, no
//! deeper than a depth limit and no further than a page budget, and hands
//! each page to a sink. This crate holds what the crawler decides; it
//! sends no request and never sleeps.
//!
//! - [`utils`]: characters and URLs, and the canonical form of a URL.
//! - [`robots`] and [`robots_cache`]: reading a robots.txt, judging a
//!   path, and keeping the rules of each host.
//! - [`frontier`]: the queue of pages to fetch and the set of URLs seen.
//! - [`html`] and [`fetcher`]: from an HTTP response to a page.
//! - [`storage`]: pages and the sinks that take them.
//! - [`worker`] and [`model`]: the protocol of a worker, and what holds
//!   of every run.
//! - [`crawler`]: the state that the workers share, and its step.
//! - [`config`]: the options of a run and its result.

pub mod config;
pub mod crawler;
pub mod fetcher;
pub mod frontier;
pub mod html;
pub mod model;
pub mod robots;
pub mod robots_cache;
pub mod storage;
pub mod utils;
pub mod worker;

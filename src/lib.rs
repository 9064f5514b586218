//! A fixed-size worker pool whose scheduling decisions are verified, and the
//! request routing and response framing of the small server built on it.
pub mod http;
pub mod pool;
pub mod laws;

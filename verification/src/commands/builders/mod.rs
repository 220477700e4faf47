//! One module per platform that is built for.

pub mod android;

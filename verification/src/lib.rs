//! A weighted-average grade ledger: validation of raw grade input, an
//! insertion-ordered ledger of (grade, weight) entries with its derived
//! average, and the message-dispatch protocol of the form around them.

pub mod ledger;
pub mod mapper;
pub mod validate;

//! The account checks and the three operations: make, take and refund.
pub mod helpers;
pub mod make;
pub mod take;
pub mod refund;

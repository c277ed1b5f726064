//! Accounting and safety core of a pooled flash-loan facility.
//!
//! A pool holds one underlying token and issues a share token that tracks
//! proportional ownership. Anyone may borrow from the pool without collateral,
//! provided a repayment of the borrowed amount plus a fee stands later in the
//! same atomic batch of instructions.

pub mod batch;
pub mod dispatch;
pub mod error;
pub mod fees;
pub mod keys;
pub mod pool;
pub mod program;
pub mod vault;

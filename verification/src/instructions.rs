//! The four vault operations. Each runs as one atomic unit: it either commits
//! every effect it describes or returns an error with every record it names
//! unchanged.

pub mod claim;
pub mod deposit;
pub mod initialize;
pub mod withdraw;

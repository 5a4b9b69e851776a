//! Decision logic of a small media download helper, verified with Verus.

pub mod compress;
pub mod download;
pub mod explorer;
pub mod input;
pub mod random;
pub mod setup;
pub mod text;

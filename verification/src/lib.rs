//! Exchange connectors: request descriptions, symbol and asset handling,
//! type conversions between exchange dialects and request signing.
pub mod paradex;
pub mod simu;
pub mod standx;
pub mod toobit;
pub mod util;
pub mod weex;
pub mod xt;

pub mod contract;
pub mod execute;
pub mod instantiate;
pub mod migrate;
pub mod storage;
pub mod types;
pub mod util;

pub mod process;
pub mod progress;
pub mod scan;
pub mod zap;

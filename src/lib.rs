pub mod color;
pub mod flag;
pub mod frame;
pub mod utils;

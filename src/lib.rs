pub mod assembly;
pub mod cpu;
pub mod mem;
pub mod tty;
pub mod utils;

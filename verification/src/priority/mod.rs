pub mod cpu;
pub mod io;

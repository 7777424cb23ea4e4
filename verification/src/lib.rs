pub mod text;
pub mod command;
pub mod terminal;
pub mod ports;
pub mod kill;
pub mod termination_scripts;
pub mod gpu;
pub mod machine;
pub mod disks;
pub mod pty;
pub mod scripts;
pub mod history;
pub mod desktop;

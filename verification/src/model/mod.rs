pub mod detail;
pub mod port_forward;
pub mod resources;
pub mod table;

pub mod ram;
pub mod hexdump;

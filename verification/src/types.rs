pub mod nnn;

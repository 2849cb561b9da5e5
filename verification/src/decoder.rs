pub mod arm;

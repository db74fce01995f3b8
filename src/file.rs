pub mod descriptor;
pub mod access;

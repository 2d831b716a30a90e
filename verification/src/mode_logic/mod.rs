pub mod master;

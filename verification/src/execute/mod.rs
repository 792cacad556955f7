pub mod execute;

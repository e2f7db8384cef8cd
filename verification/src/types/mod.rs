pub mod max;

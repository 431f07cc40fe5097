pub mod task;

pub mod block;
pub mod device_path;
pub mod disk;

pub mod get_alloc_info;

pub use get_alloc_info::{AllocInfo, GetAllocInfo};

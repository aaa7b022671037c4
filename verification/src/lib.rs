use vstd::prelude::*;

pub mod buffer;
pub mod conv;
pub mod cpu_storage;
pub mod dispatch;
pub mod dtype;
pub mod entry;
pub mod err;
pub mod gpu;
pub mod kernels;
pub mod layout;
pub mod le;
pub mod pipelines;
pub mod reduce;
pub mod source;
pub mod storage;
pub mod text;
pub mod utils;

//! Raw memory allocation and ownership capabilities for handle types.

pub mod as_pinned;
pub mod layout;
pub mod mem_alloc;
pub mod std_global;
pub mod res_man;

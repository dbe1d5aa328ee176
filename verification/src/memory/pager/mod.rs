pub mod index;
pub mod order;
pub mod paging;

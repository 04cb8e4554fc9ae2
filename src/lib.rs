//! Small verified building blocks around ownership, borrowing, closures,
//! iteration and the newtype pattern.

mod borrow;
mod closures;
mod iterator;
mod newtype;
mod ownership;

pub use borrow::{borrow_object, get_default, get_default_third};
pub use closures::{exec, exec_1, factory, func_one, Cacher, SuperCacher};
pub use iterator::{shoes_in_size, Counter, Shoe, COUNTER_LIMIT};
pub use newtype::Wrapper;
pub use ownership::give_ownership;

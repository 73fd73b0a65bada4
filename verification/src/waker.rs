//! Where parked tasks leave their wakers.

pub mod entity;
pub mod linked;
pub mod list;
pub mod pool;

pub use entity::WakerEntity;

pub mod dispatch;
pub mod errors;
pub mod facade;
pub mod registry;
pub mod unlock;

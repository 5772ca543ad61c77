pub mod dyn_resource;
pub mod resource;
pub mod resource_handler;

pub mod capability;
pub mod endpoint;
pub mod handler;
pub mod net;
pub mod record;
pub mod resources;
pub mod utils;

pub mod address;
pub mod async_device;
pub mod async_fd;
pub mod codec;
pub mod configuration;
pub mod copy;
pub mod device;
pub mod error;
pub mod io;
pub mod queue;
pub mod settings;
pub mod text;

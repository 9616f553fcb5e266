pub mod date;
pub mod decimal;
pub mod encoding;
pub mod env;
pub mod environment;
pub mod logging;
pub mod snapshot;
pub mod socket;
pub mod source;
pub mod text;
pub mod watcher;

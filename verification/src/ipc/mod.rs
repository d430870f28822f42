//! What the commands of the application take and give.

pub mod export;
pub mod import;
pub mod import_examinees;
pub mod open;
pub mod params;
pub mod response;
pub mod text;

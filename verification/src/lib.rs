pub mod android;
pub mod apple;
pub mod config;
pub mod decimal;
pub mod doctor;
pub mod dot_cargo;
pub mod env;
pub mod opts;
pub mod os;
pub mod project;
pub mod text;
pub mod util;
pub mod view;

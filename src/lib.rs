#![allow(non_snake_case)]

pub mod config;
pub mod format;
pub mod list;
pub mod nav;

//! The workers that answer commands.

pub mod db;

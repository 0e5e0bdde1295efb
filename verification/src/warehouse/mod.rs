//! The data held by the server: the storage engine and its statistics.

pub mod data_info;
pub mod db;
pub mod storage_map;

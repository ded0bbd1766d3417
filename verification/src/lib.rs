//! Verified models of the runtime structures of Elden Ring: event flags, item handles,
//! packed date-times, the game's string encodings and its container layouts.

pub mod dlut;
pub mod text;
pub mod unicode;
pub mod dltx;
pub mod stl;
pub mod event_flag;
pub mod gaitem;
pub mod sos_sign_man;
pub mod chr_ins;
pub mod layouts;
pub mod file_device;
pub mod team_relation;
pub mod param_repository;
pub mod bullet_manager;
pub mod arxan;
pub mod field_area;

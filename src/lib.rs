//! LAN peer fabric of a classroom remote-control node: discovery beacons,
//! remote-control sessions, Wake-on-LAN, and the supervised lifecycles of the
//! advertiser, the remote server and the backend process.

pub mod capture;
pub mod commands;
pub mod discovery;
pub mod input;
pub mod mode;
pub mod models;
pub mod remote_admin;
pub mod session;
pub mod supervisor;
pub mod text;
pub mod wol;

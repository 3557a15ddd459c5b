//! Verified core of a terminal client for OpenStack clouds: key handling,
//! authorization scopes, the SSH prompt, resource views and the decisions of
//! the cloud worker.

pub mod navigation_key;
pub mod text;
pub mod scope;
pub mod remote_console;
pub mod action;
pub mod ssh_user_popup;
pub mod identity_projects;
pub mod cloud_worker;

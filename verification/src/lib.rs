//! A menu-driven front end engine for operating a version-control tool
//! interactively: togglable option menus, prompts with computed defaults,
//! a polymorphic action-dispatch protocol, and the bookkeeping that keeps
//! the terminal and the session safe around external tool runs.

pub mod action;
pub mod arg;
pub mod dispatch;
pub mod errors;
pub mod exec;
pub mod menu;
pub mod merge;
pub mod repo;

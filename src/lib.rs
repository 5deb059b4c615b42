//! Launcher core of a wind-shadow desktop application: the engine port
//! handshake, the project configuration resolver and the turbine table import.
pub mod engine;
pub mod number;
pub mod project;
pub mod turbine;

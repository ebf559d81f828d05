//! Parsing and decision logic of the voice assistant: command
//! normalisation, keyword matching, bookmark matching, file-command
//! argument extraction, the intent state machine and the AI action planner.

pub mod esterni;
pub mod testo;
pub mod messaggi;
pub mod comandi;
pub mod intento;
pub mod esecuzione;
pub mod config;
pub mod finestre;
pub mod agente;
pub mod leggi;

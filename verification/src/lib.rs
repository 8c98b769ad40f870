//! Subscriptions for agents: what an agent waits for, how it is stored, how it is
//! checked, and what happens when it fires.
pub mod text;
pub mod numeral;
pub mod outside;
pub mod clock;
pub mod cli;
pub mod error;
pub mod duration;
pub mod text_laws;
pub mod condition;
pub mod gh;
pub mod parse;
pub mod subscription;
pub mod event;
pub mod checker;
pub mod event_laws;
pub mod parse_laws;
pub mod check_laws;
pub mod row;
pub mod change;
pub mod store;
pub mod store_laws;
pub mod table_laws;
pub mod schedule;
pub mod daemon;
pub mod report;
pub mod life_laws;
pub mod view_laws;

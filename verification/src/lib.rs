pub mod adapter;
pub mod appointment;
pub mod cli;
pub mod com;
pub mod gender;
pub mod gender_rules;
pub mod inflect;
pub mod text;
pub mod web;

//! Verified core of a UniFi controller client: identity types, entity
//! collections, API-to-domain mappings and the decision logic of the
//! terminal interface.

pub mod action;
pub mod address;
pub mod api;
pub mod clock;
pub mod collection;
pub mod config;
pub mod command;
pub mod controller;
pub mod convert;
pub mod devices;
pub mod entity_id;
pub mod event_records;
pub mod events;
pub mod filter;
pub mod fmt;
pub mod integration;
pub mod json;
pub mod keys;
pub mod legacy;
pub mod model;
pub mod network_detail;
pub mod network_record;
pub mod networks;
pub mod onboarding;
pub mod platform;
pub mod profile;
pub mod queries;
pub mod requests;
pub mod screen;
pub mod screens;
pub mod settings;
pub mod shell;
pub mod store;
pub mod table;
pub mod text;
pub mod urls;

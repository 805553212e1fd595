//! Reactive enrichment of support tickets.
//!
//! A ticket is annotated with a language, a sentiment, a category and a
//! derived priority. Each annotation is produced by one processor that
//! declares which fields it needs and which field it fills in; the pipeline
//! decides, event by event, which processor may run on which ticket.

pub mod error;
pub mod json;
mod text;
pub mod pipeline;
pub mod processors;
pub mod ticket;
pub mod ticket_store;

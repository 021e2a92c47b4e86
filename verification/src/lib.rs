//! Ingestion pipeline for a periodically published regional statistics
//! spreadsheet: locating the newest matching mail attachment with a
//! timezone-correct freshness gate, and transcoding three worksheet
//! layouts into normalized records.

pub mod app;
pub mod args;
pub mod cells;
pub mod extract;
pub mod mail;
pub mod model;
pub mod pattern;
pub mod select;
pub mod time;

pub use crate::app::App;
pub use crate::args::Args;
pub use crate::args::ConfigError;
pub use crate::args::Credentials;
pub use crate::args::RunConfig;
pub use crate::args::validate_args;
pub use crate::mail::LoginMethod;
pub use crate::mail::MailClientError;
pub use crate::mail::OAuth2;
pub use crate::mail::Password;
pub use crate::mail::Server;
pub use crate::mail::chunk_ids;
pub use crate::mail::sort_ids_descending;
pub use crate::app::AppMode;
pub use crate::cells::Cell;
pub use crate::cells::UtcTime;
pub use crate::cells::resolve_value;
pub use crate::extract::Artifacts;
pub use crate::extract::ExtractError;
pub use crate::extract::build_artifacts;
pub use crate::extract::extract_news;
pub use crate::extract::extract_status;
pub use crate::extract::SheetKind;
pub use crate::extract::extract_inspections;
pub use crate::extract::extract_patients;
pub use crate::model::Attributes;
pub use crate::model::LastUpdate;
pub use crate::model::NewsItem;
pub use crate::model::NewsItems;
pub use crate::model::Status;
pub use crate::model::Summary;
pub use crate::model::SummaryContent;
pub use crate::pattern::name_matches_pattern;
pub use crate::select::Candidate;
pub use crate::select::SelectionOutcome;
pub use crate::select::select_attachment;
pub use crate::time::CivilTime;
pub use crate::time::civil_seconds;
pub use crate::time::days_from_civil;
pub use crate::time::resolve_message_instant;
pub use crate::time::resolve_message_instant_here;

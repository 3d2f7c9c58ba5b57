//! Calendar, reminder and configuration logic of the Argvus calendar popup.
pub mod caldav;
pub mod calendar;
pub mod config;
pub mod error;
pub mod i18n;
pub mod ical;
pub mod ipc;
pub mod launch;
pub mod reminders;
pub mod storage;
pub mod text;
pub mod ui;

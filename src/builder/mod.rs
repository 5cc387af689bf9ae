//! Builders for the optional parts of request parameters and for widget
//! URLs.

pub mod bot_search;
pub mod widget;


pub use self::bot_search::BotSearch;

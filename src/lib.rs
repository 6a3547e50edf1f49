//! A local note and task store: notes with tags and categories, full-text
//! search, todos ordered by priority and due date, and text templates.

pub mod clock;
pub mod db;
pub mod export;
pub mod sql;
pub mod text;
pub mod note;
pub mod search;
pub mod todo;
pub mod tags;
pub mod template;

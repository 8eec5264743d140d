pub mod state_table;
pub mod state_list;
pub mod text;
pub mod str;
pub mod cursor;
pub mod loader;
pub mod query;

pub use cursor::GraphQLCursor;
pub mod number;
pub mod layout;
pub mod table;
pub mod colors;
pub mod event;
pub mod ui;

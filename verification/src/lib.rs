//! Request/response core of a terminal HTTP client: transient overrides of a
//! recipe, immutable records of what was sent and received, the life cycle of
//! a request as the view sees it, and the views derived from a response.

pub mod time;
pub mod ids;
pub mod recipe;
pub mod overrides;
pub mod text;
pub mod headers;
pub mod response;
pub mod request;
pub mod exchange;
pub mod lifecycle;
pub mod text_window;
pub mod select;
pub mod notification;
pub mod body;
pub mod persist;
pub mod state_cell;

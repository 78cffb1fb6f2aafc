//! Delivery-group endpoints.

mod add_user;
mod list_users;
mod remove_user;
mod rename;
mod toggle_user;

pub use self::add_user::AddUser;
pub use self::list_users::{ListUsers, ListUsersResponse, RawListUsersResponse};
pub use self::remove_user::RemoveUser;
pub use self::rename::Rename;
pub use self::toggle_user::ToggleUser;

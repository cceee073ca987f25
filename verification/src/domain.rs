pub mod article;
pub mod blog;
pub mod identified;
pub mod user;
pub mod value_object;

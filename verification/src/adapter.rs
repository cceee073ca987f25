pub mod model;
pub mod user_principal;
pub mod username_flow;
pub mod username_password_authentictor;
pub mod username_password_flow;

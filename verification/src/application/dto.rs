pub mod article_dto;
pub mod blog_dto;
pub mod category_dto;
pub mod user_dto;

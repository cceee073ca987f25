pub mod article_dto;
pub mod category_dto;

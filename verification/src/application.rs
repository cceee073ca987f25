pub mod attachment_diff;
pub mod db_state;
pub mod field_change;
pub mod po_state;
pub mod article_repository;
pub mod blog_repository;
pub mod user_repository;
pub mod user_service;
pub mod article_service;
pub mod blog_service;
pub mod category_service;
pub mod dto;
pub mod category_repository;
pub mod blog_assembler;

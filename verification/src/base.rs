pub mod authentication;
pub mod category_repository;
pub mod clock;
pub mod db;
pub mod dto;
pub mod error;
pub mod error_mapping;
pub mod file_service;
pub mod file_utils;
pub mod ids;
pub mod text;
pub mod validation;
pub mod tree;

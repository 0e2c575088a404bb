pub mod detector;
pub mod error;
pub mod generator;
pub mod languages;
pub mod translators;

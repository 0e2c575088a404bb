pub mod baidu;
pub mod chatgpt;
pub mod deepl;
pub mod google;
pub mod libretranslate;
pub mod mymemory;
pub mod youdao;

pub mod baidu;
pub mod bing;
pub mod google;
pub mod papago;
pub mod youdao;

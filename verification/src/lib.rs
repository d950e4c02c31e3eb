pub mod clock;
pub mod json;
pub mod keyed;
pub mod storage;
pub mod terminal;
pub mod text;
pub mod utils;

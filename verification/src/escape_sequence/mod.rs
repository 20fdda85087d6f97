pub mod params;
pub mod parser;
pub mod sequence;

pub mod colours;
pub mod constants;
pub mod escape_sequence;
pub mod keys;
pub mod lines;
pub mod model;
pub mod shell_layer;
pub mod text_styles;
pub mod tty;
pub mod unicode;

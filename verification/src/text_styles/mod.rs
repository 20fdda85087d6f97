pub mod decorated_char;
pub mod text_style;

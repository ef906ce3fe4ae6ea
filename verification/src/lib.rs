pub mod bits;
pub mod deprecated;
pub mod example;
pub mod pipeline;
pub mod shell_error;
pub mod signature;
pub mod span;
pub mod text;
pub mod value;

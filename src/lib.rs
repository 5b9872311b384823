mod clear;
mod singular;

pub use clear::Clear;
pub use singular::SingularField;

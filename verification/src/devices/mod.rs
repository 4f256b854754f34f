pub mod enums;
pub mod nothing;

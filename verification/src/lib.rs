pub mod checks;
pub mod command;
pub mod create_image;
pub mod requirements;
pub mod run_requirements;
pub mod strings;
pub mod utils;

//! What a renderer needs worked out for it: the title line, the texts and
//! measures of the screen, and the cursor of the file browser.

pub mod file_browser;
pub mod layout;
pub mod notification;
pub mod renderer;
pub mod size;

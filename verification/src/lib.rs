//! A small text-editing core: documents decoded from bytes in any
//! encoding into ropes, and the window-level state of the user interface
//! that shows them.

pub mod editor;
pub mod engine;

use vstd::prelude::*;

use crate::engine::settings::{default_settings, Settings};

verus! {

/// The applications this library knows how to start.
#[derive(Debug, Clone, Copy, PartialEq, Eq, Structural)]
pub enum AppKind {
    /// A window that shows the heading "hello world".
    HelloWorld,
}

/// What to start: a window titled `app_name`, set up by `settings`,
/// running `app`.
pub struct Launch {
    pub app_name: &'static str,
    pub settings: Settings,
    pub app: AppKind,
}

/// The hello-world demo: the application named "test", with the default
/// settings, showing "hello world".
pub fn hello_world() -> (launch: Launch)
    ensures
        launch.app_name@ == "test"@,
        launch.settings == default_settings(),
        launch.app == AppKind::HelloWorld,
{
    let settings = Settings::default();
    Launch { app_name: "test", settings, app: AppKind::HelloWorld }
}

} // verus!

//! Events as the event source reports them.
use vstd::prelude::*;
use crate::db::types::Platform;

verus! {

/// A key was pressed.
#[derive(Clone, Copy, Debug, PartialEq, Eq, Structural)]
pub struct KeyboardEvent {}

/// The pointer moved or a button was used.
#[derive(Clone, Copy, Debug, PartialEq, Eq, Structural)]
pub struct MouseEvent {}

/// The focused window changed.
#[derive(Clone, Debug)]
pub struct WindowEvent {
    pub app_name: String,
    pub window_title: String,
    pub bundle_id: Option<String>,
    pub url: Option<String>,
    pub platform: Platform,
}

/// A window event with its text read as character sequences.
pub struct WindowEventView {
    pub app_name: Seq<char>,
    pub window_title: Seq<char>,
    pub bundle_id: Option<Seq<char>>,
    pub url: Option<Seq<char>>,
    pub platform: Platform,
}

impl View for WindowEvent {
    type V = WindowEventView;

    open spec fn view(&self) -> WindowEventView {
        WindowEventView {
            app_name: self.app_name@,
            window_title: self.window_title@,
            bundle_id: self.bundle_id.deep_view(),
            url: self.url.deep_view(),
            platform: self.platform,
        }
    }
}

/// An application the blocker kept from opening.
#[derive(Clone, Debug)]
pub struct BlockedApp {
    pub app_name: String,
    pub app_external_id: String,
    pub is_site: bool,
}

/// A batch of blocked applications.
#[derive(Clone, Debug)]
pub struct BlockedAppEvent {
    pub blocked_apps: Vec<BlockedApp>,
}

} // verus!

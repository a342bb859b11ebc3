//! Scenes of the launchpad and the ways in which it reads the keyboard.

use vstd::prelude::*;

verus! {

/// A part of the launchpad that can be on the screen.
#[derive(Clone, Copy, Debug, PartialEq, Eq, Structural)]
pub enum Scene {
    /// The home screen.
    Home,
    /// The box that asks for the Discord username, on top of the home screen.
    DiscordUsernameInputBox,
    /// The box that asks for the disk space to allocate, on top of the home screen.
    ResourceAllocationInputBox,
    /// Any scene that covers the home screen.
    Other,
}

/// How key strokes are understood.
#[derive(Clone, Copy, Debug, PartialEq, Eq, Structural)]
pub enum InputMode {
    /// Keys are commands.
    Navigation,
    /// Keys are text.
    Entry,
}

/// Whether the home screen is visible while `scene` is the current one.
pub open spec fn shows_home(scene: Scene) -> bool {
    scene != Scene::Other
}

} // verus!

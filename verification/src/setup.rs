//! Building the tray, one construction after the other.
//!
//! The menu with its two entries comes first, then the icon image, then the
//! tray itself. Each of the three may fail, and each failure ends the setup
//! for good: unlike a missing dependency or a backend that does not start,
//! a tray that cannot be built fails the startup. Once the tray stands, its
//! handle is kept for as long as the process lives and the event loop starts.

use vstd::prelude::*;
use crate::tray::TrayMenu;

verus! {

/// A construction that failed. Each of these is fatal to the startup.
#[derive(Clone, Copy, Debug, PartialEq, Eq, Structural)]
pub enum SetupError {
    /// The menu or one of its entries could not be made.
    MenuNotBuilt,
    /// The icon image could not be read or decoded.
    IconNotLoaded,
    /// The tray icon could not be made.
    TrayNotBuilt,
}

/// Where the setup stands.
#[derive(Clone, Debug, PartialEq, Eq)]
pub enum TraySetup {
    /// Nothing has been done yet.
    Start,
    /// The menu is being built.
    BuildingMenu,
    /// The menu stands; the icon is being loaded.
    LoadingIcon { menu: TrayMenu },
    /// Menu and icon are there; the tray is being built.
    BuildingTray { menu: TrayMenu },
    /// The tray stands and its events are listened to.
    Ready { menu: TrayMenu },
    /// A construction failed.
    Failed { error: SetupError },
}

/// What the surrounding program reports back.
#[derive(Clone, Debug, PartialEq, Eq)]
pub enum TraySetupEvent {
    /// The startup reached this step.
    Begin,
    /// The menu was built; these are the identifiers of its two entries.
    MenuBuilt { show_id: String, quit_id: String },
    /// The menu could not be built.
    MenuFailed,
    /// The icon image was loaded.
    IconLoaded,
    /// The icon image could not be loaded.
    IconFailed,
    /// The tray was built.
    TrayBuilt,
    /// The tray could not be built.
    TrayFailed,
}

/// What the surrounding program does next.
#[derive(Clone, Copy, Debug, PartialEq, Eq, Structural)]
pub enum TraySetupAction {
    /// Build the menu with the two entries and report their identifiers.
    BuildMenu,
    /// Load the icon image.
    LoadIcon,
    /// Build the tray from menu, tooltip and icon.
    BuildTray,
    /// Keep the tray's handle until the process ends, and start the event
    /// loop on a thread of its own.
    RetainAndListen,
    /// Give the startup up with this error.
    Abort { error: SetupError },
    /// Nothing: the event came out of turn.
    Nothing,
}

/// One decision of the setup.
#[derive(Clone, Debug, PartialEq, Eq)]
pub struct TraySetupStep {
    pub state: TraySetup,
    pub action: TraySetupAction,
}

/// The step that ends the setup with an error.
pub open spec fn failed_with(error: SetupError) -> TraySetupStep {
    TraySetupStep { state: TraySetup::Failed { error }, action: TraySetupAction::Abort { error } }
}

/// The setup's transitions. An event that does not belong to the current
/// state changes nothing.
pub open spec fn create_tray_spec(state: TraySetup, event: TraySetupEvent) -> TraySetupStep {
    match (state, event) {
        (TraySetup::Start, TraySetupEvent::Begin) => TraySetupStep {
            state: TraySetup::BuildingMenu,
            action: TraySetupAction::BuildMenu,
        },
        (TraySetup::BuildingMenu, TraySetupEvent::MenuBuilt { show_id, quit_id }) => TraySetupStep {
            state: TraySetup::LoadingIcon { menu: TrayMenu { show_id, quit_id } },
            action: TraySetupAction::LoadIcon,
        },
        (TraySetup::BuildingMenu, TraySetupEvent::MenuFailed) => failed_with(
            SetupError::MenuNotBuilt,
        ),
        (TraySetup::LoadingIcon { menu }, TraySetupEvent::IconLoaded) => TraySetupStep {
            state: TraySetup::BuildingTray { menu },
            action: TraySetupAction::BuildTray,
        },
        (TraySetup::LoadingIcon { .. }, TraySetupEvent::IconFailed) => failed_with(
            SetupError::IconNotLoaded,
        ),
        (TraySetup::BuildingTray { menu }, TraySetupEvent::TrayBuilt) => TraySetupStep {
            state: TraySetup::Ready { menu },
            action: TraySetupAction::RetainAndListen,
        },
        (TraySetup::BuildingTray { .. }, TraySetupEvent::TrayFailed) => failed_with(
            SetupError::TrayNotBuilt,
        ),
        _ => TraySetupStep { state, action: TraySetupAction::Nothing },
    }
}

/// What a finished setup hands to the startup: the menu once the tray
/// stands, the error once a construction failed, nothing while it is under
/// way.
pub open spec fn setup_result_spec(state: TraySetup) -> Option<Result<TrayMenu, SetupError>> {
    match state {
        TraySetup::Ready { menu } => Some(Ok(menu)),
        TraySetup::Failed { error } => Some(Err(error)),
        _ => None,
    }
}

/// Takes the setup one event further: menu, icon, tray, in this order, and
/// the first failure ends it.
pub fn create_tray(state: TraySetup, event: TraySetupEvent) -> (step: TraySetupStep)
    ensures
        step == create_tray_spec(state, event),
{
    match (state, event) {
        (TraySetup::Start, TraySetupEvent::Begin) => TraySetupStep {
            state: TraySetup::BuildingMenu,
            action: TraySetupAction::BuildMenu,
        },
        (TraySetup::BuildingMenu, TraySetupEvent::MenuBuilt { show_id, quit_id }) => TraySetupStep {
            state: TraySetup::LoadingIcon { menu: TrayMenu { show_id, quit_id } },
            action: TraySetupAction::LoadIcon,
        },
        (TraySetup::BuildingMenu, TraySetupEvent::MenuFailed) => fail(SetupError::MenuNotBuilt),
        (TraySetup::LoadingIcon { menu }, TraySetupEvent::IconLoaded) => TraySetupStep {
            state: TraySetup::BuildingTray { menu },
            action: TraySetupAction::BuildTray,
        },
        (TraySetup::LoadingIcon { .. }, TraySetupEvent::IconFailed) => fail(
            SetupError::IconNotLoaded,
        ),
        (TraySetup::BuildingTray { menu }, TraySetupEvent::TrayBuilt) => TraySetupStep {
            state: TraySetup::Ready { menu },
            action: TraySetupAction::RetainAndListen,
        },
        (TraySetup::BuildingTray { .. }, TraySetupEvent::TrayFailed) => fail(
            SetupError::TrayNotBuilt,
        ),
        (state, _) => TraySetupStep { state, action: TraySetupAction::Nothing },
    }
}

/// The step that ends the setup with an error.
fn fail(error: SetupError) -> (step: TraySetupStep)
    ensures
        step == failed_with(error),
{
    TraySetupStep { state: TraySetup::Failed { error }, action: TraySetupAction::Abort { error } }
}

/// What a setup hands to the startup, if it is over.
pub fn setup_result(state: TraySetup) -> (result: Option<Result<TrayMenu, SetupError>>)
    ensures
        result == setup_result_spec(state),
{
    match state {
        TraySetup::Ready { menu } => Some(Ok(menu)),
        TraySetup::Failed { error } => Some(Err(error)),
        _ => None,
    }
}

/// The setup fails on a failed construction and on nothing else: a step ends
/// in failure exactly when it started there or when the construction that was
/// under way is reported as failed; and a setup that has failed or is ready
/// is moved by no event.
pub proof fn law_setup_fails_only_on_construction(state: TraySetup, event: TraySetupEvent)
    ensures
        create_tray_spec(state, event).state is Failed <==> {
            ||| state is Failed
            ||| state is BuildingMenu && event is MenuFailed
            ||| state is LoadingIcon && event is IconFailed
            ||| state is BuildingTray && event is TrayFailed
        },
        create_tray_spec(state, event).action is Abort <==> !(state is Failed) && create_tray_spec(
            state,
            event,
        ).state is Failed,
        state is Failed || state is Ready ==> create_tray_spec(state, event) == (TraySetupStep {
            state,
            action: TraySetupAction::Nothing,
        }),
{
}

/// When all three constructions succeed, the setup is ready with exactly the
/// identifiers that the menu reported, and asks for the handle to be kept.
pub proof fn law_setup_succeeds_in_order(show_id: String, quit_id: String)
    ensures
        ({
            let s1 = create_tray_spec(TraySetup::Start, TraySetupEvent::Begin);
            let s2 = create_tray_spec(s1.state, TraySetupEvent::MenuBuilt { show_id, quit_id });
            let s3 = create_tray_spec(s2.state, TraySetupEvent::IconLoaded);
            let s4 = create_tray_spec(s3.state, TraySetupEvent::TrayBuilt);
            &&& s1.action == TraySetupAction::BuildMenu
            &&& s2.action == TraySetupAction::LoadIcon
            &&& s3.action == TraySetupAction::BuildTray
            &&& s4.action == TraySetupAction::RetainAndListen
            &&& s4.state == (TraySetup::Ready { menu: TrayMenu { show_id, quit_id } })
        }),
{
}

} // verus!

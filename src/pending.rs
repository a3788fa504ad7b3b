use vstd::prelude::*;

verus! {

/// The screens of the pending flow, and its end.
#[derive(Debug, Clone, Copy, PartialEq, Eq, Structural)]
pub enum PendingScreen {
    Pending,
    Review,
    Done,
}

/// What the device reports while a screen is shown.
#[derive(Debug, Clone, Copy, PartialEq, Eq, Structural)]
pub enum PendingEvent {
    RightButtonRelease,
    BothButtonsRelease,
    Other,
}

/// The pending flow: "Pending" until the right button is released, then
/// "Ledger review" until both buttons are released.
pub open spec fn next_screen(screen: PendingScreen, event: PendingEvent) -> PendingScreen {
    match (screen, event) {
        (PendingScreen::Pending, PendingEvent::RightButtonRelease) => PendingScreen::Review,
        (PendingScreen::Review, PendingEvent::BothButtonsRelease) => PendingScreen::Done,
        _ => screen,
    }
}

/// The screen that follows `screen` once `event` has been reported.
pub fn pending_next(screen: PendingScreen, event: PendingEvent) -> (r: PendingScreen)
    ensures
        r == next_screen(screen, event),
{
    match (screen, event) {
        (PendingScreen::Pending, PendingEvent::RightButtonRelease) => PendingScreen::Review,
        (PendingScreen::Review, PendingEvent::BothButtonsRelease) => PendingScreen::Done,
        _ => screen,
    }
}

/// The message that a screen shows; none once the flow is done.
pub fn pending_message(screen: PendingScreen) -> (r: Option<&'static str>)
    ensures
        screen == PendingScreen::Pending ==> (r matches Some(m) && m@ == "Pending"@),
        screen == PendingScreen::Review ==> (r matches Some(m) && m@ == "Ledger review"@),
        screen == PendingScreen::Done ==> r is None,
{
    match screen {
        PendingScreen::Pending => Some("Pending"),
        PendingScreen::Review => Some("Ledger review"),
        PendingScreen::Done => None,
    }
}

} // verus!

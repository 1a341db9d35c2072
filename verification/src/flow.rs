//! The run's top-level flow: from the character-select lineup into a run, out
//! of it by defeat or victory, and back again; and the credits overlay on the
//! lineup screen.

use vstd::prelude::*;

use crate::GameState;

verus! {

/// Something that moves the game between its top-level states.
#[derive(Clone, Copy, PartialEq, Eq, Debug, Structural)]
pub enum FlowEvent {
    /// The lineup was confirmed for every hero.
    LineupConfirmed,
    /// Every hero is down.
    PartyDown,
    /// The stage was raised on a linked network.
    StageRaised,
    /// `R` on the end screen.
    Restart,
    /// `M` on the end screen.
    BackToSelect,
}

/// The state after `e` in state `s`. Each event only counts in the state whose
/// screen produces it; anywhere else it changes nothing.
pub open spec fn flow_after(s: GameState, e: FlowEvent) -> GameState {
    match (s, e) {
        (GameState::Select, FlowEvent::LineupConfirmed) => GameState::Playing,
        (GameState::Playing, FlowEvent::PartyDown) => GameState::GameOver,
        (GameState::Playing, FlowEvent::StageRaised) => GameState::Victory,
        (GameState::GameOver, FlowEvent::Restart) => GameState::Playing,
        (GameState::Victory, FlowEvent::Restart) => GameState::Playing,
        (GameState::GameOver, FlowEvent::BackToSelect) => GameState::Select,
        (GameState::Victory, FlowEvent::BackToSelect) => GameState::Select,
        _ => s,
    }
}

/// Apply one event to the game's state.
pub fn advance(s: GameState, e: FlowEvent) -> (r: GameState)
    ensures
        r == flow_after(s, e),
{
    match (s, e) {
        (GameState::Select, FlowEvent::LineupConfirmed) => GameState::Playing,
        (GameState::Playing, FlowEvent::PartyDown) => GameState::GameOver,
        (GameState::Playing, FlowEvent::StageRaised) => GameState::Victory,
        (GameState::GameOver, FlowEvent::Restart) => GameState::Playing,
        (GameState::Victory, FlowEvent::Restart) => GameState::Playing,
        (GameState::GameOver, FlowEvent::BackToSelect) => GameState::Select,
        (GameState::Victory, FlowEvent::BackToSelect) => GameState::Select,
        _ => s,
    }
}

/// A run ends only from inside a run, and only by defeat or by victory; a run
/// that has ended can always be restarted or left for the lineup, and the
/// lineup always leads into a run.
pub proof fn lemma_flow(s: GameState, e: FlowEvent)
    ensures
        flow_after(s, e) == GameState::GameOver && s != GameState::GameOver ==> s
            == GameState::Playing && e == FlowEvent::PartyDown,
        flow_after(s, e) == GameState::Victory && s != GameState::Victory ==> s
            == GameState::Playing && e == FlowEvent::StageRaised,
        s == GameState::Playing && flow_after(s, e) != GameState::Playing ==> e
            == FlowEvent::PartyDown || e == FlowEvent::StageRaised,
        s == GameState::GameOver || s == GameState::Victory ==> flow_after(s, FlowEvent::Restart)
            == GameState::Playing,
        s == GameState::GameOver || s == GameState::Victory ==> flow_after(
            s,
            FlowEvent::BackToSelect,
        ) == GameState::Select,
        flow_after(GameState::Select, FlowEvent::LineupConfirmed) == GameState::Playing,
{
}

/// What the end screen's keys ask for: `R` restarts, otherwise `M` goes back
/// to the lineup. Only the side that runs the game acts on them.
pub open spec fn end_screen_event(restart: bool, menu: bool) -> Option<FlowEvent> {
    if restart {
        Some(FlowEvent::Restart)
    } else if menu {
        Some(FlowEvent::BackToSelect)
    } else {
        None
    }
}

/// The end screen (defeat or victory): the state to move to, if any. The run
/// clock restarts exactly when the state changes.
pub fn end_screen(s: GameState, authoritative: bool, restart: bool, menu: bool) -> (r: Option<
    GameState,
>)
    ensures
        r == if (s == GameState::GameOver || s == GameState::Victory) && authoritative {
            match end_screen_event(restart, menu) {
                Some(e) => Some(flow_after(s, e)),
                None => None,
            }
        } else {
            None
        },
{
    let ended = match s {
        GameState::GameOver | GameState::Victory => true,
        _ => false,
    };
    if !ended || !authoritative {
        None
    } else if restart {
        Some(advance(s, FlowEvent::Restart))
    } else if menu {
        Some(advance(s, FlowEvent::BackToSelect))
    } else {
        None
    }
}

/// On either end screen, for the side that runs the game, `R` restarts the run
/// whatever else is held, and `M` alone goes back to the lineup.
pub proof fn lemma_end_screen_keys(s: GameState, menu: bool)
    requires
        s == GameState::GameOver || s == GameState::Victory,
    ensures
        (match end_screen_event(true, menu) {
            Some(e) => Some(flow_after(s, e)),
            None => None,
        }) == Some(GameState::Playing),
        (match end_screen_event(false, true) {
            Some(e) => Some(flow_after(s, e)),
            None => None,
        }) == Some(GameState::Select),
        end_screen_event(false, false) is None,
{
}

/// What happens to the credits overlay.
#[derive(Clone, Copy, PartialEq, Eq, Debug, Structural)]
pub enum Overlay {
    Unchanged,
    /// Put the roll on screen.
    Show,
    /// Take it down.
    Hide,
}

/// The credits overlay on the lineup screen: `C` opens it; `C` or `Escape`
/// closes it. Returns whether it is open afterwards and what to do on screen.
pub fn credits_toggle(open: bool, c: bool, escape: bool) -> (r: (bool, Overlay))
    ensures
        open && (c || escape) ==> r == (false, Overlay::Hide),
        !open && c ==> r == (true, Overlay::Show),
        !(open && (c || escape)) && !(!open && c) ==> r == (open, Overlay::Unchanged),
{
    let wants_close = escape || (open && c);
    if open && wants_close {
        (false, Overlay::Hide)
    } else if !open && c {
        (true, Overlay::Show)
    } else {
        (open, Overlay::Unchanged)
    }
}

} // verus!

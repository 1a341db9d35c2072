use shooty::flow::{advance, credits_toggle, end_screen, FlowEvent, Overlay};
use shooty::GameState;

#[test]
fn a_run_from_lineup_to_the_end_and_back() {
    let s = advance(GameState::Select, FlowEvent::LineupConfirmed);
    assert_eq!(s, GameState::Playing);
    assert_eq!(advance(s, FlowEvent::PartyDown), GameState::GameOver);
    assert_eq!(advance(s, FlowEvent::StageRaised), GameState::Victory);
    assert_eq!(advance(GameState::GameOver, FlowEvent::Restart), GameState::Playing);
    assert_eq!(advance(GameState::Victory, FlowEvent::BackToSelect), GameState::Select);
}

#[test]
fn events_out_of_place_change_nothing() {
    assert_eq!(advance(GameState::Select, FlowEvent::PartyDown), GameState::Select);
    assert_eq!(advance(GameState::Playing, FlowEvent::Restart), GameState::Playing);
    assert_eq!(advance(GameState::GameOver, FlowEvent::StageRaised), GameState::GameOver);
    assert_eq!(advance(GameState::Victory, FlowEvent::LineupConfirmed), GameState::Victory);
}

#[test]
fn end_screen_keys() {
    assert_eq!(end_screen(GameState::GameOver, true, true, true), Some(GameState::Playing));
    assert_eq!(end_screen(GameState::Victory, true, false, true), Some(GameState::Select));
    assert_eq!(end_screen(GameState::Victory, true, false, false), None);
    assert_eq!(end_screen(GameState::Playing, true, true, false), None);
    // A client waits for the host.
    assert_eq!(end_screen(GameState::GameOver, false, true, false), None);
}

#[test]
fn credits_open_and_close() {
    assert_eq!(credits_toggle(false, true, false), (true, Overlay::Show));
    assert_eq!(credits_toggle(true, true, false), (false, Overlay::Hide));
    assert_eq!(credits_toggle(true, false, true), (false, Overlay::Hide));
    assert_eq!(credits_toggle(false, false, true), (false, Overlay::Unchanged));
    assert_eq!(credits_toggle(true, false, false), (true, Overlay::Unchanged));
    assert_eq!(credits_toggle(false, true, true), (true, Overlay::Show));
}

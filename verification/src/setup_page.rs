//! State of the setup page: the initial choice between setting up a new
//! profile or recovering keys, and the recovery phrase choice.

use crate::setup_flow::{ChoiceKeyOutcome, KeyPress};
use vstd::prelude::*;

verus! {

/// Holds all state related info for the setup page
#[derive(Clone, Copy, Debug, PartialEq, Eq, Structural)]
pub struct SetupPageState {
    pub active_page: SetupPages,
}

impl Default for SetupPageState {
    fn default() -> (state: Self)
        ensures
            state.active_page == SetupPages::Choice(ChoiceState { active_panel: ChoicePanel::Left }),
    {
        SetupPageState { active_page: SetupPages::default() }
    }
}

/// The pages of the setup page.
#[derive(Clone, Copy, Debug, PartialEq, Eq, Structural)]
pub enum SetupPages {
    Choice(ChoiceState),
    KeyRecovery(KeyRecoveryState),
}

impl Default for SetupPages {
    fn default() -> (page: Self)
        ensures
            page == SetupPages::Choice(ChoiceState { active_panel: ChoicePanel::Left }),
    {
        SetupPages::Choice(ChoiceState::default())
    }
}

// ****************************************************************************
// Initial setup mode selection state
// ****************************************************************************

/// State of the initial setup mode selection.
#[derive(Clone, Copy, Debug, PartialEq, Eq, Structural)]
pub struct ChoiceState {
    pub active_panel: ChoicePanel,
}

impl Default for ChoiceState {
    fn default() -> (state: Self)
        ensures
            state.active_panel == ChoicePanel::Left,
    {
        ChoiceState { active_panel: ChoicePanel::Left }
    }
}

/// The two panels of the setup mode selection.
#[derive(Clone, Copy, Debug, PartialEq, Eq, Structural)]
pub enum ChoicePanel {
    Left,
    Right,
}

impl Default for ChoicePanel {
    fn default() -> (panel: Self)
        ensures
            panel == ChoicePanel::Left,
    {
        ChoicePanel::Left
    }
}

/// The other panel of the setup mode selection.
pub open spec fn choice_panel_switched(p: ChoicePanel) -> ChoicePanel {
    match p {
        ChoicePanel::Left => ChoicePanel::Right,
        ChoicePanel::Right => ChoicePanel::Left,
    }
}

impl ChoicePanel {
    /// Switches to the next panel when pressing <TAB>
    pub fn switch(&self) -> (next: Self)
        ensures
            next == choice_panel_switched(*self),
    {
        match self {
            ChoicePanel::Left => ChoicePanel::Right,
            ChoicePanel::Right => ChoicePanel::Left,
        }
    }

    /// What a key press does on the setup mode selection: F10 quits, TAB and
    /// the left and right arrows switch the panel; other keys do nothing.
    pub fn on_key(&self, key: KeyPress) -> (outcome: ChoiceKeyOutcome<Self>)
        ensures
            outcome == (match key {
                KeyPress::Function(n) => if n == 10 {
                    ChoiceKeyOutcome::Quit
                } else {
                    ChoiceKeyOutcome::Ignored
                },
                KeyPress::Tab | KeyPress::Left | KeyPress::Right => ChoiceKeyOutcome::Selected(
                    choice_panel_switched(*self),
                ),
                _ => ChoiceKeyOutcome::Ignored,
            }),
    {
        match key {
            KeyPress::Function(10) => ChoiceKeyOutcome::Quit,
            KeyPress::Tab | KeyPress::Left | KeyPress::Right => ChoiceKeyOutcome::Selected(
                self.switch(),
            ),
            _ => ChoiceKeyOutcome::Ignored,
        }
    }
}

/// Switching panels twice returns to the first panel; switching always
/// changes the panel.
pub proof fn lemma_choice_panel_switch_involutive(p: ChoicePanel)
    ensures
        choice_panel_switched(choice_panel_switched(p)) == p,
        choice_panel_switched(p) != p,
{
}

// ****************************************************************************
// Key Recovery
// ****************************************************************************

/// State of the key recovery page.
#[derive(Clone, Copy, Debug, PartialEq, Eq, Structural)]
pub struct KeyRecoveryState {
    pub active_choice: BIP32Choice,
}

impl Default for KeyRecoveryState {
    fn default() -> (state: Self)
        ensures
            state.active_choice == BIP32Choice::Create,
    {
        KeyRecoveryState { active_choice: BIP32Choice::Create }
    }
}

/// Whether to create a new BIP32 seed or import an existing one.
#[derive(Clone, Copy, Debug, PartialEq, Eq, Structural)]
pub enum BIP32Choice {
    Create,
    Import,
}

impl Default for BIP32Choice {
    fn default() -> (choice: Self)
        ensures
            choice == BIP32Choice::Create,
    {
        BIP32Choice::Create
    }
}

/// The other BIP32 seed choice.
pub open spec fn bip32_choice_switched(c: BIP32Choice) -> BIP32Choice {
    match c {
        BIP32Choice::Create => BIP32Choice::Import,
        BIP32Choice::Import => BIP32Choice::Create,
    }
}

impl BIP32Choice {
    /// Switches to the next panel when pressing <TAB>
    pub fn switch(&self) -> (next: Self)
        ensures
            next == bip32_choice_switched(*self),
    {
        match self {
            BIP32Choice::Create => BIP32Choice::Import,
            BIP32Choice::Import => BIP32Choice::Create,
        }
    }

    /// What a key press does on the key recovery page: F10 quits, TAB and the
    /// up and down arrows switch the choice; other keys do nothing.
    pub fn on_key(&self, key: KeyPress) -> (outcome: ChoiceKeyOutcome<Self>)
        ensures
            outcome == (match key {
                KeyPress::Function(n) => if n == 10 {
                    ChoiceKeyOutcome::Quit
                } else {
                    ChoiceKeyOutcome::Ignored
                },
                KeyPress::Tab | KeyPress::Up | KeyPress::Down => ChoiceKeyOutcome::Selected(
                    bip32_choice_switched(*self),
                ),
                _ => ChoiceKeyOutcome::Ignored,
            }),
    {
        match key {
            KeyPress::Function(10) => ChoiceKeyOutcome::Quit,
            KeyPress::Tab | KeyPress::Up | KeyPress::Down => ChoiceKeyOutcome::Selected(
                self.switch(),
            ),
            _ => ChoiceKeyOutcome::Ignored,
        }
    }
}

/// Switching the BIP32 seed choice twice returns to the first choice;
/// switching always changes the choice.
pub proof fn lemma_bip32_choice_switch_involutive(c: BIP32Choice)
    ensures
        bip32_choice_switched(bip32_choice_switched(c)) == c,
        bip32_choice_switched(c) != c,
{
}

} // verus!

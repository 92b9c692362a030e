//! State of the main page: which of its two panels (the menu or the content)
//! is selected, which menu item is highlighted, and what key presses do.

use crate::setup_flow::KeyPress;
use vstd::prelude::*;

verus! {

/// The items of the main menu.
#[derive(Clone, Copy, Debug, PartialEq, Eq, Structural)]
pub enum MainMenu {
    Settings,
    Help,
    Quit,
}

impl Default for MainMenu {
    fn default() -> (item: Self)
        ensures
            item == MainMenu::Settings,
    {
        MainMenu::Settings
    }
}

/// State related to the menu panel
#[derive(Clone, Copy, Debug, PartialEq, Eq, Structural)]
pub struct MenuPanelState {
    /// Is the menu panel the selected panel?
    pub selected: bool,
    /// The highlighted menu item
    pub selected_menu: MainMenu,
}

/// State related to the content panel
#[derive(Clone, Copy, Debug, PartialEq, Eq, Structural)]
pub struct ContentPanelState {
    /// Is the content panel the selected panel?
    pub selected: bool,
}

/// Holds all state related info for the main page
#[derive(Clone, Copy, Debug, PartialEq, Eq, Structural)]
pub struct MainPageState {
    /// State related to the menu panel
    pub menu_panel: MenuPanelState,
    /// State related to the content panel
    pub content_panel: ContentPanelState,
}

impl Default for MainPageState {
    fn default() -> (state: Self)
        ensures
            !state.menu_panel.selected,
            state.menu_panel.selected_menu == MainMenu::Settings,
            !state.content_panel.selected,
    {
        MainPageState {
            menu_panel: MenuPanelState { selected: false, selected_menu: MainMenu::Settings },
            content_panel: ContentPanelState { selected: false },
        }
    }
}

/// The two panels of the main page.
#[derive(Clone, Copy, Debug, PartialEq, Eq, Structural)]
pub enum MainPanel {
    MainMenu,
    ContentPanel,
}

impl Default for MainPanel {
    fn default() -> (panel: Self)
        ensures
            panel == MainPanel::MainMenu,
    {
        MainPanel::MainMenu
    }
}

/// The other panel of the main page.
pub open spec fn main_panel_switched(p: MainPanel) -> MainPanel {
    match p {
        MainPanel::MainMenu => MainPanel::ContentPanel,
        MainPanel::ContentPanel => MainPanel::MainMenu,
    }
}

impl MainPanel {
    /// Switches to the next panel when pressing <TAB>
    pub fn switch(&self) -> (next: Self)
        ensures
            next == main_panel_switched(*self),
    {
        match self {
            MainPanel::MainMenu => MainPanel::ContentPanel,
            MainPanel::ContentPanel => MainPanel::MainMenu,
        }
    }
}

/// Switching panels twice returns to the first panel; switching always
/// changes the panel.
pub proof fn lemma_main_panel_switch_involutive(p: MainPanel)
    ensures
        main_panel_switched(main_panel_switched(p)) == p,
        main_panel_switched(p) != p,
{
}

/// The panel that is selected on a page state, when exactly one is.
pub open spec fn selected_panel(state: MainPageState) -> Option<MainPanel> {
    if state.menu_panel.selected && !state.content_panel.selected {
        Some(MainPanel::MainMenu)
    } else if state.content_panel.selected && !state.menu_panel.selected {
        Some(MainPanel::ContentPanel)
    } else {
        None
    }
}

/// What a key press on the main page asks for.
#[derive(Clone, Copy, Debug, PartialEq, Eq, Structural)]
pub enum MainPageKeyOutcome {
    /// Quit the application.
    Quit,
    /// Highlight the given menu item.
    SelectMenu(MainMenu),
    /// Select the given panel.
    SwitchPanel(MainPanel),
    /// The key has no effect.
    Ignored,
}

/// The menu item above `m`, wrapping from the first to the last.
pub open spec fn menu_prev(m: MainMenu) -> MainMenu {
    match m {
        MainMenu::Settings => MainMenu::Quit,
        MainMenu::Help => MainMenu::Settings,
        MainMenu::Quit => MainMenu::Help,
    }
}

/// The menu item below `m`, wrapping from the last to the first.
pub open spec fn menu_next(m: MainMenu) -> MainMenu {
    match m {
        MainMenu::Settings => MainMenu::Help,
        MainMenu::Help => MainMenu::Quit,
        MainMenu::Quit => MainMenu::Settings,
    }
}

impl MainMenu {
    /// The menu item above this one.
    pub fn prev(&self) -> (item: Self)
        ensures
            item == menu_prev(*self),
    {
        match self {
            MainMenu::Settings => MainMenu::Quit,
            MainMenu::Help => MainMenu::Settings,
            MainMenu::Quit => MainMenu::Help,
        }
    }

    /// The menu item below this one.
    pub fn next(&self) -> (item: Self)
        ensures
            item == menu_next(*self),
    {
        match self {
            MainMenu::Settings => MainMenu::Help,
            MainMenu::Help => MainMenu::Quit,
            MainMenu::Quit => MainMenu::Settings,
        }
    }
}

/// Moving down and then up the menu (or up and then down) returns to the
/// same menu item.
pub proof fn lemma_menu_prev_next(m: MainMenu)
    ensures
        menu_prev(menu_next(m)) == m,
        menu_next(menu_prev(m)) == m,
{
}

/// What `key` asks for on the main page in `state`.
pub open spec fn main_page_key_outcome(state: MainPageState, key: KeyPress) -> MainPageKeyOutcome {
    match key {
        KeyPress::Function(n) => if n == 10 {
            MainPageKeyOutcome::Quit
        } else {
            MainPageKeyOutcome::Ignored
        },
        KeyPress::Up => if state.menu_panel.selected {
            MainPageKeyOutcome::SelectMenu(menu_prev(state.menu_panel.selected_menu))
        } else {
            MainPageKeyOutcome::Ignored
        },
        KeyPress::Down => if state.menu_panel.selected {
            MainPageKeyOutcome::SelectMenu(menu_next(state.menu_panel.selected_menu))
        } else {
            MainPageKeyOutcome::Ignored
        },
        KeyPress::Tab => if state.menu_panel.selected {
            MainPageKeyOutcome::SwitchPanel(MainPanel::ContentPanel)
        } else {
            MainPageKeyOutcome::SwitchPanel(MainPanel::MainMenu)
        },
        KeyPress::Enter => if state.menu_panel.selected_menu == MainMenu::Quit {
            MainPageKeyOutcome::Quit
        } else if state.menu_panel.selected {
            MainPageKeyOutcome::SwitchPanel(MainPanel::ContentPanel)
        } else {
            MainPageKeyOutcome::Ignored
        },
        _ => MainPageKeyOutcome::Ignored,
    }
}

impl MainPageState {
    /// What a key press asks for on the main page: F10 quits; Up and Down
    /// move through the menu while it is selected; TAB switches between the
    /// panels; ENTER quits on the Quit item and otherwise opens the content.
    pub fn on_key(&self, key: KeyPress) -> (outcome: MainPageKeyOutcome)
        ensures
            outcome == main_page_key_outcome(*self, key),
    {
        match key {
            KeyPress::Function(10) => MainPageKeyOutcome::Quit,
            KeyPress::Up => {
                if self.menu_panel.selected {
                    MainPageKeyOutcome::SelectMenu(self.menu_panel.selected_menu.prev())
                } else {
                    MainPageKeyOutcome::Ignored
                }
            },
            KeyPress::Down => {
                if self.menu_panel.selected {
                    MainPageKeyOutcome::SelectMenu(self.menu_panel.selected_menu.next())
                } else {
                    MainPageKeyOutcome::Ignored
                }
            },
            KeyPress::Tab => {
                if self.menu_panel.selected {
                    MainPageKeyOutcome::SwitchPanel(MainPanel::ContentPanel)
                } else {
                    MainPageKeyOutcome::SwitchPanel(MainPanel::MainMenu)
                }
            },
            KeyPress::Enter => {
                if self.menu_panel.selected_menu == MainMenu::Quit {
                    MainPageKeyOutcome::Quit
                } else if self.menu_panel.selected {
                    MainPageKeyOutcome::SwitchPanel(MainPanel::ContentPanel)
                } else {
                    MainPageKeyOutcome::Ignored
                }
            },
            _ => MainPageKeyOutcome::Ignored,
        }
    }

    /// Switches to the main menu (selects the menu panel).
    pub fn activate_main_menu(&mut self)
        ensures
            final(self).menu_panel.selected,
            !final(self).content_panel.selected,
            final(self).menu_panel.selected_menu == old(self).menu_panel.selected_menu,
    {
        self.menu_panel.selected = true;
        self.content_panel.selected = false;
    }

    /// Highlights a menu item.
    pub fn select_menu(&mut self, menu_item: MainMenu)
        ensures
            final(self).menu_panel.selected_menu == menu_item,
            final(self).menu_panel.selected == old(self).menu_panel.selected,
            final(self).content_panel == old(self).content_panel,
    {
        self.menu_panel.selected_menu = menu_item;
    }

    /// Selects a panel (and deselects the other one).
    pub fn switch_panel(&mut self, panel: MainPanel)
        ensures
            selected_panel(*final(self)) == Some(panel),
            final(self).menu_panel.selected_menu == old(self).menu_panel.selected_menu,
    {
        match panel {
            MainPanel::ContentPanel => {
                self.menu_panel.selected = false;
                self.content_panel.selected = true;
            },
            MainPanel::MainMenu => {
                self.menu_panel.selected = true;
                self.content_panel.selected = false;
            },
        }
    }
}

/// On a main page with one panel selected, the panel that TAB switches to is
/// the other one, so switching to it leaves exactly that panel selected.
pub proof fn lemma_tab_switches_to_other_panel(state: MainPageState)
    requires
        selected_panel(state) is Some,
    ensures
        main_page_key_outcome(state, KeyPress::Tab) == MainPageKeyOutcome::SwitchPanel(
            main_panel_switched(selected_panel(state)->Some_0),
        ),
{
}

} // verus!

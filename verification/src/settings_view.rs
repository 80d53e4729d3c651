//! The state of the two settings views.
//!
//! A view is a short list of rows. Keys move the selection or act on the
//! selected row; acting on a row may ask the application to change a
//! setting. Drawing the rows is the caller's part.

use vstd::prelude::*;
use crate::account::AccountSwitchingMode;

verus! {

/// The number of rows of a settings view: three settings and the row that
/// closes the view.
pub const OPTION_COUNT: usize = 4;

/// The keys that a settings view tells apart.
#[derive(Clone, Copy, Debug, PartialEq, Eq, Structural)]
pub enum SettingsKey {
    Esc,
    Up,
    Down,
    Tab,
    BackTab,
    Enter,
    Space,
    /// Any other key.
    Other,
}

/// The row that is selected after `key`, where `key` moves the selection.
/// Moving up stops at the first row; moving down goes round; the back tab
/// goes round the other way.
pub open spec fn moved_selection(selected: usize, key: SettingsKey) -> usize {
    match key {
        SettingsKey::Up => if selected == 0 {
            0
        } else {
            (selected - 1) as usize
        },
        SettingsKey::Down | SettingsKey::Tab => ((selected + 1) % (OPTION_COUNT as int)) as usize,
        SettingsKey::BackTab => if selected == 0 {
            (OPTION_COUNT - 1) as usize
        } else {
            (selected - 1) as usize
        },
        _ => selected,
    }
}

/// Returns the row that is selected after `key`.
fn move_selection(selected: usize, key: SettingsKey) -> (r: usize)
    requires
        selected < OPTION_COUNT,
    ensures
        r == moved_selection(selected, key),
        r < OPTION_COUNT,
{
    match key {
        SettingsKey::Up => if selected == 0 {
            0
        } else {
            selected - 1
        },
        SettingsKey::Down | SettingsKey::Tab => (selected + 1) % OPTION_COUNT,
        SettingsKey::BackTab => if selected == 0 {
            OPTION_COUNT - 1
        } else {
            selected - 1
        },
        _ => selected,
    }
}

/// What the view of the display settings asks the application to do.
#[derive(Clone, Copy, Debug, PartialEq, Eq, Structural)]
pub enum MagicSettingsEvent {
    SetTuiShowReasoning(bool),
    SetTuiShowBlockTypeLabels(bool),
    SetTuiRoundedCorners(bool),
}

/// The view of the display settings, as a mathematical value.
pub struct MagicSettingsState {
    pub selected_index: usize,
    pub show_reasoning: bool,
    pub show_block_type_labels: bool,
    pub rounded_corners: bool,
    pub is_complete: bool,
}

impl MagicSettingsState {
    /// The view after the selected row was acted on, and what is asked of
    /// the application.
    pub open spec fn activated(self) -> (MagicSettingsState, Option<MagicSettingsEvent>) {
        if self.selected_index == 0 {
            (
                MagicSettingsState { show_reasoning: !self.show_reasoning, ..self },
                Some(MagicSettingsEvent::SetTuiShowReasoning(!self.show_reasoning)),
            )
        } else if self.selected_index == 1 {
            (
                MagicSettingsState { show_block_type_labels: !self.show_block_type_labels, ..self },
                Some(MagicSettingsEvent::SetTuiShowBlockTypeLabels(!self.show_block_type_labels)),
            )
        } else if self.selected_index == 2 {
            (
                MagicSettingsState { rounded_corners: !self.rounded_corners, ..self },
                Some(MagicSettingsEvent::SetTuiRoundedCorners(!self.rounded_corners)),
            )
        } else if self.selected_index == 3 {
            (MagicSettingsState { is_complete: true, ..self }, None)
        } else {
            (self, None)
        }
    }

    /// The view after `key`, and what is asked of the application. Escape
    /// closes the view, Enter acts on the selected row, and the other keys
    /// move the selection or do nothing.
    pub open spec fn after_key(self, key: SettingsKey) -> (
        MagicSettingsState,
        Option<MagicSettingsEvent>,
    ) {
        match key {
            SettingsKey::Esc => (MagicSettingsState { is_complete: true, ..self }, None),
            SettingsKey::Enter => self.activated(),
            _ => (
                MagicSettingsState {
                    selected_index: moved_selection(self.selected_index, key),
                    ..self
                },
                None,
            ),
        }
    }
}

/// The view of the display settings.
pub struct MagicSettingsView {
    selected_index: usize,
    show_reasoning: bool,
    show_block_type_labels: bool,
    rounded_corners: bool,
    is_complete: bool,
}

impl View for MagicSettingsView {
    type V = MagicSettingsState;

    closed spec fn view(&self) -> MagicSettingsState {
        MagicSettingsState {
            selected_index: self.selected_index,
            show_reasoning: self.show_reasoning,
            show_block_type_labels: self.show_block_type_labels,
            rounded_corners: self.rounded_corners,
            is_complete: self.is_complete,
        }
    }
}

impl MagicSettingsView {
    #[verifier::type_invariant]
    closed spec fn wf(&self) -> bool {
        self.selected_index < OPTION_COUNT
    }

    /// Opens the view with the first row selected.
    pub fn new(show_reasoning: bool, show_block_type_labels: bool, rounded_corners: bool) -> (view:
        MagicSettingsView)
        ensures
            view@ == (MagicSettingsState {
                selected_index: 0,
                show_reasoning,
                show_block_type_labels,
                rounded_corners,
                is_complete: false,
            }),
    {
        MagicSettingsView {
            selected_index: 0,
            show_reasoning,
            show_block_type_labels,
            rounded_corners,
            is_complete: false,
        }
    }

    /// Returns the number of rows.
    pub fn option_count() -> (n: usize)
        ensures
            n == OPTION_COUNT,
    {
        OPTION_COUNT
    }

    /// Returns the selected row. It is always one of the rows.
    pub fn selected_index(&self) -> (i: usize)
        ensures
            i == self@.selected_index,
            i < OPTION_COUNT,
    {
        proof {
            use_type_invariant(self);
        }
        self.selected_index
    }

    /// Tells whether reasoning is shown.
    pub fn show_reasoning(&self) -> (on: bool)
        ensures
            on == self@.show_reasoning,
    {
        self.show_reasoning
    }

    /// Tells whether the labels of block types are shown.
    pub fn show_block_type_labels(&self) -> (on: bool)
        ensures
            on == self@.show_block_type_labels,
    {
        self.show_block_type_labels
    }

    /// Tells whether corners are rounded.
    pub fn rounded_corners(&self) -> (on: bool)
        ensures
            on == self@.rounded_corners,
    {
        self.rounded_corners
    }

    /// Closes the view.
    pub fn close(&mut self)
        ensures
            final(self)@ == (MagicSettingsState { is_complete: true, ..old(self)@ }),
    {
        proof {
            use_type_invariant(&*self);
        }
        self.is_complete = true;
    }

    /// Turns the display of reasoning on or off.
    pub fn toggle_show_reasoning(&mut self) -> (event: MagicSettingsEvent)
        ensures
            final(self)@ == (MagicSettingsState {
                show_reasoning: !old(self)@.show_reasoning,
                ..old(self)@
            }),
            event == MagicSettingsEvent::SetTuiShowReasoning(!old(self)@.show_reasoning),
    {
        proof {
            use_type_invariant(&*self);
        }
        self.show_reasoning = !self.show_reasoning;
        MagicSettingsEvent::SetTuiShowReasoning(self.show_reasoning)
    }

    /// Turns the labels of block types on or off.
    pub fn toggle_show_block_type_labels(&mut self) -> (event: MagicSettingsEvent)
        ensures
            final(self)@ == (MagicSettingsState {
                show_block_type_labels: !old(self)@.show_block_type_labels,
                ..old(self)@
            }),
            event == MagicSettingsEvent::SetTuiShowBlockTypeLabels(
                !old(self)@.show_block_type_labels,
            ),
    {
        proof {
            use_type_invariant(&*self);
        }
        self.show_block_type_labels = !self.show_block_type_labels;
        MagicSettingsEvent::SetTuiShowBlockTypeLabels(self.show_block_type_labels)
    }

    /// Turns rounded corners on or off.
    pub fn toggle_rounded_corners(&mut self) -> (event: MagicSettingsEvent)
        ensures
            final(self)@ == (MagicSettingsState {
                rounded_corners: !old(self)@.rounded_corners,
                ..old(self)@
            }),
            event == MagicSettingsEvent::SetTuiRoundedCorners(!old(self)@.rounded_corners),
    {
        proof {
            use_type_invariant(&*self);
        }
        self.rounded_corners = !self.rounded_corners;
        MagicSettingsEvent::SetTuiRoundedCorners(self.rounded_corners)
    }

    /// Acts on the selected row.
    pub fn activate_selected(&mut self) -> (event: Option<MagicSettingsEvent>)
        ensures
            final(self)@ == old(self)@.activated().0,
            event == old(self)@.activated().1,
    {
        match self.selected_index {
            0 => Some(self.toggle_show_reasoning()),
            1 => Some(self.toggle_show_block_type_labels()),
            2 => Some(self.toggle_rounded_corners()),
            3 => {
                self.close();
                None
            },
            _ => None,
        }
    }

    /// Takes in a key.
    pub fn handle_key_event_direct(&mut self, key: SettingsKey) -> (event: Option<
        MagicSettingsEvent,
    >)
        ensures
            final(self)@ == old(self)@.after_key(key).0,
            event == old(self)@.after_key(key).1,
    {
        proof {
            use_type_invariant(&*self);
        }
        match key {
            SettingsKey::Esc => {
                self.close();
                None
            },
            SettingsKey::Enter => self.activate_selected(),
            _ => {
                self.selected_index = move_selection(self.selected_index, key);
                None
            },
        }
    }

    /// Tells whether the view was closed.
    pub fn is_view_complete(&self) -> (done: bool)
        ensures
            done == self@.is_complete,
    {
        self.is_complete
    }
}

/// What the view of the account settings asks the application to do.
#[derive(Clone, Copy, Debug, PartialEq, Eq, Structural)]
pub enum AccountSwitchSettingsEvent {
    SetAutoSwitchAccountsOnRateLimit(bool),
    SetApiKeyFallbackOnAllAccountsLimited(bool),
    SetAccountSwitchingMode(AccountSwitchingMode),
}

/// The mode that follows `mode` when the modes are gone through in turn.
pub open spec fn following_mode(mode: AccountSwitchingMode) -> AccountSwitchingMode {
    match mode {
        AccountSwitchingMode::Manual => AccountSwitchingMode::OnLimit,
        AccountSwitchingMode::OnLimit => AccountSwitchingMode::EvenUsage,
        AccountSwitchingMode::EvenUsage => AccountSwitchingMode::Step45,
        AccountSwitchingMode::Step45 => AccountSwitchingMode::ResetBased,
        AccountSwitchingMode::ResetBased => AccountSwitchingMode::Manual,
    }
}

/// Going through the modes in turn comes by every mode and is back at the
/// start after five steps.
pub proof fn lemma_modes_go_round(mode: AccountSwitchingMode)
    ensures
        following_mode(following_mode(following_mode(following_mode(following_mode(mode)))))
            == mode,
        following_mode(mode) != mode,
{
}

/// The view of the account settings, as a mathematical value.
pub struct AccountSwitchSettingsState {
    pub selected_index: usize,
    pub auto_switch_enabled: bool,
    pub api_key_fallback_enabled: bool,
    pub switching_mode: AccountSwitchingMode,
    pub is_complete: bool,
}

impl AccountSwitchSettingsState {
    /// The view after the selected row was acted on, and what is asked of
    /// the application.
    pub open spec fn activated(self) -> (
        AccountSwitchSettingsState,
        Option<AccountSwitchSettingsEvent>,
    ) {
        if self.selected_index == 0 {
            (
                AccountSwitchSettingsState {
                    auto_switch_enabled: !self.auto_switch_enabled,
                    ..self
                },
                Some(
                    AccountSwitchSettingsEvent::SetAutoSwitchAccountsOnRateLimit(
                        !self.auto_switch_enabled,
                    ),
                ),
            )
        } else if self.selected_index == 1 {
            (
                AccountSwitchSettingsState {
                    api_key_fallback_enabled: !self.api_key_fallback_enabled,
                    ..self
                },
                Some(
                    AccountSwitchSettingsEvent::SetApiKeyFallbackOnAllAccountsLimited(
                        !self.api_key_fallback_enabled,
                    ),
                ),
            )
        } else if self.selected_index == 2 {
            (
                AccountSwitchSettingsState {
                    switching_mode: following_mode(self.switching_mode),
                    ..self
                },
                Some(
                    AccountSwitchSettingsEvent::SetAccountSwitchingMode(
                        following_mode(self.switching_mode),
                    ),
                ),
            )
        } else if self.selected_index == 3 {
            (AccountSwitchSettingsState { is_complete: true, ..self }, None)
        } else {
            (self, None)
        }
    }

    /// The view after `key`, and what is asked of the application. Escape
    /// closes the view, Enter and the space bar act on the selected row, and
    /// the other keys move the selection or do nothing.
    pub open spec fn after_key(self, key: SettingsKey) -> (
        AccountSwitchSettingsState,
        Option<AccountSwitchSettingsEvent>,
    ) {
        match key {
            SettingsKey::Esc => (AccountSwitchSettingsState { is_complete: true, ..self }, None),
            SettingsKey::Enter | SettingsKey::Space => self.activated(),
            _ => (
                AccountSwitchSettingsState {
                    selected_index: moved_selection(self.selected_index, key),
                    ..self
                },
                None,
            ),
        }
    }
}

/// The view of the account settings.
pub struct AccountSwitchSettingsView {
    selected_index: usize,
    auto_switch_enabled: bool,
    api_key_fallback_enabled: bool,
    switching_mode: AccountSwitchingMode,
    is_complete: bool,
}

impl View for AccountSwitchSettingsView {
    type V = AccountSwitchSettingsState;

    closed spec fn view(&self) -> AccountSwitchSettingsState {
        AccountSwitchSettingsState {
            selected_index: self.selected_index,
            auto_switch_enabled: self.auto_switch_enabled,
            api_key_fallback_enabled: self.api_key_fallback_enabled,
            switching_mode: self.switching_mode,
            is_complete: self.is_complete,
        }
    }
}

impl AccountSwitchSettingsView {
    #[verifier::type_invariant]
    closed spec fn wf(&self) -> bool {
        self.selected_index < OPTION_COUNT
    }

    /// Opens the view with the first row selected.
    pub fn new(
        auto_switch_enabled: bool,
        api_key_fallback_enabled: bool,
        switching_mode: AccountSwitchingMode,
    ) -> (view: AccountSwitchSettingsView)
        ensures
            view@ == (AccountSwitchSettingsState {
                selected_index: 0,
                auto_switch_enabled,
                api_key_fallback_enabled,
                switching_mode,
                is_complete: false,
            }),
    {
        AccountSwitchSettingsView {
            selected_index: 0,
            auto_switch_enabled,
            api_key_fallback_enabled,
            switching_mode,
            is_complete: false,
        }
    }

    /// Returns the number of rows.
    pub fn option_count() -> (n: usize)
        ensures
            n == OPTION_COUNT,
    {
        OPTION_COUNT
    }

    /// Returns the selected row. It is always one of the rows.
    pub fn selected_index(&self) -> (i: usize)
        ensures
            i == self@.selected_index,
            i < OPTION_COUNT,
    {
        proof {
            use_type_invariant(self);
        }
        self.selected_index
    }

    /// Tells whether accounts are switched automatically.
    pub fn auto_switch_enabled(&self) -> (on: bool)
        ensures
            on == self@.auto_switch_enabled,
    {
        self.auto_switch_enabled
    }

    /// Tells whether the API-key fallback is allowed.
    pub fn api_key_fallback_enabled(&self) -> (on: bool)
        ensures
            on == self@.api_key_fallback_enabled,
    {
        self.api_key_fallback_enabled
    }

    /// Returns the mode that is set.
    pub fn switching_mode(&self) -> (mode: AccountSwitchingMode)
        ensures
            mode == self@.switching_mode,
    {
        self.switching_mode
    }

    /// Turns automatic switching on or off.
    pub fn toggle_auto_switch(&mut self) -> (event: AccountSwitchSettingsEvent)
        ensures
            final(self)@ == (AccountSwitchSettingsState {
                auto_switch_enabled: !old(self)@.auto_switch_enabled,
                ..old(self)@
            }),
            event == AccountSwitchSettingsEvent::SetAutoSwitchAccountsOnRateLimit(
                !old(self)@.auto_switch_enabled,
            ),
    {
        proof {
            use_type_invariant(&*self);
        }
        self.auto_switch_enabled = !self.auto_switch_enabled;
        AccountSwitchSettingsEvent::SetAutoSwitchAccountsOnRateLimit(self.auto_switch_enabled)
    }

    /// Turns the API-key fallback on or off.
    pub fn toggle_api_key_fallback(&mut self) -> (event: AccountSwitchSettingsEvent)
        ensures
            final(self)@ == (AccountSwitchSettingsState {
                api_key_fallback_enabled: !old(self)@.api_key_fallback_enabled,
                ..old(self)@
            }),
            event == AccountSwitchSettingsEvent::SetApiKeyFallbackOnAllAccountsLimited(
                !old(self)@.api_key_fallback_enabled,
            ),
    {
        proof {
            use_type_invariant(&*self);
        }
        self.api_key_fallback_enabled = !self.api_key_fallback_enabled;
        AccountSwitchSettingsEvent::SetApiKeyFallbackOnAllAccountsLimited(
            self.api_key_fallback_enabled,
        )
    }

    /// Closes the view.
    pub fn close(&mut self)
        ensures
            final(self)@ == (AccountSwitchSettingsState { is_complete: true, ..old(self)@ }),
    {
        proof {
            use_type_invariant(&*self);
        }
        self.is_complete = true;
    }

    /// Returns the short name of a mode.
    pub fn switching_mode_label(mode: AccountSwitchingMode) -> (label: &'static str)
        ensures
            label@ == match mode {
                AccountSwitchingMode::Manual => "Manual"@,
                AccountSwitchingMode::OnLimit => "On limit"@,
                AccountSwitchingMode::EvenUsage => "Even usage"@,
                AccountSwitchingMode::Step45 => "Step 45%"@,
                AccountSwitchingMode::ResetBased => "Reset-based"@,
            },
    {
        match mode {
            AccountSwitchingMode::Manual => "Manual",
            AccountSwitchingMode::OnLimit => "On limit",
            AccountSwitchingMode::EvenUsage => "Even usage",
            AccountSwitchingMode::Step45 => "Step 45%",
            AccountSwitchingMode::ResetBased => "Reset-based",
        }
    }

    /// Returns the sentence that explains a mode.
    pub fn switching_mode_description(mode: AccountSwitchingMode) -> (text: &'static str)
        ensures
            text@ == match mode {
                AccountSwitchingMode::Manual =>
                    "Never auto-switch accounts; stick to the currently active account."@,
                AccountSwitchingMode::OnLimit =>
                    "Only switches when the active account is limited."@,
                AccountSwitchingMode::EvenUsage =>
                    "Keeps accounts within ~10% usage of each other."@,
                AccountSwitchingMode::Step45 => "Rotates when an account crosses 45% steps."@,
                AccountSwitchingMode::ResetBased =>
                    "Prefers accounts with the soonest short-window reset time."@,
            },
    {
        match mode {
            AccountSwitchingMode::Manual => {
                "Never auto-switch accounts; stick to the currently active account."
            },
            AccountSwitchingMode::OnLimit => "Only switches when the active account is limited.",
            AccountSwitchingMode::EvenUsage => "Keeps accounts within ~10% usage of each other.",
            AccountSwitchingMode::Step45 => "Rotates when an account crosses 45% steps.",
            AccountSwitchingMode::ResetBased => {
                "Prefers accounts with the soonest short-window reset time."
            },
        }
    }

    /// Returns the mode that follows `mode`.
    pub fn next_switching_mode(mode: AccountSwitchingMode) -> (next: AccountSwitchingMode)
        ensures
            next == following_mode(mode),
    {
        match mode {
            AccountSwitchingMode::Manual => AccountSwitchingMode::OnLimit,
            AccountSwitchingMode::OnLimit => AccountSwitchingMode::EvenUsage,
            AccountSwitchingMode::EvenUsage => AccountSwitchingMode::Step45,
            AccountSwitchingMode::Step45 => AccountSwitchingMode::ResetBased,
            AccountSwitchingMode::ResetBased => AccountSwitchingMode::Manual,
        }
    }

    /// Moves on to the next mode.
    pub fn cycle_switching_mode(&mut self) -> (event: AccountSwitchSettingsEvent)
        ensures
            final(self)@ == (AccountSwitchSettingsState {
                switching_mode: following_mode(old(self)@.switching_mode),
                ..old(self)@
            }),
            event == AccountSwitchSettingsEvent::SetAccountSwitchingMode(
                following_mode(old(self)@.switching_mode),
            ),
    {
        proof {
            use_type_invariant(&*self);
        }
        self.switching_mode = AccountSwitchSettingsView::next_switching_mode(self.switching_mode);
        AccountSwitchSettingsEvent::SetAccountSwitchingMode(self.switching_mode)
    }

    /// Acts on the selected row.
    pub fn activate_selected(&mut self) -> (event: Option<AccountSwitchSettingsEvent>)
        ensures
            final(self)@ == old(self)@.activated().0,
            event == old(self)@.activated().1,
    {
        match self.selected_index {
            0 => Some(self.toggle_auto_switch()),
            1 => Some(self.toggle_api_key_fallback()),
            2 => Some(self.cycle_switching_mode()),
            3 => {
                self.close();
                None
            },
            _ => None,
        }
    }

    /// Takes in a key.
    pub fn handle_key_event_direct(&mut self, key: SettingsKey) -> (event: Option<
        AccountSwitchSettingsEvent,
    >)
        ensures
            final(self)@ == old(self)@.after_key(key).0,
            event == old(self)@.after_key(key).1,
    {
        proof {
            use_type_invariant(&*self);
        }
        match key {
            SettingsKey::Esc => {
                self.close();
                None
            },
            SettingsKey::Enter | SettingsKey::Space => self.activate_selected(),
            _ => {
                self.selected_index = move_selection(self.selected_index, key);
                None
            },
        }
    }

    /// Tells whether the view was closed.
    pub fn is_view_complete(&self) -> (done: bool)
        ensures
            done == self@.is_complete,
    {
        self.is_complete
    }
}

} // verus!

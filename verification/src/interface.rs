//! The decisions of the terminal interface: where a key press moves the
//! selection, what pressing enter on a source asks for, and how a row of the
//! source list is marked.

use vstd::prelude::*;
use vstd::arithmetic::div_mod::{
    lemma_add_mod_noop, lemma_add_mod_noop_right, lemma_mod_multiples_vanish, lemma_sub_mod_noop,
};
use crate::config::Config;
use crate::selector::{option_view, views};
use crate::source::{Source, SourceView};

verus! {

/// What the user asked the program to do.
#[derive(Debug)]
pub enum AppAction {
    SetConfig(Config),
    SetAudioSource(Source),
    ToggleScreenshareOnly,
    ToggleMeter,
    StopStream,
    RedoSetup,
    Exit,
}

/// The field of the setup form that takes the input.
#[derive(Debug, Clone, Copy, PartialEq, Eq, Structural)]
pub enum SelectedField {
    BotToken,
    UserId,
}

/// The part of the dashboard that takes the input.
#[derive(Debug, Clone, Copy, PartialEq, Eq, Structural)]
pub enum FocusedModule {
    SourceSelector,
    SettingsModule,
}

/// The sign in front of a row of the source list.
#[derive(Debug, Clone, Copy, PartialEq, Eq, Structural)]
pub enum RowSymbol {
    Idle,
    Hover,
    Active,
}

/// The colour of a row of the source list.
#[derive(Debug, Clone, Copy, PartialEq, Eq, Structural)]
pub enum RowColor {
    Disabled,
    Active,
    Idle,
    Unavailable,
}

/// The row that is `amount` rows on from `selected` in a list of `len` rows
/// that wraps round at both ends. A list without rows has none.
pub open spec fn navigated(selected: int, amount: int, len: int) -> Option<int> {
    if len <= 0 {
        None
    } else {
        Some((selected + amount) % len)
    }
}

/// What pressing enter on row `selected_index` asks for: to stop the stream
/// where the row is the source that is captured, else to capture the source
/// of the row. While nothing is captured the row of sink input 0 counts as
/// captured. A row beyond the list asks for nothing.
pub open spec fn chosen(
    sources: Seq<SourceView>,
    selected_index: int,
    current: Option<SourceView>,
) -> Option<Option<SourceView>> {
    if 0 <= selected_index < sources.len() {
        let captured: u32 = match current {
            Some(c) => c.index(),
            None => 0,
        };
        if sources[selected_index].index() == captured {
            Some(None)
        } else {
            Some(Some(sources[selected_index]))
        }
    } else {
        None
    }
}

/// The sign of a row: nothing is marked before the voice client is ready;
/// then the row under the cursor is, and else the selected source.
pub open spec fn symbol_of(ready: bool, over: bool, selected: bool) -> RowSymbol {
    if !ready {
        RowSymbol::Idle
    } else if over {
        RowSymbol::Hover
    } else if selected {
        RowSymbol::Active
    } else {
        RowSymbol::Idle
    }
}

/// The colour of a row: all are disabled before the voice client is ready;
/// then the captured source stands out, and so do sources that are gone.
pub open spec fn color_of(ready: bool, active: bool, available: bool) -> RowColor {
    if !ready {
        RowColor::Disabled
    } else if active {
        RowColor::Active
    } else if available {
        RowColor::Idle
    } else {
        RowColor::Unavailable
    }
}

impl SelectedField {
    /// The field that follows this one, round and round.
    pub open spec fn following(self) -> SelectedField {
        match self {
            SelectedField::BotToken => SelectedField::UserId,
            SelectedField::UserId => SelectedField::BotToken,
        }
    }

    /// Moves on to the next field.
    pub fn next_cycle(&self) -> (next: SelectedField)
        ensures
            next == self.following(),
    {
        match self {
            SelectedField::BotToken => SelectedField::UserId,
            SelectedField::UserId => SelectedField::BotToken,
        }
    }
}

impl Default for SelectedField {
    fn default() -> (field: Self)
        ensures
            field == SelectedField::BotToken,
    {
        SelectedField::BotToken
    }
}

impl FocusedModule {
    /// The part that follows this one, round and round.
    pub open spec fn following(self) -> FocusedModule {
        match self {
            FocusedModule::SourceSelector => FocusedModule::SettingsModule,
            FocusedModule::SettingsModule => FocusedModule::SourceSelector,
        }
    }

    /// Moves on to the next part.
    pub fn next_cycle(&self) -> (next: FocusedModule)
        ensures
            next == self.following(),
    {
        match self {
            FocusedModule::SourceSelector => FocusedModule::SettingsModule,
            FocusedModule::SettingsModule => FocusedModule::SourceSelector,
        }
    }
}

impl Default for FocusedModule {
    fn default() -> (module: Self)
        ensures
            module == FocusedModule::SourceSelector,
    {
        FocusedModule::SourceSelector
    }
}

/// Moves the selection by `amount` rows in a list of `len` rows, round the
/// ends of the list.
pub fn navigate(selected: usize, amount: isize, len: usize) -> (index: Option<usize>)
    ensures
        match navigated(selected as int, amount as int, len as int) {
            Some(row) => index == Some(row as usize) && row < len,
            None => index is None,
        },
{
    if len == 0 {
        return None;
    }
    let base = selected % len;
    let step: usize = if amount >= 0 {
        proof {
            lemma_add_mod_noop(selected as int, amount as int, len as int);
        }
        (amount as usize) % len
    } else {
        let back_by: u128 = (-(amount as i128)) as u128;
        let back = (back_by % (len as u128)) as usize;
        proof {
            let n = len as int;
            lemma_sub_mod_noop(selected as int, back_by as int, n);
            lemma_mod_multiples_vanish(1, base - back, n);
            lemma_add_mod_noop_right(base as int, n - back, n);
            assert(n * 1 + (base - back) == base + (n - back));
        }
        (len - back) % len
    };
    let sum: u128 = base as u128 + step as u128;
    Some((sum % (len as u128)) as usize)
}

/// Decides what pressing enter on a row of the source list asks for.
pub fn selection_action(sources: &Vec<Source>, selected_index: usize, current: &Option<Source>) -> (action: Option<AppAction>)
    ensures
        match chosen(views(sources@), selected_index as int, option_view(*current)) {
            None => action is None,
            Some(None) => action matches Some(AppAction::StopStream),
            Some(Some(source)) => action matches Some(AppAction::SetAudioSource(s)) && s@
                == source,
        },
{
    if selected_index >= sources.len() {
        return None;
    }
    let source = &sources[selected_index];
    let captured: u32 = match current {
        Some(c) => c.index(),
        None => 0,
    };
    if source.index() == captured {
        Some(AppAction::StopStream)
    } else {
        Some(AppAction::SetAudioSource(source.clone()))
    }
}

/// Picks the sign of a row of the source list.
pub fn row_symbol(ready: bool, over: bool, selected: bool) -> (symbol: RowSymbol)
    ensures
        symbol == symbol_of(ready, over, selected),
{
    if !ready {
        RowSymbol::Idle
    } else if over {
        RowSymbol::Hover
    } else if selected {
        RowSymbol::Active
    } else {
        RowSymbol::Idle
    }
}

/// Picks the colour of a row of the source list.
pub fn row_color(ready: bool, active: bool, available: bool) -> (color: RowColor)
    ensures
        color == color_of(ready, active, available),
{
    if !ready {
        RowColor::Disabled
    } else if active {
        RowColor::Active
    } else if available {
        RowColor::Idle
    } else {
        RowColor::Unavailable
    }
}

/// Tells whether the setup form can be sent: both fields are filled in.
pub fn is_valid(bot_token: &str, user_id: &str) -> (valid: bool)
    ensures
        valid == (bot_token@.len() > 0 && user_id@.len() > 0),
{
    !bot_token.is_empty() && !user_id.is_empty()
}

} // verus!

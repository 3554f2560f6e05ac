//! What a key press or a click does to the interactive session: which
//! action the key stands for in the current mode (the key bindings), and
//! the session state after the action. Reading the terminal, drawing, and
//! the work the returned command asks for (loading clips, reading folders,
//! rendering, saving) are the caller's.

use vstd::prelude::*;
use crate::browser::{clamp_int, Favourites, FileBrowser};
use crate::color::{ColorSpace, TransferFunction};
use crate::export::CodecFamily;
use crate::metadata::trim_ws;
use crate::preset::{clone_path, rate_view};
use crate::session::{
    spec_export_focus_down, spec_export_focus_up, spec_focus_label, spec_next_focus, ExportFocus,
    FocusTarget, ImportPopupState, PresetPickerState,
};
use crate::settings::{
    applied, naming_begun, next_rate_view, picker_opened, preset_deleted, preset_saved,
    profile_cycled, spec_next_fps, ExportSettings,
};
use crate::text::{owned, push_str};
use crate::workflow::{
    add_all_result, add_selected_result, clear_completed_result, extend_unique,
    lemma_extend_unique_holds, pool_paths, queue_paths,
    remove_from_pool_result, remove_from_queue_result, remove_selected_result, render_all_result,
    render_selected_result, select_all_result, toggle_pool_result, toggle_queue_result,
    ImportedFile, RenderWorkflow,
};

verus! {

broadcast use vstd::string::group_string_axioms;

/// A key as the session reads it.
#[derive(Debug, Clone, Copy, PartialEq, Eq, Structural)]
pub enum KeyInput {
    Tab,
    Esc,
    Enter,
    Up,
    Down,
    Left,
    Right,
    PageUp,
    PageDown,
    Home,
    End,
    Delete,
    Backspace,
    CtrlC,
    CtrlX,
    Char(char),
}

/// What the grading keys ask of the grade sliders, whose values are
/// floating-point and handled by the caller.
#[derive(Debug, Clone, Copy, PartialEq, Eq, Structural)]
pub enum GradeKey {
    /// Show the ungraded image while the key is held.
    Before,
    /// Restore the grade after `Before`.
    After,
    /// Reset the focused slider to its default.
    Reset,
    /// Move the focused slider: up or down, by a large or a small step.
    Step { up: bool, large: bool },
    /// Focus the slider above or below.
    FocusUp,
    FocusDown,
}

/// A cursor move: one step, ten steps, or to either end.
#[derive(Debug, Clone, Copy, PartialEq, Eq, Structural)]
pub enum Step {
    Up,
    Down,
    PageUp,
    PageDown,
    Home,
    End,
}

/// The list a cursor move applies to.
#[derive(Debug, Clone, Copy, PartialEq, Eq, Structural)]
pub enum ListTarget {
    Help,
    Favourites,
    Browser,
    MediaPool,
    Queue,
}

/// The action a key stands for.
#[derive(Debug, Clone, Copy, PartialEq, Eq, Structural)]
pub enum UiAction {
    Nothing,
    Quit,
    CancelExport,
    // naming a preset
    TypeName(char),
    EraseName,
    CommitNaming,
    CancelNaming,
    // the preset picker
    ClosePicker,
    PickerUp,
    PickerDown,
    ApplyPicked,
    DeletePicked,
    // the import pop-up
    ImportDropped,
    ImportWholeFolder,
    ClosePopup,
    // a custom rate being typed
    TypeRate(char),
    EraseRate,
    FinishRate,
    /// Start or stop typing a custom rate; `from_enter` tells which key.
    ToggleRateEdit(bool),
    // panels and overlays
    ToggleHelp,
    ToggleBrowser,
    FocusExport,
    CycleFocus,
    ToggleFullInfo,
    ToggleCulling,
    ToggleGradeScreen,
    CloseFullInfo,
    LeaveFavourites,
    CloseBrowser,
    CloseHelp,
    // media pool and queue
    AddSelected,
    AddAll,
    RemoveSelectedFromPool,
    RemoveFromPool,
    RemoveFromQueue,
    ClearCompleted,
    RenderSelected,
    RenderAll,
    TogglePoolSelection,
    ToggleQueueSelection,
    ToggleSelectAll,
    // export settings
    CycleRate,
    CycleTransfer,
    CycleGamut,
    CycleCodec,
    CycleProfile,
    CycleFps,
    BeginNaming,
    OpenPicker,
    ExportFocusUp,
    ExportFocusDown,
    // browser and favourites
    SetExportFolder,
    ToggleFavouritesView,
    ToggleFavourite,
    DeleteFavourite,
    OpenFavourite,
    BrowserEnter,
    BrowserGoUp,
    ToggleHidden,
    LoadFolder,
    ImportFromBrowser,
    DumpMetadata,
    Move(ListTarget, Step),
    Grade(GradeKey),
}

/// What a key or click leaves for the caller to do.
pub enum UiCommand {
    /// Nothing to do.
    Idle,
    Quit,
    CancelExport,
    /// Import these clips.
    ImportFiles(Vec<String>),
    /// Start rendering the queue entry at this index.
    StartRender(usize),
    /// Show the media-pool clip at this index.
    ShowClip(usize),
    /// Write the preset list back.
    SavePresets,
    /// Write the favourites back.
    SaveFavourites,
    /// Open this folder in the browser.
    OpenFolder(std::path::PathBuf),
    /// This favourite was removed; write the favourites back.
    FavouriteRemoved(std::path::PathBuf),
    /// Enter the browser entry under the cursor (open a folder or a clip).
    EnterBrowserEntry,
    /// Open the parent of the browser's folder.
    BrowserGoUp,
    /// Read the browser's folder again.
    RefreshBrowser,
    /// Import every clip of the browser's folder.
    LoadFolder,
    /// Import the clips selected in the browser.
    ImportFromBrowser,
    /// Print the raw metadata of the focused clip.
    DumpMetadata,
    /// Focus the grade slider at this index.
    FocusGradeSlider(usize),
    Grade(GradeKey),
}

/// The interactive session: the media pool and render queue, the export
/// settings, the browser and favourites, the focused panel and the
/// overlays.
pub struct UiState<I> {
    pub workflow: RenderWorkflow<I>,
    pub settings: ExportSettings,
    pub browser: FileBrowser,
    pub favourites: Favourites,
    pub focus: FocusTarget,
    pub import_popup: ImportPopupState,
    pub show_browser: bool,
    pub show_help: bool,
    pub help_scroll: u16,
    pub show_full_info: bool,
    pub show_grade_screen: bool,
    pub show_culling: bool,
    pub is_exporting: bool,
    pub running: bool,
    /// The separator of paths on this platform.
    pub path_separator: char,
    pub status_message: String,
}

/// What decides a key's meaning.
#[derive(Debug, Clone, Copy, PartialEq, Eq, Structural)]
pub struct UiMode {
    pub naming: bool,
    pub picker_open: bool,
    pub popup_open: bool,
    pub popup_whole_folder: bool,
    pub editing_rate: bool,
    pub custom_rate: bool,
    pub focus: FocusTarget,
    pub help: bool,
    pub favourites: bool,
    pub browser: bool,
    pub full_info: bool,
    pub grade_screen: bool,
    pub exporting: bool,
    pub pool_nonempty: bool,
}

pub open spec fn spec_mode<I>(s: UiState<I>) -> UiMode {
    UiMode {
        naming: s.settings.preset_naming is Some,
        picker_open: s.settings.preset_picker.open,
        popup_open: s.import_popup is DroppedFiles,
        popup_whole_folder: s.import_popup matches ImportPopupState::DroppedFiles {
            files,
            all_in_folder,
            ..
        } && all_in_folder@.len() > files@.len(),
        editing_rate: s.settings.is_editing_custom_rate,
        custom_rate: s.settings.active_rate_control is Custom,
        focus: s.focus,
        help: s.show_help,
        favourites: s.favourites.browsing,
        browser: s.show_browser,
        full_info: s.show_full_info,
        grade_screen: s.show_grade_screen,
        exporting: s.is_exporting,
        pool_nonempty: s.workflow.imported_files@.len() > 0,
    }
}

/// Whether the grading keys are live: on the grade screen or with the grade
/// panel focused.
pub open spec fn grading(m: UiMode) -> bool {
    m.grade_screen || m.focus == FocusTarget::Grade
}

/// The list the arrow and page keys move over: the help, the favourites,
/// the browser, else the focused panel.
pub open spec fn nav_action(m: UiMode, st: Step) -> UiAction {
    if m.help && (st != Step::Home && st != Step::End) {
        UiAction::Move(ListTarget::Help, st)
    } else if m.favourites {
        UiAction::Move(ListTarget::Favourites, st)
    } else if m.browser {
        UiAction::Move(ListTarget::Browser, st)
    } else {
        match m.focus {
            FocusTarget::MediaPool => UiAction::Move(ListTarget::MediaPool, st),
            FocusTarget::Queue => UiAction::Move(ListTarget::Queue, st),
            FocusTarget::ExportSettings => if st == Step::Up {
                UiAction::ExportFocusUp
            } else if st == Step::Down {
                UiAction::ExportFocusDown
            } else {
                UiAction::Nothing
            },
            FocusTarget::Grade => if st == Step::Up {
                UiAction::Grade(GradeKey::FocusUp)
            } else if st == Step::Down {
                UiAction::Grade(GradeKey::FocusDown)
            } else {
                UiAction::Nothing
            },
        }
    }
}

/// The key bindings of the session's normal mode, for character keys.
pub open spec fn char_action(m: UiMode, c: char) -> UiAction {
    let export = m.focus == FocusTarget::ExportSettings;
    if c == 'q' {
        UiAction::Quit
    } else if c == '?' {
        UiAction::ToggleHelp
    } else if c == 'b' {
        if grading(m) { UiAction::Grade(GradeKey::Before) } else { UiAction::ToggleBrowser }
    } else if c == 'B' {
        UiAction::Grade(GradeKey::After)
    } else if c == 'e' {
        UiAction::FocusExport
    } else if c == 'a' {
        UiAction::AddSelected
    } else if c == 'A' {
        UiAction::AddAll
    } else if c == 'D' {
        if m.focus == FocusTarget::MediaPool { UiAction::RemoveSelectedFromPool } else { UiAction::Nothing }
    } else if c == 'd' {
        if m.focus == FocusTarget::MediaPool {
            UiAction::RemoveFromPool
        } else if m.focus == FocusTarget::Queue {
            UiAction::RemoveFromQueue
        } else {
            UiAction::Nothing
        }
    } else if c == 'x' || c == 'X' {
        if m.exporting { UiAction::CancelExport } else { UiAction::ClearCompleted }
    } else if c == 'v' {
        UiAction::RenderSelected
    } else if c == 'R' {
        UiAction::RenderAll
    } else if c == 'r' {
        if grading(m) {
            UiAction::Grade(GradeKey::Reset)
        } else if export {
            UiAction::CycleRate
        } else {
            UiAction::Nothing
        }
    } else if c == 't' {
        if export { UiAction::CycleTransfer } else { UiAction::Nothing }
    } else if c == 'g' {
        if export { UiAction::CycleGamut } else { UiAction::Nothing }
    } else if c == 'c' {
        if export { UiAction::CycleCodec } else { UiAction::Nothing }
    } else if c == 'o' {
        if m.browser { UiAction::SetExportFolder } else { UiAction::Nothing }
    } else if c == 'f' {
        if m.browser {
            UiAction::ToggleFavouritesView
        } else if export {
            UiAction::CycleFps
        } else {
            UiAction::Nothing
        }
    } else if c == 'F' {
        if m.browser { UiAction::ToggleFavourite } else { UiAction::Nothing }
    } else if c == 'i' {
        if export && m.custom_rate { UiAction::ToggleRateEdit(false) } else { UiAction::ToggleFullInfo }
    } else if c == 'p' {
        if export { UiAction::BeginNaming } else { UiAction::CycleProfile }
    } else if c == 'P' {
        UiAction::OpenPicker
    } else if c == 's' {
        UiAction::ToggleSelectAll
    } else if c == 'n' {
        UiAction::DumpMetadata
    } else if c == '.' {
        if m.browser { UiAction::ToggleHidden } else { UiAction::Nothing }
    } else if c == 'L' {
        UiAction::LoadFolder
    } else if c == 'I' {
        if m.browser { UiAction::ImportFromBrowser } else { UiAction::Nothing }
    } else if c == 'C' {
        if m.pool_nonempty { UiAction::ToggleCulling } else { UiAction::Nothing }
    } else if c == 'G' {
        UiAction::ToggleGradeScreen
    } else if c == 'k' {
        nav_action(m, Step::Up)
    } else if c == 'j' {
        nav_action(m, Step::Down)
    } else if c == 'l' {
        if m.focus == FocusTarget::Grade { UiAction::Grade(GradeKey::Step { up: true, large: false }) } else { UiAction::Nothing }
    } else if c == 'h' {
        if m.focus == FocusTarget::Grade { UiAction::Grade(GradeKey::Step { up: false, large: false }) } else { UiAction::Nothing }
    } else if c == 'H' {
        if m.focus == FocusTarget::Grade { UiAction::Grade(GradeKey::Step { up: false, large: true }) } else { UiAction::Nothing }
    } else if c == ' ' {
        if m.browser {
            UiAction::Nothing
        } else if m.focus == FocusTarget::MediaPool {
            UiAction::TogglePoolSelection
        } else if m.focus == FocusTarget::Queue {
            UiAction::ToggleQueueSelection
        } else {
            UiAction::Nothing
        }
    } else {
        UiAction::Nothing
    }
}

/// The key bindings: what `k` does in mode `m`. Ctrl+C quits and Ctrl+X
/// cancels a running export in every mode; otherwise the innermost open
/// thing takes the key: preset naming, the preset picker, the import
/// pop-up, custom-rate typing, then the normal bindings.
pub open spec fn spec_key_action(m: UiMode, k: KeyInput) -> UiAction {
    if k == KeyInput::CtrlC {
        UiAction::Quit
    } else if k == KeyInput::CtrlX {
        if m.exporting { UiAction::CancelExport } else { UiAction::Nothing }
    } else if m.naming {
        match k {
            KeyInput::Char(c) => UiAction::TypeName(c),
            KeyInput::Backspace => UiAction::EraseName,
            KeyInput::Enter => UiAction::CommitNaming,
            KeyInput::Esc => UiAction::CancelNaming,
            _ => UiAction::Nothing,
        }
    } else if m.picker_open {
        match k {
            KeyInput::Esc => UiAction::ClosePicker,
            KeyInput::Up => UiAction::PickerUp,
            KeyInput::Char('k') => UiAction::PickerUp,
            KeyInput::Down => UiAction::PickerDown,
            KeyInput::Char('j') => UiAction::PickerDown,
            KeyInput::Enter => UiAction::ApplyPicked,
            KeyInput::Delete => UiAction::DeletePicked,
            KeyInput::Backspace => UiAction::DeletePicked,
            _ => UiAction::Nothing,
        }
    } else if m.popup_open {
        match k {
            KeyInput::Char('1') => UiAction::ImportDropped,
            KeyInput::Enter => UiAction::ImportDropped,
            KeyInput::Char('2') => if m.popup_whole_folder { UiAction::ImportWholeFolder } else { UiAction::Nothing },
            KeyInput::Esc => UiAction::ClosePopup,
            _ => UiAction::Nothing,
        }
    } else if m.editing_rate {
        match k {
            KeyInput::Char(c) => UiAction::TypeRate(c),
            KeyInput::Backspace => UiAction::EraseRate,
            KeyInput::Enter => UiAction::FinishRate,
            KeyInput::Esc => UiAction::FinishRate,
            _ => UiAction::Nothing,
        }
    } else {
        match k {
            KeyInput::Char(c) => char_action(m, c),
            KeyInput::Esc => if m.full_info {
                UiAction::CloseFullInfo
            } else if m.favourites {
                UiAction::LeaveFavourites
            } else if m.browser {
                UiAction::CloseBrowser
            } else if m.help {
                UiAction::CloseHelp
            } else {
                UiAction::Quit
            },
            KeyInput::Delete => if m.favourites { UiAction::DeleteFavourite } else { UiAction::Nothing },
            KeyInput::Backspace => if m.favourites {
                UiAction::LeaveFavourites
            } else if m.browser {
                UiAction::BrowserGoUp
            } else {
                UiAction::Nothing
            },
            KeyInput::Tab => UiAction::CycleFocus,
            KeyInput::Enter => if m.focus == FocusTarget::ExportSettings && m.custom_rate {
                UiAction::ToggleRateEdit(true)
            } else if m.favourites {
                UiAction::OpenFavourite
            } else if m.browser {
                UiAction::BrowserEnter
            } else {
                UiAction::Nothing
            },
            KeyInput::Right => if m.focus == FocusTarget::Grade {
                UiAction::Grade(GradeKey::Step { up: true, large: false })
            } else {
                UiAction::Nothing
            },
            KeyInput::Left => if m.focus == FocusTarget::Grade {
                UiAction::Grade(GradeKey::Step { up: false, large: false })
            } else {
                UiAction::Nothing
            },
            KeyInput::Up => nav_action(m, Step::Up),
            KeyInput::Down => nav_action(m, Step::Down),
            KeyInput::PageUp => nav_action(m, Step::PageUp),
            KeyInput::PageDown => nav_action(m, Step::PageDown),
            KeyInput::Home => nav_action(m, Step::Home),
            KeyInput::End => nav_action(m, Step::End),
            _ => UiAction::Nothing,
        }
    }
}

fn nav_action_exec(m: UiMode, st: Step) -> (r: UiAction)
    ensures
        r == nav_action(m, st),
{
    if m.help && (st != Step::Home && st != Step::End) {
        UiAction::Move(ListTarget::Help, st)
    } else if m.favourites {
        UiAction::Move(ListTarget::Favourites, st)
    } else if m.browser {
        UiAction::Move(ListTarget::Browser, st)
    } else {
        match m.focus {
            FocusTarget::MediaPool => UiAction::Move(ListTarget::MediaPool, st),
            FocusTarget::Queue => UiAction::Move(ListTarget::Queue, st),
            FocusTarget::ExportSettings => if st == Step::Up {
                UiAction::ExportFocusUp
            } else if st == Step::Down {
                UiAction::ExportFocusDown
            } else {
                UiAction::Nothing
            },
            FocusTarget::Grade => if st == Step::Up {
                UiAction::Grade(GradeKey::FocusUp)
            } else if st == Step::Down {
                UiAction::Grade(GradeKey::FocusDown)
            } else {
                UiAction::Nothing
            },
        }
    }
}

fn char_action_exec(m: UiMode, c: char) -> (r: UiAction)
    ensures
        r == char_action(m, c),
{
    let export = m.focus == FocusTarget::ExportSettings;
    let grade = m.grade_screen || m.focus == FocusTarget::Grade;
    if c == 'q' {
        UiAction::Quit
    } else if c == '?' {
        UiAction::ToggleHelp
    } else if c == 'b' {
        if grade { UiAction::Grade(GradeKey::Before) } else { UiAction::ToggleBrowser }
    } else if c == 'B' {
        UiAction::Grade(GradeKey::After)
    } else if c == 'e' {
        UiAction::FocusExport
    } else if c == 'a' {
        UiAction::AddSelected
    } else if c == 'A' {
        UiAction::AddAll
    } else if c == 'D' {
        if m.focus == FocusTarget::MediaPool { UiAction::RemoveSelectedFromPool } else { UiAction::Nothing }
    } else if c == 'd' {
        if m.focus == FocusTarget::MediaPool {
            UiAction::RemoveFromPool
        } else if m.focus == FocusTarget::Queue {
            UiAction::RemoveFromQueue
        } else {
            UiAction::Nothing
        }
    } else if c == 'x' || c == 'X' {
        if m.exporting { UiAction::CancelExport } else { UiAction::ClearCompleted }
    } else if c == 'v' {
        UiAction::RenderSelected
    } else if c == 'R' {
        UiAction::RenderAll
    } else if c == 'r' {
        if grade {
            UiAction::Grade(GradeKey::Reset)
        } else if export {
            UiAction::CycleRate
        } else {
            UiAction::Nothing
        }
    } else if c == 't' {
        if export { UiAction::CycleTransfer } else { UiAction::Nothing }
    } else if c == 'g' {
        if export { UiAction::CycleGamut } else { UiAction::Nothing }
    } else if c == 'c' {
        if export { UiAction::CycleCodec } else { UiAction::Nothing }
    } else if c == 'o' {
        if m.browser { UiAction::SetExportFolder } else { UiAction::Nothing }
    } else if c == 'f' {
        if m.browser {
            UiAction::ToggleFavouritesView
        } else if export {
            UiAction::CycleFps
        } else {
            UiAction::Nothing
        }
    } else if c == 'F' {
        if m.browser { UiAction::ToggleFavourite } else { UiAction::Nothing }
    } else if c == 'i' {
        if export && m.custom_rate { UiAction::ToggleRateEdit(false) } else { UiAction::ToggleFullInfo }
    } else if c == 'p' {
        if export { UiAction::BeginNaming } else { UiAction::CycleProfile }
    } else if c == 'P' {
        UiAction::OpenPicker
    } else if c == 's' {
        UiAction::ToggleSelectAll
    } else if c == 'n' {
        UiAction::DumpMetadata
    } else if c == '.' {
        if m.browser { UiAction::ToggleHidden } else { UiAction::Nothing }
    } else if c == 'L' {
        UiAction::LoadFolder
    } else if c == 'I' {
        if m.browser { UiAction::ImportFromBrowser } else { UiAction::Nothing }
    } else if c == 'C' {
        if m.pool_nonempty { UiAction::ToggleCulling } else { UiAction::Nothing }
    } else if c == 'G' {
        UiAction::ToggleGradeScreen
    } else if c == 'k' {
        nav_action_exec(m, Step::Up)
    } else if c == 'j' {
        nav_action_exec(m, Step::Down)
    } else if c == 'l' {
        if m.focus == FocusTarget::Grade { UiAction::Grade(GradeKey::Step { up: true, large: false }) } else { UiAction::Nothing }
    } else if c == 'h' {
        if m.focus == FocusTarget::Grade { UiAction::Grade(GradeKey::Step { up: false, large: false }) } else { UiAction::Nothing }
    } else if c == 'H' {
        if m.focus == FocusTarget::Grade { UiAction::Grade(GradeKey::Step { up: false, large: true }) } else { UiAction::Nothing }
    } else if c == ' ' {
        if m.browser {
            UiAction::Nothing
        } else if m.focus == FocusTarget::MediaPool {
            UiAction::TogglePoolSelection
        } else if m.focus == FocusTarget::Queue {
            UiAction::ToggleQueueSelection
        } else {
            UiAction::Nothing
        }
    } else {
        UiAction::Nothing
    }
}

/// The action `k` stands for in mode `m`.
pub fn key_action(m: UiMode, k: KeyInput) -> (r: UiAction)
    ensures
        r == spec_key_action(m, k),
{
    if k == KeyInput::CtrlC {
        UiAction::Quit
    } else if k == KeyInput::CtrlX {
        if m.exporting { UiAction::CancelExport } else { UiAction::Nothing }
    } else if m.naming {
        match k {
            KeyInput::Char(c) => UiAction::TypeName(c),
            KeyInput::Backspace => UiAction::EraseName,
            KeyInput::Enter => UiAction::CommitNaming,
            KeyInput::Esc => UiAction::CancelNaming,
            _ => UiAction::Nothing,
        }
    } else if m.picker_open {
        match k {
            KeyInput::Esc => UiAction::ClosePicker,
            KeyInput::Up => UiAction::PickerUp,
            KeyInput::Char('k') => UiAction::PickerUp,
            KeyInput::Down => UiAction::PickerDown,
            KeyInput::Char('j') => UiAction::PickerDown,
            KeyInput::Enter => UiAction::ApplyPicked,
            KeyInput::Delete => UiAction::DeletePicked,
            KeyInput::Backspace => UiAction::DeletePicked,
            _ => UiAction::Nothing,
        }
    } else if m.popup_open {
        match k {
            KeyInput::Char('1') => UiAction::ImportDropped,
            KeyInput::Enter => UiAction::ImportDropped,
            KeyInput::Char('2') => if m.popup_whole_folder { UiAction::ImportWholeFolder } else { UiAction::Nothing },
            KeyInput::Esc => UiAction::ClosePopup,
            _ => UiAction::Nothing,
        }
    } else if m.editing_rate {
        match k {
            KeyInput::Char(c) => UiAction::TypeRate(c),
            KeyInput::Backspace => UiAction::EraseRate,
            KeyInput::Enter => UiAction::FinishRate,
            KeyInput::Esc => UiAction::FinishRate,
            _ => UiAction::Nothing,
        }
    } else {
        match k {
            KeyInput::Char(c) => char_action_exec(m, c),
            KeyInput::Esc => if m.full_info {
                UiAction::CloseFullInfo
            } else if m.favourites {
                UiAction::LeaveFavourites
            } else if m.browser {
                UiAction::CloseBrowser
            } else if m.help {
                UiAction::CloseHelp
            } else {
                UiAction::Quit
            },
            KeyInput::Delete => if m.favourites { UiAction::DeleteFavourite } else { UiAction::Nothing },
            KeyInput::Backspace => if m.favourites {
                UiAction::LeaveFavourites
            } else if m.browser {
                UiAction::BrowserGoUp
            } else {
                UiAction::Nothing
            },
            KeyInput::Tab => UiAction::CycleFocus,
            KeyInput::Enter => if m.focus == FocusTarget::ExportSettings && m.custom_rate {
                UiAction::ToggleRateEdit(true)
            } else if m.favourites {
                UiAction::OpenFavourite
            } else if m.browser {
                UiAction::BrowserEnter
            } else {
                UiAction::Nothing
            },
            KeyInput::Right => if m.focus == FocusTarget::Grade {
                UiAction::Grade(GradeKey::Step { up: true, large: false })
            } else {
                UiAction::Nothing
            },
            KeyInput::Left => if m.focus == FocusTarget::Grade {
                UiAction::Grade(GradeKey::Step { up: false, large: false })
            } else {
                UiAction::Nothing
            },
            KeyInput::Up => nav_action_exec(m, Step::Up),
            KeyInput::Down => nav_action_exec(m, Step::Down),
            KeyInput::PageUp => nav_action_exec(m, Step::PageUp),
            KeyInput::PageDown => nav_action_exec(m, Step::PageDown),
            KeyInput::Home => nav_action_exec(m, Step::Home),
            KeyInput::End => nav_action_exec(m, Step::End),
            _ => UiAction::Nothing,
        }
    }
}


/// Where a cursor at `idx` in a list of `len` lands after a move: one up or
/// down within the list, ten up or down clamped to the list, or either
/// end.
pub open spec fn cursor_after(idx: usize, len: nat, st: Step) -> int {
    match st {
        Step::Up => if idx > 0 { idx - 1 } else { idx as int },
        Step::Down => if idx + 1 < len { idx + 1 } else { idx as int },
        Step::PageUp => if len > 0 {
            if idx >= (if len < 10 { len } else { 10 }) { idx - (if len < 10 { len as int } else { 10 }) } else { 0 }
        } else {
            idx as int
        },
        Step::PageDown => if len > 0 {
            if idx + 10 < len - 1 { idx + 10 } else { len - 1 }
        } else {
            idx as int
        },
        Step::Home => 0,
        Step::End => if len > 0 { len - 1 } else { idx as int },
    }
}

/// The move of a favourites cursor for each step.
pub open spec fn favourites_delta(st: Step) -> int {
    match st {
        Step::Up => -1,
        Step::Down => 1,
        Step::PageUp => -10,
        Step::PageDown => 10,
        _ => 0,
    }
}

/// The help scroll after a step, as `u16` saturating arithmetic.
pub open spec fn help_after(v: u16, st: Step) -> u16 {
    match st {
        Step::Up => if v >= 1 { (v - 1) as u16 } else { 0 },
        Step::Down => if v < u16::MAX { (v + 1) as u16 } else { u16::MAX },
        Step::PageUp => if v >= 10 { (v - 10) as u16 } else { 0 },
        Step::PageDown => if v <= u16::MAX - 10 { (v + 10) as u16 } else { u16::MAX },
        _ => v,
    }
}

/// Everything but the workflow and the status line is unchanged, and the
/// status line is the workflow's.
pub open spec fn workflow_step<I>(o: UiState<I>, n: UiState<I>) -> bool {
    &&& n == (UiState { workflow: n.workflow, status_message: n.status_message, ..o })
    &&& n.status_message@ == n.workflow.status_message@
}

/// Everything but the export settings and the status line is unchanged,
/// and the status line is the settings'.
pub open spec fn settings_step<I>(o: UiState<I>, n: UiState<I>) -> bool {
    &&& n == (UiState { settings: n.settings, status_message: n.status_message, ..o })
    &&& n.status_message@ == n.settings.status_message@
}

/// The status line reads `text`.
pub open spec fn status_is<I>(n: UiState<I>, text: Seq<char>) -> bool {
    n.status_message@ == text
}

/// The state after action `a` from `o`, and the command it leaves: one
/// `effect_*` function per action.
pub open spec fn spec_effect<I: Clone>(o: UiState<I>, n: UiState<I>, a: UiAction, c: UiCommand) -> bool {
    match a {
        UiAction::Nothing => effect_nothing(o, n, c),
        UiAction::Quit => effect_quit(o, n, c),
        UiAction::CancelExport => effect_cancel_export(o, n, c),
        UiAction::TypeName(ch) => effect_type_name(o, n, ch, c),
        UiAction::EraseName => effect_erase_name(o, n, c),
        UiAction::CommitNaming => effect_commit_naming(o, n, c),
        UiAction::CancelNaming => effect_cancel_naming(o, n, c),
        UiAction::ClosePicker => effect_close_picker(o, n, c),
        UiAction::PickerUp => effect_picker_up(o, n, c),
        UiAction::PickerDown => effect_picker_down(o, n, c),
        UiAction::ApplyPicked => effect_apply_picked(o, n, c),
        UiAction::DeletePicked => effect_delete_picked(o, n, c),
        UiAction::ImportDropped => effect_import_dropped(o, n, c),
        UiAction::ImportWholeFolder => effect_import_whole_folder(o, n, c),
        UiAction::ClosePopup => effect_close_popup(o, n, c),
        UiAction::TypeRate(ch) => effect_type_rate(o, n, ch, c),
        UiAction::EraseRate => effect_erase_rate(o, n, c),
        UiAction::FinishRate => effect_finish_rate(o, n, c),
        UiAction::ToggleRateEdit(from_enter) => effect_toggle_rate_edit(o, n, from_enter, c),
        UiAction::ToggleHelp => effect_toggle_help(o, n, c),
        UiAction::ToggleBrowser => effect_toggle_browser(o, n, c),
        UiAction::FocusExport => effect_focus_export(o, n, c),
        UiAction::CycleFocus => effect_cycle_focus(o, n, c),
        UiAction::ToggleFullInfo => effect_toggle_full_info(o, n, c),
        UiAction::ToggleCulling => effect_toggle_culling(o, n, c),
        UiAction::ToggleGradeScreen => effect_toggle_grade_screen(o, n, c),
        UiAction::CloseFullInfo => effect_close_full_info(o, n, c),
        UiAction::LeaveFavourites => effect_leave_favourites(o, n, c),
        UiAction::CloseBrowser => effect_close_browser(o, n, c),
        UiAction::CloseHelp => effect_close_help(o, n, c),
        UiAction::AddSelected => effect_add_selected(o, n, c),
        UiAction::AddAll => effect_add_all(o, n, c),
        UiAction::RemoveSelectedFromPool => effect_remove_selected_from_pool(o, n, c),
        UiAction::RemoveFromPool => effect_remove_from_pool(o, n, c),
        UiAction::RemoveFromQueue => effect_remove_from_queue(o, n, c),
        UiAction::ClearCompleted => effect_clear_completed(o, n, c),
        UiAction::RenderSelected => effect_render_selected(o, n, c),
        UiAction::RenderAll => effect_render_all(o, n, c),
        UiAction::TogglePoolSelection => effect_toggle_pool_selection(o, n, c),
        UiAction::ToggleQueueSelection => effect_toggle_queue_selection(o, n, c),
        UiAction::ToggleSelectAll => effect_toggle_select_all(o, n, c),
        UiAction::CycleRate => effect_cycle_rate(o, n, c),
        UiAction::CycleTransfer => effect_cycle_transfer(o, n, c),
        UiAction::CycleGamut => effect_cycle_gamut(o, n, c),
        UiAction::CycleCodec => effect_cycle_codec(o, n, c),
        UiAction::CycleProfile => effect_cycle_profile(o, n, c),
        UiAction::CycleFps => effect_cycle_fps(o, n, c),
        UiAction::BeginNaming => effect_begin_naming(o, n, c),
        UiAction::OpenPicker => effect_open_picker(o, n, c),
        UiAction::ExportFocusUp => effect_export_focus_up(o, n, c),
        UiAction::ExportFocusDown => effect_export_focus_down(o, n, c),
        UiAction::SetExportFolder => effect_set_export_folder(o, n, c),
        UiAction::ToggleFavouritesView => effect_toggle_favourites_view(o, n, c),
        UiAction::ToggleFavourite => effect_toggle_favourite(o, n, c),
        UiAction::DeleteFavourite => effect_delete_favourite(o, n, c),
        UiAction::OpenFavourite => effect_open_favourite(o, n, c),
        UiAction::BrowserEnter => effect_browser_enter(o, n, c),
        UiAction::BrowserGoUp => effect_browser_go_up(o, n, c),
        UiAction::ToggleHidden => effect_toggle_hidden(o, n, c),
        UiAction::LoadFolder => effect_load_folder(o, n, c),
        UiAction::ImportFromBrowser => effect_import_from_browser(o, n, c),
        UiAction::DumpMetadata => effect_dump_metadata(o, n, c),
        UiAction::Grade(g) => effect_grade(o, n, g, c),
        UiAction::Move(t, st) => effect_move(o, n, t, st, c),
    }
}

#[verifier::opaque]
pub open spec fn effect_nothing<I>(o: UiState<I>, n: UiState<I>, c: UiCommand) -> bool {
    n == o && c is Idle
}

#[verifier::opaque]
pub open spec fn effect_quit<I>(o: UiState<I>, n: UiState<I>, c: UiCommand) -> bool {
    n == (UiState { running: false, ..o }) && c is Quit
}

#[verifier::opaque]
pub open spec fn effect_cancel_export<I>(o: UiState<I>, n: UiState<I>, c: UiCommand) -> bool {
    n == o && c is CancelExport
}

#[verifier::opaque]
pub open spec fn effect_type_name<I>(o: UiState<I>, n: UiState<I>, ch: char, c: UiCommand) -> bool {
    &&& n == (UiState { settings: n.settings, ..o })
    &&& n.settings == (ExportSettings { preset_naming: n.settings.preset_naming, ..o.settings })
    &&& match o.settings.preset_naming {
        Some(st) => n.settings.preset_naming matches Some(nst) && nst.name@ == st.name@.push(ch)
            && nst.message == st.message,
        None => n.settings.preset_naming is None,
    }
    &&& c is Idle
}

#[verifier::opaque]
pub open spec fn effect_erase_name<I>(o: UiState<I>, n: UiState<I>, c: UiCommand) -> bool {
    &&& n == (UiState { settings: n.settings, ..o })
    &&& n.settings == (ExportSettings { preset_naming: n.settings.preset_naming, ..o.settings })
    &&& match o.settings.preset_naming {
        Some(st) => n.settings.preset_naming matches Some(nst) && nst.name@ == (if st.name@.len()
            > 0 {
            st.name@.drop_last()
        } else {
            st.name@
        }) && nst.message == st.message,
        None => n.settings.preset_naming is None,
    }
    &&& c is Idle
}

#[verifier::opaque]
pub open spec fn effect_commit_naming<I>(o: UiState<I>, n: UiState<I>, c: UiCommand) -> bool {
    &&& o.settings.preset_naming is None ==> n == o && c is Idle
    &&& o.settings.preset_naming matches Some(st) ==> {
        &&& settings_step(o, n)
        &&& (c is SavePresets || c is Idle)
        &&& preset_saved(
            ExportSettings { preset_naming: None, ..o.settings },
            n.settings,
            st.name@,
            c is SavePresets,
        )
    }
}

#[verifier::opaque]
pub open spec fn effect_cancel_naming<I>(o: UiState<I>, n: UiState<I>, c: UiCommand) -> bool {
    let os = o.settings;
    &&& n == (UiState { settings: ExportSettings { preset_naming: None, ..os }, status_message: n.status_message, ..o })
    &&& status_is(n, "Preset save cancelled"@)
    &&& c is Idle
}

#[verifier::opaque]
pub open spec fn effect_close_picker<I>(o: UiState<I>, n: UiState<I>, c: UiCommand) -> bool {
    let os = o.settings;
    &&& n == (UiState {
        settings: ExportSettings {
            preset_picker: PresetPickerState { open: false, index: os.preset_picker.index, message: None },
            ..os
        },
        ..o
    })
    &&& c is Idle
}

#[verifier::opaque]
pub open spec fn effect_picker_up<I>(o: UiState<I>, n: UiState<I>, c: UiCommand) -> bool {
    let os = o.settings;
    &&& n == (UiState {
        settings: ExportSettings {
            preset_picker: PresetPickerState {
                open: os.preset_picker.open,
                index: if os.preset_picker.index > 0 { (os.preset_picker.index - 1) as usize } else { 0 },
                message: None,
            },
            ..os
        },
        ..o
    })
    &&& c is Idle
}

#[verifier::opaque]
pub open spec fn effect_picker_down<I>(o: UiState<I>, n: UiState<I>, c: UiCommand) -> bool {
    let os = o.settings;
    &&& n == (UiState {
        settings: ExportSettings {
            preset_picker: PresetPickerState {
                open: os.preset_picker.open,
                index: if os.preset_picker.index + 1 < os.presets@.len() {
                    (os.preset_picker.index + 1) as usize
                } else {
                    os.preset_picker.index
                },
                message: None,
            },
            ..os
        },
        ..o
    })
    &&& c is Idle
}

#[verifier::opaque]
pub open spec fn effect_apply_picked<I>(o: UiState<I>, n: UiState<I>, c: UiCommand) -> bool {
    let os = o.settings;
    let idx = os.preset_picker.index;
    let closed = ExportSettings {
        preset_picker: PresetPickerState { open: false, index: idx, message: None },
        ..os
    };
    &&& c is Idle
    &&& (idx < os.presets@.len() ==> applied(closed, n.settings, idx as int) && settings_step(o, n))
    &&& (idx >= os.presets@.len() ==> n == (UiState { settings: closed, ..o }))
}

#[verifier::opaque]
pub open spec fn effect_delete_picked<I>(o: UiState<I>, n: UiState<I>, c: UiCommand) -> bool {
    &&& c is SavePresets || c is Idle
    &&& preset_deleted(o.settings, n.settings, o.settings.preset_picker.index, c is SavePresets)
    &&& c is SavePresets ==> settings_step(o, n)
    &&& c is Idle ==> n == o
}

#[verifier::opaque]
pub open spec fn effect_import_dropped<I>(o: UiState<I>, n: UiState<I>, c: UiCommand) -> bool {
    &&& n == (UiState { import_popup: ImportPopupState::Hidden, show_browser: false, ..o })
    &&& o.import_popup is Hidden ==> c is Idle
    &&& (o.import_popup matches ImportPopupState::DroppedFiles { files, .. } ==> (c matches UiCommand::ImportFiles(v)
        && v@ == files@))
}

#[verifier::opaque]
pub open spec fn effect_import_whole_folder<I>(o: UiState<I>, n: UiState<I>, c: UiCommand) -> bool {
    &&& n == (UiState { import_popup: ImportPopupState::Hidden, show_browser: false, ..o })
    &&& o.import_popup is Hidden ==> c is Idle
    &&& (o.import_popup matches ImportPopupState::DroppedFiles { all_in_folder, .. } ==> (c matches UiCommand::ImportFiles(v)
        && v@ == all_in_folder@))
}

#[verifier::opaque]
pub open spec fn effect_close_popup<I>(o: UiState<I>, n: UiState<I>, c: UiCommand) -> bool {
    n == (UiState { import_popup: ImportPopupState::Hidden, ..o }) && c is Idle
}

#[verifier::opaque]
pub open spec fn effect_type_rate<I>(o: UiState<I>, n: UiState<I>, ch: char, c: UiCommand) -> bool {
    let os = o.settings;
    &&& n == (UiState { settings: n.settings, ..o })
    &&& n.settings == (ExportSettings { active_rate_control: n.settings.active_rate_control, ..os })
    &&& os.active_rate_control matches crate::export::RateControl::Custom(v) ==> (
    crate::settings::custom_rate_char(ch) ==> (
    n.settings.active_rate_control matches crate::export::RateControl::Custom(nv) && nv@ == v@.push(
        ch,
    )))
    &&& !(os.active_rate_control is Custom && crate::settings::custom_rate_char(ch))
        ==> n.settings.active_rate_control == os.active_rate_control
    &&& c is Idle
}

#[verifier::opaque]
pub open spec fn effect_erase_rate<I>(o: UiState<I>, n: UiState<I>, c: UiCommand) -> bool {
    let os = o.settings;
    &&& n == (UiState { settings: n.settings, ..o })
    &&& n.settings == (ExportSettings { active_rate_control: n.settings.active_rate_control, ..os })
    &&& os.active_rate_control matches crate::export::RateControl::Custom(v) ==> (
    n.settings.active_rate_control matches crate::export::RateControl::Custom(nv) && nv@ == (if v@.len()
        > 0 {
        v@.drop_last()
    } else {
        v@
    }))
    &&& !(os.active_rate_control is Custom) ==> n.settings.active_rate_control == os.active_rate_control
    &&& c is Idle
}

#[verifier::opaque]
pub open spec fn effect_finish_rate<I>(o: UiState<I>, n: UiState<I>, c: UiCommand) -> bool {
    let os = o.settings;
    &&& settings_step(o, n)
    &&& n.settings == (ExportSettings { is_editing_custom_rate: false, status_message: n.settings.status_message, ..os })
    &&& status_is(n, "Rate: "@ + os.active_rate_control.spec_name())
    &&& c is Idle
}

#[verifier::opaque]
pub open spec fn effect_toggle_rate_edit<I>(o: UiState<I>, n: UiState<I>, from_enter: bool, c: UiCommand) -> bool {
    let os = o.settings;
    &&& n == (UiState {
        settings: ExportSettings { is_editing_custom_rate: !os.is_editing_custom_rate, ..os },
        status_message: n.status_message,
        ..o
    })
    &&& (os.is_editing_custom_rate ==> n.status_message == o.status_message)
    &&& (!os.is_editing_custom_rate ==> status_is(n, if from_enter {
        "Type a rate value. Enter to confirm, Esc to cancel."@
    } else {
        "Type a rate value (e.g. 20, 400M, 50000k). Press Enter to confirm, Esc to cancel."@
    }))
    &&& c is Idle
}

#[verifier::opaque]
pub open spec fn effect_toggle_help<I>(o: UiState<I>, n: UiState<I>, c: UiCommand) -> bool {
    n == (UiState { show_help: !o.show_help, ..o }) && c is Idle
}

#[verifier::opaque]
pub open spec fn effect_toggle_browser<I>(o: UiState<I>, n: UiState<I>, c: UiCommand) -> bool {
    &&& n == (UiState { show_browser: !o.show_browser, status_message: n.status_message, ..o })
    &&& status_is(n, if !o.show_browser { "Browser shown"@ } else { "Browser hidden"@ })
    &&& c is Idle
}

#[verifier::opaque]
pub open spec fn effect_focus_export<I>(o: UiState<I>, n: UiState<I>, c: UiCommand) -> bool {
    &&& n == (UiState { focus: FocusTarget::ExportSettings, status_message: n.status_message, ..o })
    &&& status_is(n, "Focus: "@ + spec_focus_label(FocusTarget::ExportSettings))
    &&& c is Idle
}

#[verifier::opaque]
pub open spec fn effect_cycle_focus<I>(o: UiState<I>, n: UiState<I>, c: UiCommand) -> bool {
    &&& n == (UiState { focus: spec_next_focus(o.focus), status_message: n.status_message, ..o })
    &&& status_is(n, "Focus: "@ + spec_focus_label(spec_next_focus(o.focus)))
    &&& c is Idle
}

#[verifier::opaque]
pub open spec fn effect_toggle_full_info<I>(o: UiState<I>, n: UiState<I>, c: UiCommand) -> bool {
    &&& n == (UiState { show_full_info: !o.show_full_info, status_message: n.status_message, ..o })
    &&& (o.show_full_info ==> n.status_message == o.status_message)
    &&& (!o.show_full_info ==> status_is(n, "Full file info shown (press i or Esc to close)"@))
    &&& c is Idle
}

#[verifier::opaque]
pub open spec fn effect_toggle_culling<I>(o: UiState<I>, n: UiState<I>, c: UiCommand) -> bool {
    &&& n == (UiState { show_culling: !o.show_culling, status_message: n.status_message, ..o })
    &&& status_is(n, if !o.show_culling { "Culling mode"@ } else { "Normal mode"@ })
    &&& c is Idle
}

#[verifier::opaque]
pub open spec fn effect_toggle_grade_screen<I>(o: UiState<I>, n: UiState<I>, c: UiCommand) -> bool {
    &&& n == (UiState {
        show_grade_screen: !o.show_grade_screen,
        focus: if !o.show_grade_screen { FocusTarget::Grade } else { FocusTarget::MediaPool },
        status_message: n.status_message,
        ..o
    })
    &&& status_is(n, if !o.show_grade_screen { "Grade screen \u{2014} G to exit"@ } else { "Normal view"@ })
    &&& c is Idle
}

#[verifier::opaque]
pub open spec fn effect_close_full_info<I>(o: UiState<I>, n: UiState<I>, c: UiCommand) -> bool {
    n == (UiState { show_full_info: false, ..o }) && c is Idle
}

#[verifier::opaque]
pub open spec fn effect_leave_favourites<I>(o: UiState<I>, n: UiState<I>, c: UiCommand) -> bool {
    &&& n == (UiState {
        favourites: Favourites { browsing: false, ..o.favourites },
        status_message: n.status_message,
        ..o
    })
    &&& status_is(n, "Folder view"@)
    &&& c is Idle
}

#[verifier::opaque]
pub open spec fn effect_close_browser<I>(o: UiState<I>, n: UiState<I>, c: UiCommand) -> bool {
    n == (UiState { show_browser: false, ..o }) && c is Idle
}

#[verifier::opaque]
pub open spec fn effect_close_help<I>(o: UiState<I>, n: UiState<I>, c: UiCommand) -> bool {
    n == (UiState { show_help: false, ..o }) && c is Idle
}

#[verifier::opaque]
pub open spec fn effect_add_selected<I: Clone>(o: UiState<I>, n: UiState<I>, c: UiCommand) -> bool {
    &&& workflow_step(o, n)
    &&& add_selected_result(o.workflow, n.workflow)
    &&& c is Idle
}

#[verifier::opaque]
pub open spec fn effect_add_all<I: Clone>(o: UiState<I>, n: UiState<I>, c: UiCommand) -> bool {
    &&& workflow_step(o, n)
    &&& add_all_result(o.workflow, n.workflow)
    &&& c is Idle
}

#[verifier::opaque]
pub open spec fn effect_remove_selected_from_pool<I: Clone>(o: UiState<I>, n: UiState<I>, c: UiCommand) -> bool {
    &&& workflow_step(o, n)
    &&& remove_selected_result(o.workflow, n.workflow)
    &&& c is Idle
}

#[verifier::opaque]
pub open spec fn effect_remove_from_pool<I: Clone>(o: UiState<I>, n: UiState<I>, c: UiCommand) -> bool {
    &&& o.workflow.imported_files@.len() == 0 ==> n == o
    &&& o.workflow.imported_files@.len() > 0 ==> workflow_step(o, n) && remove_from_pool_result(
        o.workflow,
        n.workflow,
        o.path_separator,
    )
    &&& c is Idle
}

#[verifier::opaque]
pub open spec fn effect_remove_from_queue<I: Clone>(o: UiState<I>, n: UiState<I>, c: UiCommand) -> bool {
    &&& o.workflow.queue@.len() == 0 ==> n == o
    &&& o.workflow.queue@.len() > 0 ==> workflow_step(o, n) && remove_from_queue_result(
        o.workflow,
        n.workflow,
        o.path_separator,
    )
    &&& c is Idle
}

#[verifier::opaque]
pub open spec fn effect_clear_completed<I: Clone>(o: UiState<I>, n: UiState<I>, c: UiCommand) -> bool {
    &&& workflow_step(o, n)
    &&& clear_completed_result(o.workflow, n.workflow)
    &&& c is Idle
}

#[verifier::opaque]
pub open spec fn effect_render_selected<I: Clone>(o: UiState<I>, n: UiState<I>, c: UiCommand) -> bool {
    &&& workflow_step(o, n)
    &&& match c {
        UiCommand::StartRender(j) => render_selected_result(o.workflow, n.workflow, Some(j)),
        UiCommand::Idle => render_selected_result(o.workflow, n.workflow, None),
        _ => false,
    }
}

#[verifier::opaque]
pub open spec fn effect_render_all<I: Clone>(o: UiState<I>, n: UiState<I>, c: UiCommand) -> bool {
    &&& workflow_step(o, n)
    &&& match c {
        UiCommand::StartRender(j) => render_all_result(o.workflow, n.workflow, Some(j)),
        UiCommand::Idle => render_all_result(o.workflow, n.workflow, None),
        _ => false,
    }
}

#[verifier::opaque]
pub open spec fn effect_toggle_pool_selection<I: Clone>(o: UiState<I>, n: UiState<I>, c: UiCommand) -> bool {
    &&& n == (UiState { workflow: n.workflow, ..o })
    &&& toggle_pool_result(o.workflow, n.workflow)
    &&& c is Idle
}

#[verifier::opaque]
pub open spec fn effect_toggle_queue_selection<I: Clone>(o: UiState<I>, n: UiState<I>, c: UiCommand) -> bool {
    &&& n == (UiState { workflow: n.workflow, ..o })
    &&& toggle_queue_result(o.workflow, n.workflow)
    &&& c is Idle
}

#[verifier::opaque]
pub open spec fn effect_toggle_select_all<I: Clone>(o: UiState<I>, n: UiState<I>, c: UiCommand) -> bool {
    &&& o.workflow.imported_files@.len() == 0 ==> n == o
    &&& o.workflow.imported_files@.len() > 0 ==> workflow_step(o, n) && select_all_result(
        o.workflow,
        n.workflow,
    )
    &&& c is Idle
}

#[verifier::opaque]
pub open spec fn effect_cycle_rate<I>(o: UiState<I>, n: UiState<I>, c: UiCommand) -> bool {
    let os = o.settings;
    &&& settings_step(o, n)
    &&& rate_view(n.settings.active_rate_control) == next_rate_view(rate_view(os.active_rate_control))
    &&& n.settings == (ExportSettings {
        active_rate_control: n.settings.active_rate_control,
        is_editing_custom_rate: false,
        export_focus: ExportFocus::RateControl,
        status_message: n.settings.status_message,
        ..os
    })
    &&& status_is(n, "Rate: "@ + n.settings.active_rate_control.spec_name())
    &&& c is Idle
}

#[verifier::opaque]
pub open spec fn effect_cycle_transfer<I>(o: UiState<I>, n: UiState<I>, c: UiCommand) -> bool {
    let os = o.settings;
    &&& settings_step(o, n)
    &&& n.settings == (ExportSettings {
        export_transfer_function: os.export_transfer_function.spec_next(),
        export_focus: ExportFocus::TransferFunction,
        status_message: n.settings.status_message,
        ..os
    })
    &&& status_is(n, "Transfer: "@ + os.export_transfer_function.spec_next().spec_name())
    &&& c is Idle
}

#[verifier::opaque]
pub open spec fn effect_cycle_gamut<I>(o: UiState<I>, n: UiState<I>, c: UiCommand) -> bool {
    let os = o.settings;
    &&& settings_step(o, n)
    &&& n.settings == (ExportSettings {
        export_color_space: os.export_color_space.spec_next(),
        export_focus: ExportFocus::ColorSpace,
        status_message: n.settings.status_message,
        ..os
    })
    &&& status_is(n, "Gamut: "@ + os.export_color_space.spec_next().spec_name())
    &&& c is Idle
}

#[verifier::opaque]
pub open spec fn effect_cycle_codec<I>(o: UiState<I>, n: UiState<I>, c: UiCommand) -> bool {
    let os = o.settings;
    &&& settings_step(o, n)
    &&& n.settings == (ExportSettings {
        export_codec_family: os.export_codec_family.spec_next(),
        export_focus: ExportFocus::CodecFamily,
        status_message: n.settings.status_message,
        ..os
    })
    &&& status_is(n, "Codec: "@ + os.export_codec_family.spec_next().spec_name())
    &&& c is Idle
}

#[verifier::opaque]
pub open spec fn effect_cycle_profile<I>(o: UiState<I>, n: UiState<I>, c: UiCommand) -> bool {
    &&& settings_step(o, n)
    &&& profile_cycled(o.settings, n.settings, true)
    &&& c is Idle
}

#[verifier::opaque]
pub open spec fn effect_cycle_fps<I>(o: UiState<I>, n: UiState<I>, c: UiCommand) -> bool {
    let os = o.settings;
    &&& settings_step(o, n)
    &&& n.settings == (ExportSettings {
        export_fps: spec_next_fps(os.export_fps),
        export_focus: ExportFocus::Fps,
        status_message: n.settings.status_message,
        ..os
    })
    &&& status_is(n, "FPS: "@ + crate::settings::spec_fps_label(spec_next_fps(os.export_fps)))
    &&& c is Idle
}

#[verifier::opaque]
pub open spec fn effect_begin_naming<I>(o: UiState<I>, n: UiState<I>, c: UiCommand) -> bool {
    &&& n == (UiState { settings: n.settings, ..o })
    &&& naming_begun(o.settings, n.settings)
    &&& c is Idle
}

#[verifier::opaque]
pub open spec fn effect_open_picker<I>(o: UiState<I>, n: UiState<I>, c: UiCommand) -> bool {
    &&& o.settings.presets@.len() == 0 ==> settings_step(o, n)
    &&& o.settings.presets@.len() > 0 ==> n == (UiState { settings: n.settings, ..o })
    &&& picker_opened(o.settings, n.settings)
    &&& c is Idle
}

#[verifier::opaque]
pub open spec fn effect_export_focus_up<I>(o: UiState<I>, n: UiState<I>, c: UiCommand) -> bool {
    let os = o.settings;
    &&& n == (UiState { settings: ExportSettings { export_focus: spec_export_focus_up(os.export_focus), ..os }, ..o })
    &&& c is Idle
}

#[verifier::opaque]
pub open spec fn effect_export_focus_down<I>(o: UiState<I>, n: UiState<I>, c: UiCommand) -> bool {
    let os = o.settings;
    &&& n == (UiState { settings: ExportSettings { export_focus: spec_export_focus_down(os.export_focus), ..os }, ..o })
    &&& c is Idle
}

#[verifier::opaque]
pub open spec fn effect_set_export_folder<I>(o: UiState<I>, n: UiState<I>, c: UiCommand) -> bool {
    let os = o.settings;
    &&& settings_step(o, n)
    &&& n.settings == (ExportSettings {
        export_folder: Some(o.browser.current_path),
        status_message: n.settings.status_message,
        ..os
    })
    &&& status_is(n, "Export folder set"@)
    &&& c is Idle
}

#[verifier::opaque]
pub open spec fn effect_toggle_favourites_view<I>(o: UiState<I>, n: UiState<I>, c: UiCommand) -> bool {
    let f = o.favourites;
    &&& n == (UiState { favourites: n.favourites, status_message: n.status_message, ..o })
    &&& n.favourites.folders == f.folders
    &&& f.browsing ==> !n.favourites.browsing && n.favourites.cursor == f.cursor && status_is(
        n,
        "Folder view"@,
    )
    &&& !f.browsing && f.folders@.len() == 0 ==> !n.favourites.browsing && n.favourites.cursor
        == f.cursor && status_is(
        n,
        "No favourites yet \u{2014} press [F] to add the current folder"@,
    )
    &&& !f.browsing && f.folders@.len() > 0 ==> n.favourites.browsing && n.favourites.cursor == 0
        && status_is(n, "Favourites view (press [f] or [Esc] to return)"@)
    &&& c is Idle
}

#[verifier::opaque]
pub open spec fn effect_toggle_favourite<I>(o: UiState<I>, n: UiState<I>, c: UiCommand) -> bool {
    let f = o.favourites;
    let p = o.browser.current_path;
    &&& n == (UiState { favourites: n.favourites, status_message: n.status_message, ..o })
    &&& n.favourites.cursor == f.cursor
    &&& n.favourites.browsing == f.browsing
    &&& {
        ||| status_is(n, "Added to favourites"@) && n.favourites.folders@ == f.folders@.push(p)
            && forall|i: int| 0 <= i < f.folders@.len() ==> #[trigger] f.folders@[i] != p
        ||| status_is(n, "Removed from favourites"@) && exists|i: int|
            0 <= i < f.folders@.len() && n.favourites.folders@ == f.folders@.remove(i) && forall|
                j: int,
            |
                0 <= j < i ==> #[trigger] f.folders@[j] != p
    }
    &&& c is SaveFavourites
}

#[verifier::opaque]
pub open spec fn effect_delete_favourite<I>(o: UiState<I>, n: UiState<I>, c: UiCommand) -> bool {
    let f = o.favourites;
    let rest = f.folders@.remove(f.cursor as int);
    &&& f.cursor >= f.folders@.len() ==> n == o && c is Idle
    &&& f.cursor < f.folders@.len() ==> {
        &&& n == (UiState { favourites: n.favourites, ..o })
        &&& n.favourites.folders@ == rest
        &&& n.favourites.browsing == (f.browsing && rest.len() > 0)
        &&& n.favourites.cursor == if rest.len() > 0 && f.cursor >= rest.len() {
            (rest.len() - 1) as usize
        } else {
            f.cursor
        }
        &&& c matches UiCommand::FavouriteRemoved(q) && q == f.folders@[f.cursor as int]
    }
}

#[verifier::opaque]
pub open spec fn effect_open_favourite<I>(o: UiState<I>, n: UiState<I>, c: UiCommand) -> bool {
    let f = o.favourites;
    &&& (f.cursor < f.folders@.len() ==> n == (UiState { favourites: Favourites { browsing: false, ..f }, ..o })
        && (c matches UiCommand::OpenFolder(p) && p == f.folders@[f.cursor as int]))
    &&& (f.cursor >= f.folders@.len() ==> n == o && c is Idle)
}

#[verifier::opaque]
pub open spec fn effect_browser_enter<I>(o: UiState<I>, n: UiState<I>, c: UiCommand) -> bool {
    n == o && c is EnterBrowserEntry
}

#[verifier::opaque]
pub open spec fn effect_browser_go_up<I>(o: UiState<I>, n: UiState<I>, c: UiCommand) -> bool {
    n == o && c is BrowserGoUp
}

#[verifier::opaque]
pub open spec fn effect_toggle_hidden<I>(o: UiState<I>, n: UiState<I>, c: UiCommand) -> bool {
    &&& n == (UiState {
        browser: FileBrowser { show_hidden: !o.browser.show_hidden, ..o.browser },
        status_message: n.status_message,
        ..o
    })
    &&& status_is(n, if !o.browser.show_hidden { "Showing hidden files"@ } else { "Hiding hidden files"@ })
    &&& c is RefreshBrowser
}

#[verifier::opaque]
pub open spec fn effect_load_folder<I>(o: UiState<I>, n: UiState<I>, c: UiCommand) -> bool {
    n == (UiState { show_browser: false, ..o }) && c is LoadFolder
}

#[verifier::opaque]
pub open spec fn effect_import_from_browser<I>(o: UiState<I>, n: UiState<I>, c: UiCommand) -> bool {
    n == o && c is ImportFromBrowser
}

#[verifier::opaque]
pub open spec fn effect_dump_metadata<I>(o: UiState<I>, n: UiState<I>, c: UiCommand) -> bool {
    n == o && c is DumpMetadata
}

#[verifier::opaque]
pub open spec fn effect_grade<I>(o: UiState<I>, n: UiState<I>, g: GradeKey, c: UiCommand) -> bool {
    n == o && (c matches UiCommand::Grade(h) && h == g)
}

#[verifier::opaque]
pub open spec fn effect_move<I>(o: UiState<I>, n: UiState<I>, t: ListTarget, st: Step, c: UiCommand) -> bool {
    let ow = o.workflow;
    match t {
        ListTarget::Help => n == (UiState { help_scroll: help_after(o.help_scroll, st), ..o }) && c is Idle,
        ListTarget::Favourites => {
            let f = o.favourites;
            let cur = if st == Step::Home {
                0
            } else if st == Step::End {
                if f.folders@.len() > 0 { f.folders@.len() - 1 } else { f.cursor as int }
            } else if f.folders@.len() > 0 {
                clamp_int(f.cursor + favourites_delta(st), 0, f.folders@.len() - 1)
            } else {
                f.cursor as int
            };
            n == (UiState { favourites: Favourites { cursor: cur as usize, ..f }, ..o }) && c is Idle
        },
        ListTarget::Browser => {
            let b = o.browser;
            n == (UiState {
                browser: FileBrowser {
                    selected_index: cursor_after(b.selected_index, b.entries@.len(), st) as usize,
                    ..b
                },
                ..o
            }) && c is Idle
        },
        ListTarget::MediaPool => {
            let t = cursor_after(ow.media_pool_index, ow.imported_files@.len(), st);
            if t < ow.imported_files@.len() && t != ow.media_pool_index {
                n == (UiState { workflow: RenderWorkflow { media_pool_index: t as usize, ..ow }, ..o })
                    && (c matches UiCommand::ShowClip(k) && k == t)
            } else {
                n == o && c is Idle
            }
        },
        ListTarget::Queue => {
            n == (UiState {
                workflow: RenderWorkflow {
                    queue_index: cursor_after(ow.queue_index, ow.queue@.len(), st) as usize,
                    ..ow
                },
                ..o
            }) && c is Idle
        },
    }
}


fn cursor_after_exec(idx: usize, len: usize, st: Step) -> (r: usize)
    ensures
        r == cursor_after(idx, len as nat, st),
{
    match st {
        Step::Up => if idx > 0 { idx - 1 } else { idx },
        Step::Down => if len > 0 && idx < len - 1 { idx + 1 } else { idx },
        Step::PageUp => if len > 0 {
            let k = if len < 10 { len } else { 10 };
            if idx >= k { idx - k } else { 0 }
        } else {
            idx
        },
        Step::PageDown => if len > 0 {
            if idx < len - 1 && len - 1 - idx > 10 { idx + 10 } else { len - 1 }
        } else {
            idx
        },
        Step::Home => 0,
        Step::End => if len > 0 { len - 1 } else { idx },
    }
}

fn help_after_exec(v: u16, st: Step) -> (r: u16)
    ensures
        r == help_after(v, st),
{
    match st {
        Step::Up => if v >= 1 { v - 1 } else { 0 },
        Step::Down => if v < u16::MAX { v + 1 } else { u16::MAX },
        Step::PageUp => if v >= 10 { v - 10 } else { 0 },
        Step::PageDown => if v <= u16::MAX - 10 { v + 10 } else { u16::MAX },
        _ => v,
    }
}

impl<I: Clone> UiState<I> {
    /// What decides the keys' meaning now.
    pub fn mode(&self) -> (m: UiMode)
        ensures
            m == spec_mode(*self),
    {
        let (popup_open, whole) = match &self.import_popup {
            ImportPopupState::DroppedFiles { files, all_in_folder, .. } => (true, all_in_folder.len() > files.len()),
            ImportPopupState::Hidden => (false, false),
        };
        UiMode {
            naming: self.settings.preset_naming.is_some(),
            picker_open: self.settings.preset_picker.open,
            popup_open,
            popup_whole_folder: whole,
            editing_rate: self.settings.is_editing_custom_rate,
            custom_rate: matches!(self.settings.active_rate_control, crate::export::RateControl::Custom(_)),
            focus: self.focus,
            help: self.show_help,
            favourites: self.favourites.browsing,
            browser: self.show_browser,
            full_info: self.show_full_info,
            grade_screen: self.show_grade_screen,
            exporting: self.is_exporting,
            pool_nonempty: self.workflow.imported_files.len() > 0,
        }
    }

    fn copy_workflow_status(&mut self)
        ensures
            *final(self) == (UiState { status_message: final(self).status_message, ..*old(self) }),
            final(self).status_message@ == old(self).workflow.status_message@,
    {
        self.status_message = self.workflow.status_message.clone();
    }

    fn copy_settings_status(&mut self)
        ensures
            *final(self) == (UiState { status_message: final(self).status_message, ..*old(self) }),
            final(self).status_message@ == old(self).settings.status_message@,
    {
        self.status_message = self.settings.status_message.clone();
    }

    /// Carries out action `a` and says what is left for the caller.
    pub fn apply_action(&mut self, a: UiAction) -> (c: UiCommand)
        requires
            ui_ready(*old(self)),
        ensures
            spec_effect(*old(self), *final(self), a, c),
    {
        match a {
            UiAction::Nothing => self.act_nothing(),
            UiAction::Quit => self.act_quit(),
            UiAction::CancelExport => self.act_cancel_export(),
            UiAction::TypeName(ch) => self.act_type_name(ch),
            UiAction::EraseName => self.act_erase_name(),
            UiAction::CommitNaming => self.act_commit_naming(),
            UiAction::CancelNaming => self.act_cancel_naming(),
            UiAction::ClosePicker => self.act_close_picker(),
            UiAction::PickerUp => self.act_picker_up(),
            UiAction::PickerDown => self.act_picker_down(),
            UiAction::ApplyPicked => self.act_apply_picked(),
            UiAction::DeletePicked => self.act_delete_picked(),
            UiAction::ImportDropped => self.act_import_dropped(),
            UiAction::ImportWholeFolder => self.act_import_whole_folder(),
            UiAction::ClosePopup => self.act_close_popup(),
            UiAction::TypeRate(ch) => self.act_type_rate(ch),
            UiAction::EraseRate => self.act_erase_rate(),
            UiAction::FinishRate => self.act_finish_rate(),
            UiAction::ToggleRateEdit(from_enter) => self.act_toggle_rate_edit(from_enter),
            UiAction::ToggleHelp => self.act_toggle_help(),
            UiAction::ToggleBrowser => self.act_toggle_browser(),
            UiAction::FocusExport => self.act_focus_export(),
            UiAction::CycleFocus => self.act_cycle_focus(),
            UiAction::ToggleFullInfo => self.act_toggle_full_info(),
            UiAction::ToggleCulling => self.act_toggle_culling(),
            UiAction::ToggleGradeScreen => self.act_toggle_grade_screen(),
            UiAction::CloseFullInfo => self.act_close_full_info(),
            UiAction::LeaveFavourites => self.act_leave_favourites(),
            UiAction::CloseBrowser => self.act_close_browser(),
            UiAction::CloseHelp => self.act_close_help(),
            UiAction::AddSelected => self.act_add_selected(),
            UiAction::AddAll => self.act_add_all(),
            UiAction::RemoveSelectedFromPool => self.act_remove_selected_from_pool(),
            UiAction::RemoveFromPool => self.act_remove_from_pool(),
            UiAction::RemoveFromQueue => self.act_remove_from_queue(),
            UiAction::ClearCompleted => self.act_clear_completed(),
            UiAction::RenderSelected => self.act_render_selected(),
            UiAction::RenderAll => self.act_render_all(),
            UiAction::TogglePoolSelection => self.act_toggle_pool_selection(),
            UiAction::ToggleQueueSelection => self.act_toggle_queue_selection(),
            UiAction::ToggleSelectAll => self.act_toggle_select_all(),
            UiAction::CycleRate => self.act_cycle_rate(),
            UiAction::CycleTransfer => self.act_cycle_transfer(),
            UiAction::CycleGamut => self.act_cycle_gamut(),
            UiAction::CycleCodec => self.act_cycle_codec(),
            UiAction::CycleProfile => self.act_cycle_profile(),
            UiAction::CycleFps => self.act_cycle_fps(),
            UiAction::BeginNaming => self.act_begin_naming(),
            UiAction::OpenPicker => self.act_open_picker(),
            UiAction::ExportFocusUp => self.act_export_focus_up(),
            UiAction::ExportFocusDown => self.act_export_focus_down(),
            UiAction::SetExportFolder => self.act_set_export_folder(),
            UiAction::ToggleFavouritesView => self.act_toggle_favourites_view(),
            UiAction::ToggleFavourite => self.act_toggle_favourite(),
            UiAction::DeleteFavourite => self.act_delete_favourite(),
            UiAction::OpenFavourite => self.act_open_favourite(),
            UiAction::BrowserEnter => self.act_browser_enter(),
            UiAction::BrowserGoUp => self.act_browser_go_up(),
            UiAction::ToggleHidden => self.act_toggle_hidden(),
            UiAction::LoadFolder => self.act_load_folder(),
            UiAction::ImportFromBrowser => self.act_import_from_browser(),
            UiAction::DumpMetadata => self.act_dump_metadata(),
            UiAction::Grade(g) => self.act_grade(g),
            UiAction::Move(t, st) => self.act_move(t, st),
        }
    }

    fn act_nothing(&mut self) -> (c: UiCommand)
        requires
            ui_ready(*old(self)),
        ensures
            effect_nothing(*old(self), *final(self), c),
    {
        proof {
            reveal(effect_nothing);
        }
        UiCommand::Idle
    }

    fn act_quit(&mut self) -> (c: UiCommand)
        requires
            ui_ready(*old(self)),
        ensures
            effect_quit(*old(self), *final(self), c),
    {
        proof {
            reveal(effect_quit);
        }
        self.running = false;
        UiCommand::Quit
    }

    fn act_cancel_export(&mut self) -> (c: UiCommand)
        requires
            ui_ready(*old(self)),
        ensures
            effect_cancel_export(*old(self), *final(self), c),
    {
        proof {
            reveal(effect_cancel_export);
        }
        UiCommand::CancelExport
    }

    fn act_type_name(&mut self, ch: char) -> (c: UiCommand)
        requires
            ui_ready(*old(self)),
        ensures
            effect_type_name(*old(self), *final(self), ch, c),
    {
        proof {
            reveal(effect_type_name);
        }
        self.settings.type_preset_name_char(ch);
        UiCommand::Idle
    }

    fn act_erase_name(&mut self) -> (c: UiCommand)
        requires
            ui_ready(*old(self)),
        ensures
            effect_erase_name(*old(self), *final(self), c),
    {
        proof {
            reveal(effect_erase_name);
        }
        self.settings.erase_preset_name_char();
        UiCommand::Idle
    }

    fn act_commit_naming(&mut self) -> (c: UiCommand)
        requires
            ui_ready(*old(self)),
        ensures
            effect_commit_naming(*old(self), *final(self), c),
    {
        proof {
            reveal(effect_commit_naming);
        }
        if self.settings.preset_naming.is_none() {
            return UiCommand::Idle;
        }
        let saved = self.settings.commit_naming_preset();
        self.copy_settings_status();
        if saved {
            UiCommand::SavePresets
        } else {
            UiCommand::Idle
        }
    }

    fn act_cancel_naming(&mut self) -> (c: UiCommand)
        requires
            ui_ready(*old(self)),
        ensures
            effect_cancel_naming(*old(self), *final(self), c),
    {
        proof {
            reveal(effect_cancel_naming);
        }
        self.settings.cancel_naming_preset();
        self.status_message = owned("Preset save cancelled");
        UiCommand::Idle
    }

    fn act_close_picker(&mut self) -> (c: UiCommand)
        requires
            ui_ready(*old(self)),
        ensures
            effect_close_picker(*old(self), *final(self), c),
    {
        proof {
            reveal(effect_close_picker);
        }
        self.settings.close_preset_picker();
        UiCommand::Idle
    }

    fn act_picker_up(&mut self) -> (c: UiCommand)
        requires
            ui_ready(*old(self)),
        ensures
            effect_picker_up(*old(self), *final(self), c),
    {
        proof {
            reveal(effect_picker_up);
        }
        self.settings.preset_picker_up();
        UiCommand::Idle
    }

    fn act_picker_down(&mut self) -> (c: UiCommand)
        requires
            ui_ready(*old(self)),
        ensures
            effect_picker_down(*old(self), *final(self), c),
    {
        proof {
            reveal(effect_picker_down);
        }
        self.settings.preset_picker_down();
        UiCommand::Idle
    }

    fn act_apply_picked(&mut self) -> (c: UiCommand)
        requires
            ui_ready(*old(self)),
        ensures
            effect_apply_picked(*old(self), *final(self), c),
    {
        proof {
            reveal(effect_apply_picked);
        }
        let idx = self.settings.preset_picker.index;
        self.settings.close_preset_picker();
        if idx < self.settings.presets.len() {
            self.settings.apply_preset(idx);
            self.copy_settings_status();
        }
        UiCommand::Idle
    }

    fn act_delete_picked(&mut self) -> (c: UiCommand)
        requires
            ui_ready(*old(self)),
        ensures
            effect_delete_picked(*old(self), *final(self), c),
    {
        proof {
            reveal(effect_delete_picked);
        }
        let idx = self.settings.preset_picker.index;
        let deleted = self.settings.delete_preset(idx);
        if deleted {
            self.copy_settings_status();
            UiCommand::SavePresets
        } else {
            UiCommand::Idle
        }
    }

    fn act_import_dropped(&mut self) -> (c: UiCommand)
        requires
            ui_ready(*old(self)),
        ensures
            effect_import_dropped(*old(self), *final(self), c),
    {
        proof {
            reveal(effect_import_dropped);
        }
        let mut p = ImportPopupState::Hidden;
        core::mem::swap(&mut p, &mut self.import_popup);
        self.show_browser = false;
        match p {
            ImportPopupState::DroppedFiles { files, .. } => UiCommand::ImportFiles(files),
            ImportPopupState::Hidden => UiCommand::Idle,
        }
    }

    fn act_import_whole_folder(&mut self) -> (c: UiCommand)
        requires
            ui_ready(*old(self)),
        ensures
            effect_import_whole_folder(*old(self), *final(self), c),
    {
        proof {
            reveal(effect_import_whole_folder);
        }
        let mut p = ImportPopupState::Hidden;
        core::mem::swap(&mut p, &mut self.import_popup);
        self.show_browser = false;
        match p {
            ImportPopupState::DroppedFiles { all_in_folder, .. } => UiCommand::ImportFiles(all_in_folder),
            ImportPopupState::Hidden => UiCommand::Idle,
        }
    }

    fn act_close_popup(&mut self) -> (c: UiCommand)
        requires
            ui_ready(*old(self)),
        ensures
            effect_close_popup(*old(self), *final(self), c),
    {
        proof {
            reveal(effect_close_popup);
        }
        self.import_popup = ImportPopupState::Hidden;
        UiCommand::Idle
    }

    fn act_type_rate(&mut self, ch: char) -> (c: UiCommand)
        requires
            ui_ready(*old(self)),
        ensures
            effect_type_rate(*old(self), *final(self), ch, c),
    {
        proof {
            reveal(effect_type_rate);
        }
        self.settings.type_custom_rate_char(ch);
        UiCommand::Idle
    }

    fn act_erase_rate(&mut self) -> (c: UiCommand)
        requires
            ui_ready(*old(self)),
        ensures
            effect_erase_rate(*old(self), *final(self), c),
    {
        proof {
            reveal(effect_erase_rate);
        }
        self.settings.erase_custom_rate_char();
        UiCommand::Idle
    }

    fn act_finish_rate(&mut self) -> (c: UiCommand)
        requires
            ui_ready(*old(self)),
        ensures
            effect_finish_rate(*old(self), *final(self), c),
    {
        proof {
            reveal(effect_finish_rate);
        }
        self.settings.finish_custom_rate_edit();
        self.copy_settings_status();
        UiCommand::Idle
    }

    fn act_toggle_rate_edit(&mut self, from_enter: bool) -> (c: UiCommand)
        requires
            ui_ready(*old(self)),
        ensures
            effect_toggle_rate_edit(*old(self), *final(self), from_enter, c),
    {
        proof {
            reveal(effect_toggle_rate_edit);
        }
        self.settings.is_editing_custom_rate = !self.settings.is_editing_custom_rate;
        if self.settings.is_editing_custom_rate {
            self.status_message = if from_enter {
                owned("Type a rate value. Enter to confirm, Esc to cancel.")
            } else {
                owned("Type a rate value (e.g. 20, 400M, 50000k). Press Enter to confirm, Esc to cancel.")
            };
        }
        UiCommand::Idle
    }

    fn act_toggle_help(&mut self) -> (c: UiCommand)
        requires
            ui_ready(*old(self)),
        ensures
            effect_toggle_help(*old(self), *final(self), c),
    {
        proof {
            reveal(effect_toggle_help);
        }
        self.show_help = !self.show_help;
        UiCommand::Idle
    }

    fn act_toggle_browser(&mut self) -> (c: UiCommand)
        requires
            ui_ready(*old(self)),
        ensures
            effect_toggle_browser(*old(self), *final(self), c),
    {
        proof {
            reveal(effect_toggle_browser);
        }
        self.show_browser = !self.show_browser;
        self.status_message = if self.show_browser { owned("Browser shown") } else { owned("Browser hidden") };
        UiCommand::Idle
    }

    fn act_focus_export(&mut self) -> (c: UiCommand)
        requires
            ui_ready(*old(self)),
        ensures
            effect_focus_export(*old(self), *final(self), c),
    {
        proof {
            reveal(effect_focus_export);
        }
        self.focus = FocusTarget::ExportSettings;
        self.status_message = FocusTarget::ExportSettings.status_message();
        UiCommand::Idle
    }

    fn act_cycle_focus(&mut self) -> (c: UiCommand)
        requires
            ui_ready(*old(self)),
        ensures
            effect_cycle_focus(*old(self), *final(self), c),
    {
        proof {
            reveal(effect_cycle_focus);
        }
        self.focus = self.focus.next();
        self.status_message = self.focus.status_message();
        UiCommand::Idle
    }

    fn act_toggle_full_info(&mut self) -> (c: UiCommand)
        requires
            ui_ready(*old(self)),
        ensures
            effect_toggle_full_info(*old(self), *final(self), c),
    {
        proof {
            reveal(effect_toggle_full_info);
        }
        self.show_full_info = !self.show_full_info;
        if self.show_full_info {
            self.status_message = owned("Full file info shown (press i or Esc to close)");
        }
        UiCommand::Idle
    }

    fn act_toggle_culling(&mut self) -> (c: UiCommand)
        requires
            ui_ready(*old(self)),
        ensures
            effect_toggle_culling(*old(self), *final(self), c),
    {
        proof {
            reveal(effect_toggle_culling);
        }
        self.show_culling = !self.show_culling;
        self.status_message = if self.show_culling { owned("Culling mode") } else { owned("Normal mode") };
        UiCommand::Idle
    }

    fn act_toggle_grade_screen(&mut self) -> (c: UiCommand)
        requires
            ui_ready(*old(self)),
        ensures
            effect_toggle_grade_screen(*old(self), *final(self), c),
    {
        proof {
            reveal(effect_toggle_grade_screen);
        }
        self.show_grade_screen = !self.show_grade_screen;
        if self.show_grade_screen {
            self.focus = FocusTarget::Grade;
            self.status_message = owned("Grade screen \u{2014} G to exit");
        } else {
            self.focus = FocusTarget::MediaPool;
            self.status_message = owned("Normal view");
        }
        UiCommand::Idle
    }

    fn act_close_full_info(&mut self) -> (c: UiCommand)
        requires
            ui_ready(*old(self)),
        ensures
            effect_close_full_info(*old(self), *final(self), c),
    {
        proof {
            reveal(effect_close_full_info);
        }
        self.show_full_info = false;
        UiCommand::Idle
    }

    fn act_leave_favourites(&mut self) -> (c: UiCommand)
        requires
            ui_ready(*old(self)),
        ensures
            effect_leave_favourites(*old(self), *final(self), c),
    {
        proof {
            reveal(effect_leave_favourites);
        }
        self.favourites.browsing = false;
        self.status_message = owned("Folder view");
        UiCommand::Idle
    }

    fn act_close_browser(&mut self) -> (c: UiCommand)
        requires
            ui_ready(*old(self)),
        ensures
            effect_close_browser(*old(self), *final(self), c),
    {
        proof {
            reveal(effect_close_browser);
        }
        self.show_browser = false;
        UiCommand::Idle
    }

    fn act_close_help(&mut self) -> (c: UiCommand)
        requires
            ui_ready(*old(self)),
        ensures
            effect_close_help(*old(self), *final(self), c),
    {
        proof {
            reveal(effect_close_help);
        }
        self.show_help = false;
        UiCommand::Idle
    }

    fn act_add_selected(&mut self) -> (c: UiCommand)
        requires
            ui_ready(*old(self)),
        ensures
            effect_add_selected(*old(self), *final(self), c),
    {
        proof {
            reveal(effect_add_selected);
        }
        self.workflow.add_selected_to_queue();
        self.copy_workflow_status();
        UiCommand::Idle
    }

    fn act_add_all(&mut self) -> (c: UiCommand)
        requires
            ui_ready(*old(self)),
        ensures
            effect_add_all(*old(self), *final(self), c),
    {
        proof {
            reveal(effect_add_all);
        }
        self.workflow.add_all_to_queue();
        self.copy_workflow_status();
        UiCommand::Idle
    }

    fn act_remove_selected_from_pool(&mut self) -> (c: UiCommand)
        requires
            ui_ready(*old(self)),
        ensures
            effect_remove_selected_from_pool(*old(self), *final(self), c),
    {
        proof {
            reveal(effect_remove_selected_from_pool);
        }
        self.workflow.remove_selected_from_media_pool();
        self.copy_workflow_status();
        UiCommand::Idle
    }

    fn act_remove_from_pool(&mut self) -> (c: UiCommand)
        requires
            ui_ready(*old(self)),
        ensures
            effect_remove_from_pool(*old(self), *final(self), c),
    {
        proof {
            reveal(effect_remove_from_pool);
        }
        if self.workflow.imported_files.len() > 0 {
            let sep = self.path_separator;
            self.workflow.remove_from_media_pool(sep);
            self.copy_workflow_status();
        }
        UiCommand::Idle
    }

    fn act_remove_from_queue(&mut self) -> (c: UiCommand)
        requires
            ui_ready(*old(self)),
        ensures
            effect_remove_from_queue(*old(self), *final(self), c),
    {
        proof {
            reveal(effect_remove_from_queue);
        }
        if self.workflow.queue.len() > 0 {
            let sep = self.path_separator;
            self.workflow.remove_from_queue(sep);
            self.copy_workflow_status();
        }
        UiCommand::Idle
    }

    fn act_clear_completed(&mut self) -> (c: UiCommand)
        requires
            ui_ready(*old(self)),
        ensures
            effect_clear_completed(*old(self), *final(self), c),
    {
        proof {
            reveal(effect_clear_completed);
        }
        self.workflow.clear_completed_queue();
        self.copy_workflow_status();
        UiCommand::Idle
    }

    fn act_render_selected(&mut self) -> (c: UiCommand)
        requires
            ui_ready(*old(self)),
        ensures
            effect_render_selected(*old(self), *final(self), c),
    {
        proof {
            reveal(effect_render_selected);
        }
        let r = self.workflow.render_selected();
        self.copy_workflow_status();
        match r {
            Some(k) => UiCommand::StartRender(k),
            None => UiCommand::Idle,
        }
    }

    fn act_render_all(&mut self) -> (c: UiCommand)
        requires
            ui_ready(*old(self)),
        ensures
            effect_render_all(*old(self), *final(self), c),
    {
        proof {
            reveal(effect_render_all);
        }
        let r = self.workflow.render_all();
        self.copy_workflow_status();
        match r {
            Some(k) => UiCommand::StartRender(k),
            None => UiCommand::Idle,
        }
    }

    fn act_toggle_pool_selection(&mut self) -> (c: UiCommand)
        requires
            ui_ready(*old(self)),
        ensures
            effect_toggle_pool_selection(*old(self), *final(self), c),
    {
        proof {
            reveal(effect_toggle_pool_selection);
        }
        self.workflow.toggle_media_pool_selection();
        UiCommand::Idle
    }

    fn act_toggle_queue_selection(&mut self) -> (c: UiCommand)
        requires
            ui_ready(*old(self)),
        ensures
            effect_toggle_queue_selection(*old(self), *final(self), c),
    {
        proof {
            reveal(effect_toggle_queue_selection);
        }
        self.workflow.toggle_queue_selection();
        UiCommand::Idle
    }

    fn act_toggle_select_all(&mut self) -> (c: UiCommand)
        requires
            ui_ready(*old(self)),
        ensures
            effect_toggle_select_all(*old(self), *final(self), c),
    {
        proof {
            reveal(effect_toggle_select_all);
        }
        if self.workflow.imported_files.len() > 0 {
            self.workflow.toggle_select_all();
            self.copy_workflow_status();
        }
        UiCommand::Idle
    }

    fn act_cycle_rate(&mut self) -> (c: UiCommand)
        requires
            ui_ready(*old(self)),
        ensures
            effect_cycle_rate(*old(self), *final(self), c),
    {
        proof {
            reveal(effect_cycle_rate);
        }
        self.settings.export_focus = ExportFocus::RateControl;
        self.settings.cycle_rate_control();
        self.copy_settings_status();
        UiCommand::Idle
    }

    fn act_cycle_transfer(&mut self) -> (c: UiCommand)
        requires
            ui_ready(*old(self)),
        ensures
            effect_cycle_transfer(*old(self), *final(self), c),
    {
        proof {
            reveal(effect_cycle_transfer);
        }
        self.settings.cycle_transfer_function(true);
        self.settings.export_focus = ExportFocus::TransferFunction;
        self.copy_settings_status();
        UiCommand::Idle
    }

    fn act_cycle_gamut(&mut self) -> (c: UiCommand)
        requires
            ui_ready(*old(self)),
        ensures
            effect_cycle_gamut(*old(self), *final(self), c),
    {
        proof {
            reveal(effect_cycle_gamut);
        }
        self.settings.cycle_color_space(true);
        self.settings.export_focus = ExportFocus::ColorSpace;
        self.copy_settings_status();
        UiCommand::Idle
    }

    fn act_cycle_codec(&mut self) -> (c: UiCommand)
        requires
            ui_ready(*old(self)),
        ensures
            effect_cycle_codec(*old(self), *final(self), c),
    {
        proof {
            reveal(effect_cycle_codec);
        }
        self.settings.cycle_codec(true);
        self.copy_settings_status();
        UiCommand::Idle
    }

    fn act_cycle_profile(&mut self) -> (c: UiCommand)
        requires
            ui_ready(*old(self)),
        ensures
            effect_cycle_profile(*old(self), *final(self), c),
    {
        proof {
            reveal(effect_cycle_profile);
        }
        self.settings.cycle_profile(true);
        self.copy_settings_status();
        UiCommand::Idle
    }

    fn act_cycle_fps(&mut self) -> (c: UiCommand)
        requires
            ui_ready(*old(self)),
        ensures
            effect_cycle_fps(*old(self), *final(self), c),
    {
        proof {
            reveal(effect_cycle_fps);
        }
        self.settings.cycle_export_fps();
        self.copy_settings_status();
        UiCommand::Idle
    }

    fn act_begin_naming(&mut self) -> (c: UiCommand)
        requires
            ui_ready(*old(self)),
        ensures
            effect_begin_naming(*old(self), *final(self), c),
    {
        proof {
            reveal(effect_begin_naming);
        }
        self.settings.begin_naming_preset();
        UiCommand::Idle
    }

    fn act_open_picker(&mut self) -> (c: UiCommand)
        requires
            ui_ready(*old(self)),
        ensures
            effect_open_picker(*old(self), *final(self), c),
    {
        proof {
            reveal(effect_open_picker);
        }
        let empty = self.settings.presets.len() == 0;
        self.settings.open_preset_picker();
        if empty {
            self.copy_settings_status();
        }
        UiCommand::Idle
    }

    fn act_export_focus_up(&mut self) -> (c: UiCommand)
        requires
            ui_ready(*old(self)),
        ensures
            effect_export_focus_up(*old(self), *final(self), c),
    {
        proof {
            reveal(effect_export_focus_up);
        }
        self.settings.export_focus = self.settings.export_focus.up();
        UiCommand::Idle
    }

    fn act_export_focus_down(&mut self) -> (c: UiCommand)
        requires
            ui_ready(*old(self)),
        ensures
            effect_export_focus_down(*old(self), *final(self), c),
    {
        proof {
            reveal(effect_export_focus_down);
        }
        self.settings.export_focus = self.settings.export_focus.down();
        UiCommand::Idle
    }

    fn act_set_export_folder(&mut self) -> (c: UiCommand)
        requires
            ui_ready(*old(self)),
        ensures
            effect_set_export_folder(*old(self), *final(self), c),
    {
        proof {
            reveal(effect_set_export_folder);
        }
        let folder = clone_path(&self.browser.current_path);
        self.settings.set_export_folder(folder);
        self.copy_settings_status();
        UiCommand::Idle
    }

    fn act_toggle_favourites_view(&mut self) -> (c: UiCommand)
        requires
            ui_ready(*old(self)),
        ensures
            effect_toggle_favourites_view(*old(self), *final(self), c),
    {
        proof {
            reveal(effect_toggle_favourites_view);
        }
        self.status_message = self.favourites.toggle_view();
        UiCommand::Idle
    }

    fn act_toggle_favourite(&mut self) -> (c: UiCommand)
        requires
            ui_ready(*old(self)),
        ensures
            effect_toggle_favourite(*old(self), *final(self), c),
    {
        proof {
            reveal(effect_toggle_favourite);
        }
        let folder = clone_path(&self.browser.current_path);
        let added = self.favourites.toggle(folder);
        self.status_message = owned(Favourites::toggle_message(added));
        proof {
            if !added {
                let i = choose|i: int|
                    0 <= i < old(self).favourites.folders@.len() && self.favourites.folders@
                        == old(self).favourites.folders@.remove(i) && forall|j: int|
                        0 <= j < i ==> #[trigger] old(self).favourites.folders@[j] != old(self).browser.current_path;
            }
        }
        UiCommand::SaveFavourites
    }

    fn act_delete_favourite(&mut self) -> (c: UiCommand)
        requires
            ui_ready(*old(self)),
        ensures
            effect_delete_favourite(*old(self), *final(self), c),
    {
        proof {
            reveal(effect_delete_favourite);
        }
        match self.favourites.delete_selected() {
            Some(p) => UiCommand::FavouriteRemoved(p),
            None => UiCommand::Idle,
        }
    }

    fn act_open_favourite(&mut self) -> (c: UiCommand)
        requires
            ui_ready(*old(self)),
        ensures
            effect_open_favourite(*old(self), *final(self), c),
    {
        proof {
            reveal(effect_open_favourite);
        }
        match self.favourites.open_selected() {
            Some(p) => UiCommand::OpenFolder(p),
            None => UiCommand::Idle,
        }
    }

    fn act_browser_enter(&mut self) -> (c: UiCommand)
        requires
            ui_ready(*old(self)),
        ensures
            effect_browser_enter(*old(self), *final(self), c),
    {
        proof {
            reveal(effect_browser_enter);
        }
        UiCommand::EnterBrowserEntry
    }

    fn act_browser_go_up(&mut self) -> (c: UiCommand)
        requires
            ui_ready(*old(self)),
        ensures
            effect_browser_go_up(*old(self), *final(self), c),
    {
        proof {
            reveal(effect_browser_go_up);
        }
        UiCommand::BrowserGoUp
    }

    fn act_toggle_hidden(&mut self) -> (c: UiCommand)
        requires
            ui_ready(*old(self)),
        ensures
            effect_toggle_hidden(*old(self), *final(self), c),
    {
        proof {
            reveal(effect_toggle_hidden);
        }
        self.browser.show_hidden = !self.browser.show_hidden;
        self.status_message = if self.browser.show_hidden {
            owned("Showing hidden files")
        } else {
            owned("Hiding hidden files")
        };
        UiCommand::RefreshBrowser
    }

    fn act_load_folder(&mut self) -> (c: UiCommand)
        requires
            ui_ready(*old(self)),
        ensures
            effect_load_folder(*old(self), *final(self), c),
    {
        proof {
            reveal(effect_load_folder);
        }
        self.show_browser = false;
        UiCommand::LoadFolder
    }

    fn act_import_from_browser(&mut self) -> (c: UiCommand)
        requires
            ui_ready(*old(self)),
        ensures
            effect_import_from_browser(*old(self), *final(self), c),
    {
        proof {
            reveal(effect_import_from_browser);
        }
        UiCommand::ImportFromBrowser
    }

    fn act_dump_metadata(&mut self) -> (c: UiCommand)
        requires
            ui_ready(*old(self)),
        ensures
            effect_dump_metadata(*old(self), *final(self), c),
    {
        proof {
            reveal(effect_dump_metadata);
        }
        UiCommand::DumpMetadata
    }

    fn act_grade(&mut self, g: GradeKey) -> (c: UiCommand)
        requires
            ui_ready(*old(self)),
        ensures
            effect_grade(*old(self), *final(self), g, c),
    {
        proof {
            reveal(effect_grade);
        }
        UiCommand::Grade(g)
    }

    fn act_move(&mut self, t: ListTarget, st: Step) -> (c: UiCommand)
        requires
            ui_ready(*old(self)),
        ensures
            effect_move(*old(self), *final(self), t, st, c),
    {
        proof {
            reveal(effect_move);
        }
        match t {
            ListTarget::Help => {
                self.help_scroll = help_after_exec(self.help_scroll, st);
            },
            ListTarget::Favourites => {
                let len = self.favourites.folders.len();
                match st {
                    Step::Home => { self.favourites.cursor = 0; },
                    Step::End => { if len > 0 { self.favourites.cursor = len - 1; } },
                    Step::Up => { self.favourites.navigate(-1); },
                    Step::Down => { self.favourites.navigate(1); },
                    Step::PageUp => { self.favourites.navigate(-10); },
                    Step::PageDown => { self.favourites.navigate(10); },
                }
            },
            ListTarget::Browser => {
                let len = self.browser.entries.len();
                self.browser.selected_index = cursor_after_exec(self.browser.selected_index, len, st);
            },
            ListTarget::MediaPool => {
                let len = self.workflow.imported_files.len();
                let target = cursor_after_exec(self.workflow.media_pool_index, len, st);
                if self.workflow.switch_media_pool_item(target) {
                    return UiCommand::ShowClip(target);
                }
            },
            ListTarget::Queue => {
                let len = self.workflow.queue.len();
                self.workflow.queue_index = cursor_after_exec(self.workflow.queue_index, len, st);
            },
        }
        UiCommand::Idle
    }
}


/// What a click on the screen asks for.
#[derive(Debug, Clone, Copy, PartialEq, Eq, Structural)]
pub enum ClickAction {
    ToggleBrowser,
    ToggleFileSelection(usize),
    ToggleQueueSelection(usize),
    SelectMediaPoolItem(usize),
    SelectQueueItem(usize),
    FocusMediaPool,
    FocusQueue,
    FocusExport,
    FocusGrade,
    AddSelectedToQueue,
    AddAllToQueue,
    RemoveSelectedFromMediaPool,
    ToggleSelectAll,
    RenderSelected,
    RenderAll,
    ClearQueue,
    CycleCodec,
    CycleGamut,
    CycleTransfer,
    CycleProfile,
    CycleRate,
    CycleFps,
    ImportOption1,
    ImportOption2,
    ClosePopup,
    ToggleHelp,
    /// A click on a browser entry; `double` when it repeats the last click
    /// on the same entry quickly enough to count as a double click.
    BrowserNavigate { index: usize, double: bool },
    BrowserSelectAndEnter { index: usize, double: bool },
    BrowserEnter,
    BrowserGoUp,
    FavouriteNavigate(usize),
    OpenPresetPicker,
    GradeSlider(usize),
}

/// `o` with the focus moved to `f` (the status line aside).
pub open spec fn focused<I>(o: UiState<I>, f: FocusTarget) -> UiState<I> {
    UiState { focus: f, ..o }
}

/// The state after a click from `o`, and the command it leaves. A click
/// that cycles an export setting first focuses the export panel.
pub open spec fn spec_click_effect<I: Clone>(o: UiState<I>, n: UiState<I>, a: ClickAction, c: UiCommand) -> bool {
    let ow = o.workflow;
    match a {
        ClickAction::ToggleBrowser => effect_toggle_browser(o, n, c),
        ClickAction::ToggleFileSelection(k) => {
            &&& n == (UiState { workflow: n.workflow, ..o })
            &&& n.workflow == (RenderWorkflow { imported_files: n.workflow.imported_files, ..ow })
            &&& n.workflow.imported_files@.len() == ow.imported_files@.len()
            &&& forall|i: int| 0 <= i < ow.imported_files@.len() ==> #[trigger] n.workflow.imported_files@[i]
                == (if i == k { ImportedFile { selected: !ow.imported_files@[i].selected, ..ow.imported_files@[i] } } else { ow.imported_files@[i] })
            &&& c is Idle
        },
        ClickAction::ToggleQueueSelection(k) => {
            &&& n == (UiState { workflow: n.workflow, ..o })
            &&& n.workflow == (RenderWorkflow { queue: n.workflow.queue, ..ow })
            &&& n.workflow.queue@.len() == ow.queue@.len()
            &&& forall|i: int| 0 <= i < ow.queue@.len() ==> #[trigger] n.workflow.queue@[i]
                == (if i == k { crate::workflow::QueuedFile { selected: !ow.queue@[i].selected, ..ow.queue@[i] } } else { ow.queue@[i] })
            &&& c is Idle
        },
        ClickAction::SelectMediaPoolItem(k) => if k < ow.imported_files@.len() && k != ow.media_pool_index {
            n == (UiState { workflow: RenderWorkflow { media_pool_index: k, ..ow }, ..o })
                && (c matches UiCommand::ShowClip(j) && j == k)
        } else {
            n == o && c is Idle
        },
        ClickAction::SelectQueueItem(k) => if k < ow.queue@.len() {
            &&& n == (UiState {
                workflow: RenderWorkflow { queue_index: k, ..ow },
                focus: FocusTarget::Queue,
                status_message: n.status_message,
                ..o
            })
            &&& status_is(n, "Focus: "@ + spec_focus_label(FocusTarget::Queue))
            &&& c is Idle
        } else {
            n == o && c is Idle
        },
        ClickAction::FocusMediaPool => {
            &&& n == (UiState { focus: FocusTarget::MediaPool, status_message: n.status_message, ..o })
            &&& status_is(n, "Focus: "@ + spec_focus_label(FocusTarget::MediaPool))
            &&& c is Idle
        },
        ClickAction::FocusQueue => {
            &&& n == (UiState { focus: FocusTarget::Queue, status_message: n.status_message, ..o })
            &&& status_is(n, "Focus: "@ + spec_focus_label(FocusTarget::Queue))
            &&& c is Idle
        },
        ClickAction::FocusExport => effect_focus_export(o, n, c),
        ClickAction::FocusGrade => effect_toggle_grade_screen(o, n, c),
        ClickAction::AddSelectedToQueue => effect_add_selected(o, n, c),
        ClickAction::AddAllToQueue => effect_add_all(o, n, c),
        ClickAction::RemoveSelectedFromMediaPool => effect_remove_selected_from_pool(o, n, c),
        ClickAction::ToggleSelectAll => effect_toggle_select_all(o, n, c),
        ClickAction::RenderSelected => effect_render_selected(o, n, c),
        ClickAction::RenderAll => effect_render_all(o, n, c),
        ClickAction::ClearQueue => effect_clear_completed(o, n, c),
        ClickAction::CycleCodec => effect_cycle_codec(focused(o, FocusTarget::ExportSettings), n, c),
        ClickAction::CycleGamut => effect_cycle_gamut(focused(o, FocusTarget::ExportSettings), n, c),
        ClickAction::CycleTransfer => effect_cycle_transfer(focused(o, FocusTarget::ExportSettings), n, c),
        ClickAction::CycleProfile => effect_cycle_profile(focused(o, FocusTarget::ExportSettings), n, c),
        ClickAction::CycleRate => effect_cycle_rate(focused(o, FocusTarget::ExportSettings), n, c),
        ClickAction::CycleFps => effect_cycle_fps(focused(o, FocusTarget::ExportSettings), n, c),
        ClickAction::ImportOption1 => if o.import_popup is DroppedFiles {
            effect_import_dropped(o, n, c)
        } else if o.show_browser {
            effect_import_from_browser(o, n, c)
        } else {
            n == o && c is Idle
        },
        ClickAction::ImportOption2 => if o.import_popup is DroppedFiles {
            effect_import_whole_folder(o, n, c)
        } else if o.show_browser {
            effect_load_folder(o, n, c)
        } else {
            n == o && c is Idle
        },
        ClickAction::ClosePopup => effect_close_popup(o, n, c),
        ClickAction::ToggleHelp => effect_toggle_help(o, n, c),
        ClickAction::BrowserNavigate { index, double } => {
            &&& n == (UiState { browser: FileBrowser { selected_index: index, ..o.browser }, ..o })
            &&& (double ==> c is EnterBrowserEntry)
            &&& (!double ==> c is Idle)
        },
        ClickAction::BrowserSelectAndEnter { index, double } => {
            &&& n == (UiState { browser: FileBrowser { selected_index: index, ..o.browser }, ..o })
            &&& (double ==> c is EnterBrowserEntry)
            &&& (!double ==> c is Idle)
        },
        ClickAction::BrowserEnter => effect_browser_enter(o, n, c),
        ClickAction::BrowserGoUp => effect_browser_go_up(o, n, c),
        ClickAction::FavouriteNavigate(k) => if k < o.favourites.folders@.len() {
            &&& n == (UiState { status_message: n.status_message, ..o })
            &&& status_is(n, "Navigated to favourite folder"@)
            &&& (c matches UiCommand::OpenFolder(p) && p == o.favourites.folders@[k as int])
        } else {
            n == o && c is Idle
        },
        ClickAction::OpenPresetPicker => effect_open_picker(o, n, c),
        ClickAction::GradeSlider(k) => {
            &&& n == (UiState { focus: FocusTarget::Grade, status_message: n.status_message, ..o })
            &&& status_is(n, "Focus: "@ + spec_focus_label(FocusTarget::Grade))
            &&& (c matches UiCommand::FocusGradeSlider(j) && j == k)
        },
    }
}

/// With the export settings focused and nothing modal open (no preset
/// being named, no preset picker, no import pop-up, no custom rate being
/// typed), the export keys step one setting each and leave the others:
/// `g` moves the colour space to the next one, `t` the transfer function,
/// `c` the codec family, and `f`, outside the browser, the frame rate.
pub proof fn lemma_export_panel_keys<I: Clone>(o: UiState<I>, n: UiState<I>, ch: char, c: UiCommand)
    requires
        o.focus == FocusTarget::ExportSettings,
        o.settings.preset_naming is None,
        !o.settings.preset_picker.open,
        o.import_popup is Hidden,
        !o.settings.is_editing_custom_rate,
        spec_effect(o, n, spec_key_action(spec_mode(o), KeyInput::Char(ch)), c),
    ensures
        ch == 'g' ==> n.settings.export_color_space == o.settings.export_color_space.spec_next()
            && n.settings.export_transfer_function == o.settings.export_transfer_function
            && n.settings.export_codec_family == o.settings.export_codec_family,
        ch == 't' ==> n.settings.export_transfer_function
            == o.settings.export_transfer_function.spec_next() && n.settings.export_color_space
            == o.settings.export_color_space && n.settings.export_codec_family
            == o.settings.export_codec_family,
        ch == 'c' ==> n.settings.export_codec_family == o.settings.export_codec_family.spec_next()
            && n.settings.export_color_space == o.settings.export_color_space
            && n.settings.export_transfer_function == o.settings.export_transfer_function,
        ch == 'f' && !o.show_browser ==> n.settings.export_fps == spec_next_fps(o.settings.export_fps)
            && n.settings.export_color_space == o.settings.export_color_space
            && n.settings.export_transfer_function == o.settings.export_transfer_function
            && n.settings.export_codec_family == o.settings.export_codec_family,
{
    reveal(effect_cycle_gamut);
    reveal(effect_cycle_transfer);
    reveal(effect_cycle_codec);
    reveal(effect_cycle_fps);
}

/// The session's cursors point into their lists when those are not empty,
/// and the entry after a render in progress can be named.
pub open spec fn ui_ready<I>(s: UiState<I>) -> bool {
    &&& s.workflow.imported_files@.len() > 0 ==> s.workflow.media_pool_index
        < s.workflow.imported_files@.len()
    &&& s.workflow.queue@.len() > 0 ==> s.workflow.queue_index < s.workflow.queue@.len()
    &&& s.workflow.current_rendering_index matches Some(k) ==> k < usize::MAX
}

/// Adding clips to an empty queue whose cursor lies at or past the number
/// of clips added leaves the cursor outside the queue: clearing finished
/// entries keeps the cursor where it was, and adding does not move it.
pub open spec fn strands_queue_cursor<I>(o: UiState<I>, a: UiAction) -> bool {
    let w = o.workflow;
    let added = extend_unique(Seq::empty(), pool_paths(w.imported_files@, a is AddSelected)).len();
    &&& a is AddSelected || a is AddAll
    &&& w.queue@.len() == 0
    &&& 0 < added <= w.queue_index
}

/// The same for the clicks that add clips to the queue.
pub open spec fn click_strands_queue_cursor<I>(o: UiState<I>, a: ClickAction) -> bool {
    match a {
        ClickAction::AddSelectedToQueue => strands_queue_cursor(o, UiAction::AddSelected),
        ClickAction::AddAllToQueue => strands_queue_cursor(o, UiAction::AddAll),
        _ => false,
    }
}

/// Every action keeps the session ready for the next key, but for adding
/// clips past a stranded queue cursor.
pub proof fn lemma_effect_keeps_ready<I: Clone>(o: UiState<I>, n: UiState<I>, a: UiAction, c: UiCommand)
    requires
        ui_ready(o),
        !strands_queue_cursor(o, a),
        spec_effect(o, n, a, c),
    ensures
        ui_ready(n),
{
    match a {
        UiAction::Nothing => {
            reveal(effect_nothing);
        },
        UiAction::Quit => {
            reveal(effect_quit);
        },
        UiAction::CancelExport => {
            reveal(effect_cancel_export);
        },
        UiAction::TypeName(ch) => {
            reveal(effect_type_name);
        },
        UiAction::EraseName => {
            reveal(effect_erase_name);
        },
        UiAction::CommitNaming => {
            reveal(effect_commit_naming);
        },
        UiAction::CancelNaming => {
            reveal(effect_cancel_naming);
        },
        UiAction::ClosePicker => {
            reveal(effect_close_picker);
        },
        UiAction::PickerUp => {
            reveal(effect_picker_up);
        },
        UiAction::PickerDown => {
            reveal(effect_picker_down);
        },
        UiAction::ApplyPicked => {
            reveal(effect_apply_picked);
        },
        UiAction::DeletePicked => {
            reveal(effect_delete_picked);
        },
        UiAction::ImportDropped => {
            reveal(effect_import_dropped);
        },
        UiAction::ImportWholeFolder => {
            reveal(effect_import_whole_folder);
        },
        UiAction::ClosePopup => {
            reveal(effect_close_popup);
        },
        UiAction::TypeRate(ch) => {
            reveal(effect_type_rate);
        },
        UiAction::EraseRate => {
            reveal(effect_erase_rate);
        },
        UiAction::FinishRate => {
            reveal(effect_finish_rate);
        },
        UiAction::ToggleRateEdit(from_enter) => {
            reveal(effect_toggle_rate_edit);
        },
        UiAction::ToggleHelp => {
            reveal(effect_toggle_help);
        },
        UiAction::ToggleBrowser => {
            reveal(effect_toggle_browser);
        },
        UiAction::FocusExport => {
            reveal(effect_focus_export);
        },
        UiAction::CycleFocus => {
            reveal(effect_cycle_focus);
        },
        UiAction::ToggleFullInfo => {
            reveal(effect_toggle_full_info);
        },
        UiAction::ToggleCulling => {
            reveal(effect_toggle_culling);
        },
        UiAction::ToggleGradeScreen => {
            reveal(effect_toggle_grade_screen);
        },
        UiAction::CloseFullInfo => {
            reveal(effect_close_full_info);
        },
        UiAction::LeaveFavourites => {
            reveal(effect_leave_favourites);
        },
        UiAction::CloseBrowser => {
            reveal(effect_close_browser);
        },
        UiAction::CloseHelp => {
            reveal(effect_close_help);
        },
        UiAction::AddSelected => {
            reveal(effect_add_selected);
            if o.workflow.queue@.len() == 0 {
                assert(queue_paths(o.workflow.queue@) =~= Seq::<Seq<char>>::empty());
            }
            assert(queue_paths(n.workflow.queue@).len() == n.workflow.queue@.len());
            lemma_extend_unique_holds(
                queue_paths(o.workflow.queue@),
                pool_paths(o.workflow.imported_files@, true),
            );
        },
        UiAction::AddAll => {
            reveal(effect_add_all);
            if o.workflow.queue@.len() == 0 {
                assert(queue_paths(o.workflow.queue@) =~= Seq::<Seq<char>>::empty());
            }
            assert(queue_paths(n.workflow.queue@).len() == n.workflow.queue@.len());
            lemma_extend_unique_holds(
                queue_paths(o.workflow.queue@),
                pool_paths(o.workflow.imported_files@, false),
            );
        },
        UiAction::RemoveSelectedFromPool => {
            reveal(effect_remove_selected_from_pool);
        },
        UiAction::RemoveFromPool => {
            reveal(effect_remove_from_pool);
        },
        UiAction::RemoveFromQueue => {
            reveal(effect_remove_from_queue);
        },
        UiAction::ClearCompleted => {
            reveal(effect_clear_completed);
        },
        UiAction::RenderSelected => {
            reveal(effect_render_selected);
        },
        UiAction::RenderAll => {
            reveal(effect_render_all);
        },
        UiAction::TogglePoolSelection => {
            reveal(effect_toggle_pool_selection);
        },
        UiAction::ToggleQueueSelection => {
            reveal(effect_toggle_queue_selection);
        },
        UiAction::ToggleSelectAll => {
            reveal(effect_toggle_select_all);
        },
        UiAction::CycleRate => {
            reveal(effect_cycle_rate);
        },
        UiAction::CycleTransfer => {
            reveal(effect_cycle_transfer);
        },
        UiAction::CycleGamut => {
            reveal(effect_cycle_gamut);
        },
        UiAction::CycleCodec => {
            reveal(effect_cycle_codec);
        },
        UiAction::CycleProfile => {
            reveal(effect_cycle_profile);
        },
        UiAction::CycleFps => {
            reveal(effect_cycle_fps);
        },
        UiAction::BeginNaming => {
            reveal(effect_begin_naming);
        },
        UiAction::OpenPicker => {
            reveal(effect_open_picker);
        },
        UiAction::ExportFocusUp => {
            reveal(effect_export_focus_up);
        },
        UiAction::ExportFocusDown => {
            reveal(effect_export_focus_down);
        },
        UiAction::SetExportFolder => {
            reveal(effect_set_export_folder);
        },
        UiAction::ToggleFavouritesView => {
            reveal(effect_toggle_favourites_view);
        },
        UiAction::ToggleFavourite => {
            reveal(effect_toggle_favourite);
        },
        UiAction::DeleteFavourite => {
            reveal(effect_delete_favourite);
        },
        UiAction::OpenFavourite => {
            reveal(effect_open_favourite);
        },
        UiAction::BrowserEnter => {
            reveal(effect_browser_enter);
        },
        UiAction::BrowserGoUp => {
            reveal(effect_browser_go_up);
        },
        UiAction::ToggleHidden => {
            reveal(effect_toggle_hidden);
        },
        UiAction::LoadFolder => {
            reveal(effect_load_folder);
        },
        UiAction::ImportFromBrowser => {
            reveal(effect_import_from_browser);
        },
        UiAction::DumpMetadata => {
            reveal(effect_dump_metadata);
        },
        UiAction::Grade(g) => {
            reveal(effect_grade);
        },
        UiAction::Move(t, st) => {
            reveal(effect_move);
        },
    }
}

/// Every click keeps the session ready for the next event, but for adding
/// clips past a stranded queue cursor.
pub proof fn lemma_click_keeps_ready<I: Clone>(
    o: UiState<I>,
    n: UiState<I>,
    a: ClickAction,
    c: UiCommand,
)
    requires
        ui_ready(o),
        !click_strands_queue_cursor(o, a),
        spec_click_effect(o, n, a, c),
    ensures
        ui_ready(n),
{
    match a {
        ClickAction::ToggleBrowser => {
            reveal(effect_toggle_browser);
        },
        ClickAction::ToggleFileSelection(k) => {},
        ClickAction::ToggleQueueSelection(k) => {},
        ClickAction::SelectMediaPoolItem(k) => {},
        ClickAction::SelectQueueItem(k) => {},
        ClickAction::FocusMediaPool => {},
        ClickAction::FocusQueue => {},
        ClickAction::FocusExport => {
            reveal(effect_focus_export);
        },
        ClickAction::FocusGrade => {
            reveal(effect_toggle_grade_screen);
        },
        ClickAction::AddSelectedToQueue => {
            reveal(effect_add_selected);
            if o.workflow.queue@.len() == 0 {
                assert(queue_paths(o.workflow.queue@) =~= Seq::<Seq<char>>::empty());
            }
            assert(queue_paths(n.workflow.queue@).len() == n.workflow.queue@.len());
            lemma_extend_unique_holds(
                queue_paths(o.workflow.queue@),
                pool_paths(o.workflow.imported_files@, true),
            );
        },
        ClickAction::AddAllToQueue => {
            reveal(effect_add_all);
            if o.workflow.queue@.len() == 0 {
                assert(queue_paths(o.workflow.queue@) =~= Seq::<Seq<char>>::empty());
            }
            assert(queue_paths(n.workflow.queue@).len() == n.workflow.queue@.len());
            lemma_extend_unique_holds(
                queue_paths(o.workflow.queue@),
                pool_paths(o.workflow.imported_files@, false),
            );
        },
        ClickAction::RemoveSelectedFromMediaPool => {
            reveal(effect_remove_selected_from_pool);
        },
        ClickAction::ToggleSelectAll => {
            reveal(effect_toggle_select_all);
        },
        ClickAction::RenderSelected => {
            reveal(effect_render_selected);
        },
        ClickAction::RenderAll => {
            reveal(effect_render_all);
        },
        ClickAction::ClearQueue => {
            reveal(effect_clear_completed);
        },
        ClickAction::CycleCodec => {
            reveal(effect_cycle_codec);
        },
        ClickAction::CycleGamut => {
            reveal(effect_cycle_gamut);
        },
        ClickAction::CycleTransfer => {
            reveal(effect_cycle_transfer);
        },
        ClickAction::CycleProfile => {
            reveal(effect_cycle_profile);
        },
        ClickAction::CycleRate => {
            reveal(effect_cycle_rate);
        },
        ClickAction::CycleFps => {
            reveal(effect_cycle_fps);
        },
        ClickAction::ImportOption1 => {
            reveal(effect_import_dropped);
            reveal(effect_import_from_browser);
        },
        ClickAction::ImportOption2 => {
            reveal(effect_import_whole_folder);
            reveal(effect_load_folder);
        },
        ClickAction::ClosePopup => {
            reveal(effect_close_popup);
        },
        ClickAction::ToggleHelp => {
            reveal(effect_toggle_help);
        },
        ClickAction::BrowserNavigate { index, double } => {},
        ClickAction::BrowserSelectAndEnter { index, double } => {},
        ClickAction::BrowserEnter => {
            reveal(effect_browser_enter);
        },
        ClickAction::BrowserGoUp => {
            reveal(effect_browser_go_up);
        },
        ClickAction::FavouriteNavigate(k) => {},
        ClickAction::OpenPresetPicker => {
            reveal(effect_open_picker);
        },
        ClickAction::GradeSlider(k) => {},
    }
}

impl<I: Clone> UiState<I> {
    /// Handles one key press: finds the action the key stands for in the
    /// current mode and carries it out.
    pub fn handle_key(&mut self, k: KeyInput) -> (c: UiCommand)
        requires
            ui_ready(*old(self)),
        ensures
            spec_effect(*old(self), *final(self), spec_key_action(spec_mode(*old(self)), k), c),
            !strands_queue_cursor(*old(self), spec_key_action(spec_mode(*old(self)), k)) ==> ui_ready(
                *final(self),
            ),
    {
        let m = self.mode();
        let a = key_action(m, k);
        let c = self.apply_action(a);
        proof {
            if !strands_queue_cursor(*old(self), a) {
                lemma_effect_keeps_ready(*old(self), *self, a, c);
            }
        }
        c
    }

    fn set_focus(&mut self, f: FocusTarget)
        ensures
            *final(self) == (UiState { focus: f, status_message: final(self).status_message, ..*old(self) }),
            final(self).status_message@ == "Focus: "@ + spec_focus_label(f),
    {
        self.focus = f;
        self.status_message = f.status_message();
    }

    /// Carries out a click.
    pub fn execute_click_action(&mut self, a: ClickAction) -> (c: UiCommand)
        requires
            ui_ready(*old(self)),
        ensures
            spec_click_effect(*old(self), *final(self), a, c),
            !click_strands_queue_cursor(*old(self), a) ==> ui_ready(*final(self)),
    {
        let c = self.click(a);
        proof {
            if !click_strands_queue_cursor(*old(self), a) {
                lemma_click_keeps_ready(*old(self), *self, a, c);
            }
        }
        c
    }

    fn click(&mut self, a: ClickAction) -> (c: UiCommand)
        requires
            ui_ready(*old(self)),
        ensures
            spec_click_effect(*old(self), *final(self), a, c),
    {
        match a {
            ClickAction::ToggleBrowser | ClickAction::ToggleFileSelection(..) | ClickAction::ToggleQueueSelection(..) | ClickAction::SelectMediaPoolItem(..) => self.click_group_0(a),
            ClickAction::SelectQueueItem(..) | ClickAction::FocusMediaPool | ClickAction::FocusQueue | ClickAction::FocusExport | ClickAction::FocusGrade => self.click_group_1(a),
            ClickAction::AddSelectedToQueue | ClickAction::AddAllToQueue | ClickAction::RemoveSelectedFromMediaPool | ClickAction::ToggleSelectAll | ClickAction::RenderSelected | ClickAction::RenderAll | ClickAction::ClearQueue => self.click_group_2(a),
            ClickAction::CycleCodec | ClickAction::CycleGamut | ClickAction::CycleTransfer | ClickAction::CycleProfile | ClickAction::CycleRate | ClickAction::CycleFps => self.click_group_3(a),
            ClickAction::ImportOption1 | ClickAction::ImportOption2 | ClickAction::ClosePopup | ClickAction::ToggleHelp | ClickAction::BrowserNavigate { .. } | ClickAction::BrowserSelectAndEnter { .. } | ClickAction::BrowserEnter | ClickAction::BrowserGoUp | ClickAction::FavouriteNavigate(..) | ClickAction::OpenPresetPicker | ClickAction::GradeSlider(..) => self.click_group_4(a),
        }
    }

    #[verifier::spinoff_prover]
    #[verifier::rlimit(50)]
    fn click_group_0(&mut self, a: ClickAction) -> (c: UiCommand)
        requires
            ui_ready(*old(self)),
            a is ToggleBrowser || a is ToggleFileSelection || a is ToggleQueueSelection || a is SelectMediaPoolItem,
        ensures
            spec_click_effect(*old(self), *final(self), a, c),
    {
        match a {
            ClickAction::ToggleBrowser => self.act_toggle_browser(),
            ClickAction::ToggleFileSelection(k) => {
                self.workflow.toggle_selection_at(k);
                proof {
                    assert forall|i: int| 0 <= i < old(self).workflow.imported_files@.len() implies #[trigger] self.workflow.imported_files@[i]
                        == (if i == k { ImportedFile { selected: !old(self).workflow.imported_files@[i].selected, ..old(self).workflow.imported_files@[i] } } else { old(self).workflow.imported_files@[i] }) by {
                    }
                }
                UiCommand::Idle
            },
            ClickAction::ToggleQueueSelection(k) => {
                self.workflow.toggle_queue_selection_at(k);
                proof {
                    assert forall|i: int| 0 <= i < old(self).workflow.queue@.len() implies #[trigger] self.workflow.queue@[i]
                        == (if i == k { crate::workflow::QueuedFile { selected: !old(self).workflow.queue@[i].selected, ..old(self).workflow.queue@[i] } } else { old(self).workflow.queue@[i] }) by {
                    }
                }
                UiCommand::Idle
            },
            ClickAction::SelectMediaPoolItem(k) => {
                if self.workflow.switch_media_pool_item(k) {
                    UiCommand::ShowClip(k)
                } else {
                    UiCommand::Idle
                }
            },
            _ => UiCommand::Idle,
        }
    }

    #[verifier::spinoff_prover]
    #[verifier::rlimit(50)]
    fn click_group_1(&mut self, a: ClickAction) -> (c: UiCommand)
        requires
            ui_ready(*old(self)),
            a is SelectQueueItem || a is FocusMediaPool || a is FocusQueue || a is FocusExport || a is FocusGrade,
        ensures
            spec_click_effect(*old(self), *final(self), a, c),
    {
        match a {
            ClickAction::SelectQueueItem(k) => {
                if k < self.workflow.queue.len() {
                    self.workflow.queue_index = k;
                    self.set_focus(FocusTarget::Queue);
                }
                UiCommand::Idle
            },
            ClickAction::FocusMediaPool => {
                self.set_focus(FocusTarget::MediaPool);
                UiCommand::Idle
            },
            ClickAction::FocusQueue => {
                self.set_focus(FocusTarget::Queue);
                UiCommand::Idle
            },
            ClickAction::FocusExport => self.act_focus_export(),
            ClickAction::FocusGrade => self.act_toggle_grade_screen(),
            _ => UiCommand::Idle,
        }
    }

    #[verifier::spinoff_prover]
    #[verifier::rlimit(50)]
    fn click_group_2(&mut self, a: ClickAction) -> (c: UiCommand)
        requires
            ui_ready(*old(self)),
            a is AddSelectedToQueue || a is AddAllToQueue || a is RemoveSelectedFromMediaPool || a is ToggleSelectAll || a is RenderSelected || a is RenderAll || a is ClearQueue,
        ensures
            spec_click_effect(*old(self), *final(self), a, c),
    {
        match a {
            ClickAction::AddSelectedToQueue => self.act_add_selected(),
            ClickAction::AddAllToQueue => self.act_add_all(),
            ClickAction::RemoveSelectedFromMediaPool => self.act_remove_selected_from_pool(),
            ClickAction::ToggleSelectAll => self.act_toggle_select_all(),
            ClickAction::RenderSelected => self.act_render_selected(),
            ClickAction::RenderAll => self.act_render_all(),
            ClickAction::ClearQueue => self.act_clear_completed(),
            _ => UiCommand::Idle,
        }
    }

    #[verifier::spinoff_prover]
    #[verifier::rlimit(50)]
    fn click_group_3(&mut self, a: ClickAction) -> (c: UiCommand)
        requires
            ui_ready(*old(self)),
            a is CycleCodec || a is CycleGamut || a is CycleTransfer || a is CycleProfile || a is CycleRate || a is CycleFps,
        ensures
            spec_click_effect(*old(self), *final(self), a, c),
    {
        match a {
            ClickAction::CycleCodec => {
                self.focus = FocusTarget::ExportSettings;
                self.act_cycle_codec()
            },
            ClickAction::CycleGamut => {
                self.focus = FocusTarget::ExportSettings;
                self.act_cycle_gamut()
            },
            ClickAction::CycleTransfer => {
                self.focus = FocusTarget::ExportSettings;
                self.act_cycle_transfer()
            },
            ClickAction::CycleProfile => {
                self.focus = FocusTarget::ExportSettings;
                self.act_cycle_profile()
            },
            ClickAction::CycleRate => {
                self.focus = FocusTarget::ExportSettings;
                self.act_cycle_rate()
            },
            ClickAction::CycleFps => {
                self.focus = FocusTarget::ExportSettings;
                self.act_cycle_fps()
            },
            _ => UiCommand::Idle,
        }
    }

    #[verifier::spinoff_prover]
    #[verifier::rlimit(50)]
    fn click_group_4(&mut self, a: ClickAction) -> (c: UiCommand)
        requires
            ui_ready(*old(self)),
            a is ImportOption1 || a is ImportOption2 || a is ClosePopup || a is ToggleHelp || a is BrowserNavigate || a is BrowserSelectAndEnter || a is BrowserEnter || a is BrowserGoUp || a is FavouriteNavigate || a is OpenPresetPicker || a is GradeSlider,
        ensures
            spec_click_effect(*old(self), *final(self), a, c),
    {
        match a {
            ClickAction::ImportOption1 => {
                if matches!(self.import_popup, ImportPopupState::DroppedFiles { .. }) {
                    self.act_import_dropped()
                } else if self.show_browser {
                    self.act_import_from_browser()
                } else {
                    UiCommand::Idle
                }
            },
            ClickAction::ImportOption2 => {
                if matches!(self.import_popup, ImportPopupState::DroppedFiles { .. }) {
                    self.act_import_whole_folder()
                } else if self.show_browser {
                    self.act_load_folder()
                } else {
                    UiCommand::Idle
                }
            },
            ClickAction::ClosePopup => self.act_close_popup(),
            ClickAction::ToggleHelp => self.act_toggle_help(),
            ClickAction::BrowserNavigate { index, double } => {
                self.browser.selected_index = index;
                if double {
                    UiCommand::EnterBrowserEntry
                } else {
                    UiCommand::Idle
                }
            },
            ClickAction::BrowserSelectAndEnter { index, double } => {
                self.browser.selected_index = index;
                if double {
                    UiCommand::EnterBrowserEntry
                } else {
                    UiCommand::Idle
                }
            },
            ClickAction::BrowserEnter => self.act_browser_enter(),
            ClickAction::BrowserGoUp => self.act_browser_go_up(),
            ClickAction::FavouriteNavigate(k) => {
                if k < self.favourites.folders.len() {
                    let p = clone_path(&self.favourites.folders[k]);
                    self.status_message = owned("Navigated to favourite folder");
                    UiCommand::OpenFolder(p)
                } else {
                    UiCommand::Idle
                }
            },
            ClickAction::OpenPresetPicker => self.act_open_picker(),
            ClickAction::GradeSlider(k) => {
                self.set_focus(FocusTarget::Grade);
                UiCommand::FocusGradeSlider(k)
            },

            _ => UiCommand::Idle,
        }
    }
}

} // verus!

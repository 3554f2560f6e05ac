use std::path::PathBuf;

use mcraw_tui::browser::{Favourites, FileBrowser};
use mcraw_tui::keys::{key_action, ClickAction, KeyInput, ListTarget, Step, UiAction, UiCommand, UiState};
use mcraw_tui::session::{ExportFocus, FocusTarget, ImportPopupState};
use mcraw_tui::settings::ExportSettings;
use mcraw_tui::workflow::{ImportedFile, RenderWorkflow};

fn state() -> UiState<u32> {
    UiState {
        workflow: RenderWorkflow::new("Ready".to_string()),
        settings: ExportSettings::new(Vec::new(), "Ready".to_string()),
        browser: FileBrowser::from_listing(PathBuf::from("/clips"), Vec::new()),
        favourites: Favourites::new(Vec::new()),
        focus: FocusTarget::MediaPool,
        import_popup: ImportPopupState::Hidden,
        show_browser: false,
        show_help: false,
        help_scroll: 0,
        show_full_info: false,
        show_grade_screen: false,
        show_culling: false,
        is_exporting: false,
        running: true,
        path_separator: '/',
        status_message: "Ready".to_string(),
    }
}

fn clip(path: &str, selected: bool) -> ImportedFile<u32> {
    ImportedFile { path: path.to_string(), info: 0, selected, first_timestamp: 0 }
}

#[test]
fn tab_cycles_pool_queue_export() {
    let mut s = state();
    s.handle_key(KeyInput::Tab);
    assert_eq!(s.focus, FocusTarget::Queue);
    assert_eq!(s.status_message, "Focus: Render Queue");
    s.handle_key(KeyInput::Tab);
    assert_eq!(s.focus, FocusTarget::ExportSettings);
    s.handle_key(KeyInput::Tab);
    assert_eq!(s.focus, FocusTarget::MediaPool);
}

#[test]
fn esc_closes_innermost_then_quits() {
    let mut s = state();
    s.show_full_info = true;
    s.show_browser = true;
    s.show_help = true;
    s.handle_key(KeyInput::Esc);
    assert!(!s.show_full_info && s.show_browser && s.show_help && s.running);
    s.handle_key(KeyInput::Esc);
    assert!(!s.show_browser && s.show_help);
    s.handle_key(KeyInput::Esc);
    assert!(!s.show_help && s.running);
    assert!(matches!(s.handle_key(KeyInput::Esc), UiCommand::Quit));
    assert!(!s.running);
}

#[test]
fn queue_keys_add_and_render() {
    let mut s = state();
    s.workflow.imported_files = vec![clip("/c/a.mcraw", true), clip("/c/b.mcraw", false)];
    s.handle_key(KeyInput::Char('a'));
    assert_eq!(s.workflow.queue.len(), 1);
    assert_eq!(s.status_message, "Added 1 file(s) to render queue");
    s.handle_key(KeyInput::Char('A'));
    assert_eq!(s.workflow.queue.len(), 2);
    assert!(matches!(s.handle_key(KeyInput::Char('R')), UiCommand::StartRender(0)));
    s.is_exporting = true;
    assert!(matches!(s.handle_key(KeyInput::Char('x')), UiCommand::CancelExport));
    assert!(matches!(s.handle_key(KeyInput::CtrlC), UiCommand::Quit));
}

#[test]
fn arrows_move_the_focused_list() {
    let mut s = state();
    s.workflow.imported_files = (0..15).map(|i| clip(&format!("/c/{}.mcraw", i), false)).collect();
    assert!(matches!(s.handle_key(KeyInput::Down), UiCommand::ShowClip(1)));
    assert!(matches!(s.handle_key(KeyInput::PageDown), UiCommand::ShowClip(11)));
    assert!(matches!(s.handle_key(KeyInput::End), UiCommand::ShowClip(14)));
    assert!(matches!(s.handle_key(KeyInput::Home), UiCommand::ShowClip(0)));
    assert!(matches!(s.handle_key(KeyInput::Up), UiCommand::Idle));
    s.handle_key(KeyInput::Char(' '));
    assert!(s.workflow.imported_files[0].selected);
    s.show_help = true;
    s.handle_key(KeyInput::PageDown);
    assert_eq!(s.help_scroll, 10);
}

#[test]
fn export_panel_keys() {
    let mut s = state();
    s.focus = FocusTarget::ExportSettings;
    s.handle_key(KeyInput::Char('c'));
    assert_eq!(s.status_message, "Codec: H.264");
    s.handle_key(KeyInput::Down);
    assert_eq!(s.settings.export_focus, ExportFocus::Profile);
    s.handle_key(KeyInput::Char('p'));
    assert_eq!(s.settings.preset_naming.as_ref().unwrap().name, "My Preset");
    // while naming, letters go into the name
    s.handle_key(KeyInput::Char('q'));
    assert!(s.running);
    assert_eq!(s.settings.preset_naming.as_ref().unwrap().name, "My Presetq");
    assert!(matches!(s.handle_key(KeyInput::Enter), UiCommand::SavePresets));
    assert_eq!(s.settings.presets.len(), 1);
    assert_eq!(s.settings.active_preset.as_deref(), Some("My Presetq"));
}

#[test]
fn popup_keys_import() {
    let mut s = state();
    s.import_popup = ImportPopupState::DroppedFiles {
        files: vec!["/c/a.mcraw".to_string()],
        folder: "/c".to_string(),
        all_in_folder: vec!["/c/a.mcraw".to_string(), "/c/b.mcraw".to_string()],
    };
    match s.handle_key(KeyInput::Char('2')) {
        UiCommand::ImportFiles(v) => assert_eq!(v.len(), 2),
        _ => panic!("expected an import"),
    }
    assert!(s.import_popup == ImportPopupState::Hidden);
}

#[test]
fn key_table_examples() {
    let s = state();
    let m = s.mode();
    assert_eq!(key_action(m, KeyInput::Char('k')), UiAction::Move(ListTarget::MediaPool, Step::Up));
    assert_eq!(key_action(m, KeyInput::Char('?')), UiAction::ToggleHelp);
    assert_eq!(key_action(m, KeyInput::Char('b')), UiAction::ToggleBrowser);
    assert_eq!(key_action(m, KeyInput::CtrlX), UiAction::Nothing);
}

#[test]
fn clicks_change_the_session() {
    let mut s = state();
    s.workflow.imported_files = vec![clip("/c/a.mcraw", false), clip("/c/b.mcraw", false)];
    s.execute_click_action(ClickAction::ToggleFileSelection(1));
    assert!(s.workflow.imported_files[1].selected && !s.workflow.imported_files[0].selected);
    assert!(matches!(s.execute_click_action(ClickAction::SelectMediaPoolItem(1)), UiCommand::ShowClip(1)));
    s.execute_click_action(ClickAction::CycleGamut);
    assert_eq!(s.focus, FocusTarget::ExportSettings);
    assert!(s.status_message.starts_with("Gamut: "));
    s.execute_click_action(ClickAction::FocusGrade);
    assert_eq!(s.focus, FocusTarget::Grade);
    assert!(matches!(
        s.execute_click_action(ClickAction::BrowserNavigate { index: 3, double: true }),
        UiCommand::EnterBrowserEntry
    ));
    assert_eq!(s.browser.selected_index, 3);
}

#[test]
fn render_all_keeps_the_queue_and_selects_every_entry() {
    let mut s = state();
    s.workflow.imported_files = vec![clip("/c/a.mcraw", false), clip("/c/b.mcraw", false)];
    s.handle_key(KeyInput::Char('A'));
    s.workflow.queue[0].selected = false;
    assert!(matches!(s.handle_key(KeyInput::Char('R')), UiCommand::StartRender(0)));
    assert_eq!(s.workflow.queue.len(), 2);
    assert!(s.workflow.queue.iter().all(|q| q.selected));
    assert_eq!(s.workflow.current_rendering_index, Some(0));
    assert_eq!(s.status_message, "Starting render of all 2 file(s)...");
}

#[test]
fn removing_selected_clips_clamps_the_pool_cursor() {
    let mut s = state();
    s.workflow.imported_files =
        vec![clip("/c/a.mcraw", false), clip("/c/b.mcraw", true), clip("/c/c.mcraw", true)];
    s.workflow.media_pool_index = 2;
    s.handle_key(KeyInput::Char('D'));
    assert_eq!(s.workflow.imported_files.len(), 1);
    assert_eq!(s.workflow.media_pool_index, 0);
    assert_eq!(s.status_message, "Removed 2 selected file(s) from media pool");
    // the session stays usable for the next key
    s.handle_key(KeyInput::Down);
    assert_eq!(s.workflow.media_pool_index, 0);
}

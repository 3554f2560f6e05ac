use std::time::Instant;

use mcraw_tui::session::QueueStatus;
use mcraw_tui::thumbnail::{CachedThumbnail, CACHE_MAX_BYTES, CACHE_MAX_ENTRIES};
use mcraw_tui::thumbnail_cache::ThumbnailCache;
use mcraw_tui::workflow::{prefetch_range, ImportedFile, QueuedFile, RenderWorkflow, PROGRESS_DONE_BITS};

fn clip(path: &str, selected: bool) -> ImportedFile<u32> {
    ImportedFile { path: path.to_string(), info: path.len() as u32, selected, first_timestamp: 0 }
}

fn entry(path: &str, selected: bool, status: QueueStatus) -> QueuedFile<u32> {
    QueuedFile { path: path.to_string(), info: 0, selected, status, progress_bits: 0 }
}

fn paths(w: &RenderWorkflow<u32>) -> Vec<&str> {
    w.queue.iter().map(|q| q.path.as_str()).collect()
}

#[test]
fn selection_toggles() {
    let mut w: RenderWorkflow<u32> = RenderWorkflow::new("Ready".to_string());
    w.toggle_select_all();
    assert_eq!(w.status_message, "Ready");
    w.imported_files = vec![clip("/a/one.mcraw", true), clip("/a/two.mcraw", false)];
    w.toggle_select_all();
    assert!(w.imported_files.iter().all(|f| f.selected));
    assert_eq!(w.status_message, "Selected all (2 files)");
    w.toggle_select_all();
    assert!(w.imported_files.iter().all(|f| !f.selected));
    assert_eq!(w.status_message, "Deselected all (2 files)");
    w.media_pool_index = 1;
    w.toggle_media_pool_selection();
    assert!(!w.imported_files[0].selected && w.imported_files[1].selected);
}

#[test]
fn queueing_skips_paths_already_queued() {
    let mut w: RenderWorkflow<u32> = RenderWorkflow::new(String::new());
    w.imported_files = vec![
        clip("/a/one.mcraw", true),
        clip("/a/two.mcraw", false),
        clip("/a/one.mcraw", true),
        clip("/a/three.mcraw", true),
    ];
    w.queue = vec![entry("/a/three.mcraw", false, QueueStatus::Completed)];
    w.add_selected_to_queue();
    assert_eq!(paths(&w), vec!["/a/three.mcraw", "/a/one.mcraw"]);
    assert_eq!(w.status_message, "Added 3 file(s) to render queue");
    assert!(w.queue[1].selected && w.queue[1].status == QueueStatus::Waiting);
    assert_eq!(w.queue[1].info, 12);
    assert_eq!(w.queue[0].status, QueueStatus::Completed);
    // Queueing the same selection again adds nothing.
    w.add_selected_to_queue();
    assert_eq!(paths(&w), vec!["/a/three.mcraw", "/a/one.mcraw"]);
    w.add_all_to_queue();
    assert_eq!(paths(&w), vec!["/a/three.mcraw", "/a/one.mcraw", "/a/two.mcraw"]);
    assert_eq!(w.status_message, "Added all 4 file(s) to render queue");
}

#[test]
fn queueing_needs_clips() {
    let mut w: RenderWorkflow<u32> = RenderWorkflow::new(String::new());
    w.add_all_to_queue();
    assert_eq!(w.status_message, "No files in media pool");
    w.imported_files = vec![clip("/a/one.mcraw", false)];
    w.add_selected_to_queue();
    assert_eq!(w.status_message, "No files selected - use Space to select, then a to add");
    assert!(w.queue.is_empty());
}

#[test]
fn removing_from_pool_keeps_cursor_inside() {
    let mut w: RenderWorkflow<u32> = RenderWorkflow::new(String::new());
    w.imported_files = vec![clip("/a/one.mcraw", true), clip("/b/two.mcraw", false), clip("three", true)];
    w.media_pool_index = 2;
    w.remove_from_media_pool('/');
    assert_eq!(w.status_message, "Removed three from media pool");
    assert_eq!(w.media_pool_index, 1);
    w.remove_from_media_pool('/');
    assert_eq!(w.status_message, "Removed two.mcraw from media pool");
    assert_eq!(w.media_pool_index, 0);
    w.remove_selected_from_media_pool();
    assert!(w.imported_files.is_empty());
    assert_eq!(w.status_message, "Removed 1 selected file(s) from media pool");
    w.remove_selected_from_media_pool();
    assert_eq!(w.status_message, "No files selected - use Space to select");
}

#[test]
fn removing_and_clearing_the_queue() {
    let mut w: RenderWorkflow<u32> = RenderWorkflow::new(String::new());
    w.queue = vec![
        entry("/c/a.mcraw", false, QueueStatus::Completed),
        entry("/c/b.mcraw", true, QueueStatus::Waiting),
        entry("/c/c.mcraw", false, QueueStatus::Failed("x".to_string())),
        entry("/c/d.mcraw", false, QueueStatus::Waiting),
    ];
    w.queue_index = 3;
    w.remove_from_queue('/');
    assert_eq!(paths(&w), vec!["/c/a.mcraw", "/c/c.mcraw", "/c/d.mcraw"]);
    assert_eq!(w.status_message, "Removed selected items from queue");
    assert_eq!(w.queue_index, 2);
    w.remove_from_queue('/');
    assert_eq!(paths(&w), vec!["/c/a.mcraw", "/c/c.mcraw"]);
    assert_eq!(w.status_message, "Removed d.mcraw from queue");
    assert_eq!(w.queue_index, 1);
    w.toggle_queue_selection();
    assert!(w.queue[1].selected);
    w.clear_completed_queue();
    assert!(w.queue.is_empty());
    assert_eq!(w.status_message, "Cleared 2 completed/failed item(s)");
    w.clear_completed_queue();
    assert_eq!(w.status_message, "No completed/failed items to clear");
}

#[test]
fn batch_rendering_runs_selected_waiting_entries() {
    let mut w: RenderWorkflow<u32> = RenderWorkflow::new(String::new());
    assert_eq!(w.render_selected(), None);
    assert_eq!(w.status_message, "No items selected in queue - use Space to select");
    assert_eq!(w.render_all(), None);
    assert_eq!(w.status_message, "Queue is empty");
    w.queue = vec![
        entry("/c/a.mcraw", false, QueueStatus::Waiting),
        entry("/c/b.mcraw", true, QueueStatus::Waiting),
        entry("/c/c.mcraw", true, QueueStatus::Completed),
        entry("/c/d.mcraw", true, QueueStatus::Waiting),
    ];
    assert_eq!(w.render_selected(), Some(1));
    assert_eq!(w.status_message, "Starting render of 3 selected file(s)...");
    w.mark_rendering();
    assert_eq!(w.queue[1].status, QueueStatus::Rendering);
    w.set_rendering_progress(50.0f64.to_bits());
    assert_eq!(f64::from_bits(w.queue[1].progress_bits), 50.0);

    // The first export succeeds in 2 minutes 5 seconds; the batch moves on.
    assert_eq!(w.finish_render(Ok(()), false, 125), Some(3));
    assert_eq!(w.queue[1].status, QueueStatus::Completed);
    assert_eq!(f64::from_bits(w.queue[1].progress_bits), 100.0);
    assert_eq!(w.queue[1].progress_bits, PROGRESS_DONE_BITS);
    assert_eq!(w.queue[3].status, QueueStatus::Rendering);
    assert_eq!(w.status_message, "Video export completed (02m 05s)");
    assert_eq!(w.current_rendering_index, Some(3));

    // The second fails and ends the batch.
    assert_eq!(w.finish_render(Err("disk full".to_string()), false, 0), None);
    assert_eq!(w.queue[3].status, QueueStatus::Failed("disk full".to_string()));
    assert_eq!(w.status_message, "Batch render complete: 2/3 done");
    assert_eq!(w.current_rendering_index, None);

    // Rendering everything selects every entry and starts at the first.
    assert_eq!(w.render_all(), Some(0));
    assert!(w.queue.iter().all(|q| q.selected));
    assert_eq!(w.status_message, "Starting render of all 4 file(s)...");
    w.mark_rendering();
    assert_eq!(w.finish_render(Ok(()), true, 3), None);
    assert_eq!(w.queue[0].status, QueueStatus::Waiting);
    assert_eq!(w.status_message, "Export cancelled");
    assert_eq!(w.current_rendering_index, None);
}

#[test]
fn export_failure_message_names_the_error() {
    let mut w: RenderWorkflow<u32> = RenderWorkflow::new(String::new());
    assert_eq!(w.finish_render(Err("no encoder".to_string()), false, 0), None);
    assert_eq!(w.status_message, "Export failed: no encoder");
}

fn thumb(bytes: usize) -> CachedThumbnail {
    CachedThumbnail { sixel: vec![7u8; bytes], width: 320, height: 180, encode_time: Instant::now() }
}

#[test]
fn thumbnail_cache_counts_bytes_and_moves_hits_to_front() {
    let mut c = ThumbnailCache::with_placeholder(vec![1, 2, 3]);
    assert_eq!(c.len(), 0);
    assert_eq!(c.placeholder, vec![1, 2, 3]);
    c.insert("/a".to_string(), thumb(10));
    c.insert("/b".to_string(), thumb(20));
    assert_eq!(c.len(), 2);
    assert_eq!(c.current_bytes(), 30);
    assert_eq!(c.get("/a").unwrap().sixel.len(), 10);
    assert!(c.get("/missing").is_none());
    c.insert("/a".to_string(), thumb(5));
    assert_eq!(c.len(), 2);
    assert_eq!(c.current_bytes(), 25);
    c.clear();
    assert_eq!(c.len(), 0);
    assert_eq!(c.current_bytes(), 0);
}

#[test]
fn thumbnail_cache_empties_when_over_budget() {
    let mut c = ThumbnailCache::with_placeholder(Vec::new());
    c.insert("/a".to_string(), thumb(CACHE_MAX_BYTES / 2));
    c.insert("/b".to_string(), thumb(CACHE_MAX_BYTES / 4));
    assert_eq!(c.len(), 2);
    c.insert("/c".to_string(), thumb(CACHE_MAX_BYTES / 2));
    assert_eq!(c.len(), 1);
    assert!(c.get("/a").is_none());
    assert_eq!(c.current_bytes(), CACHE_MAX_BYTES / 2);
}

#[test]
fn thumbnail_cache_holds_at_most_its_entry_limit() {
    let mut c = ThumbnailCache::with_placeholder(Vec::new());
    for i in 0..CACHE_MAX_ENTRIES + 5 {
        c.insert(format!("/clip{}", i), thumb(1));
    }
    assert_eq!(c.len(), CACHE_MAX_ENTRIES);
    assert!(c.get("/clip0").is_none());
    assert!(c.get("/clip5").is_some());
    // Entries the cache dropped on its own stay counted.
    assert_eq!(c.current_bytes(), CACHE_MAX_ENTRIES + 5);
}

#[test]
fn media_pool_and_queue_cursors() {
    let mut w: RenderWorkflow<u32> = RenderWorkflow::new("Ready".to_string());
    assert!(w.focused_file().is_none());
    w.imported_files = vec![clip("/a/one.mcraw", true), clip("/a/two.mcraw", false)];
    assert_eq!(w.focused_file().map(|f| f.path.as_str()), Some("/a/one.mcraw"));
    assert!(!w.switch_media_pool_item(0));
    assert!(!w.switch_media_pool_item(2));
    assert!(w.switch_media_pool_item(1));
    assert_eq!(w.media_pool_index, 1);
    assert_eq!(w.focused_file().map(|f| f.path.as_str()), Some("/a/two.mcraw"));
    w.queue = vec![entry("/q/1", false, QueueStatus::Waiting), entry("/q/2", false, QueueStatus::Waiting)];
    w.queue_cursor_up();
    assert_eq!(w.queue_index, 0);
    w.queue_cursor_down();
    w.queue_cursor_down();
    assert_eq!(w.queue_index, 1);
    w.queue_cursor_up();
    assert_eq!(w.queue_index, 0);
}

#[test]
fn thumbnails_are_fetched_three_either_side() {
    assert_eq!(prefetch_range(0, 10), (0, 4));
    assert_eq!(prefetch_range(5, 10), (2, 9));
    assert_eq!(prefetch_range(8, 10), (5, 10));
    assert_eq!(prefetch_range(0, 1), (0, 1));
}

#[test]
fn importing_skips_paths_already_in_the_pool() {
    let mut w: RenderWorkflow<u32> = RenderWorkflow::new("Ready".to_string());
    assert!(w.import_file("/a/one.mcraw".to_string(), 1, 10));
    assert!(w.import_file("/a/two.mcraw".to_string(), 2, 20));
    assert!(!w.import_file("/a/one.mcraw".to_string(), 9, 99));
    assert_eq!(w.imported_files.len(), 2);
    assert!(w.imported_files[1].selected);
    assert_eq!(w.imported_files[1].first_timestamp, 20);
    assert_eq!(w.imported_files[0].info, 1);
    w.focus_first_new(1);
    assert_eq!(w.media_pool_index, 1);
    w.focus_first_new(0);
    assert_eq!(w.media_pool_index, 1);
    w.focus_first_new(5);
    assert_eq!(w.media_pool_index, 0);
}

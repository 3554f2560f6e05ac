use std::path::PathBuf;

use mcraw_tui::browser::{arrange_listing, sort_entries, Favourites, FileBrowser, FileEntry};

fn e(name: &str, is_dir: bool) -> FileEntry {
    FileEntry { path: PathBuf::from(format!("/d/{}", name)), name: name.to_string(), is_dir, size: 1 }
}

fn names(v: &[FileEntry]) -> Vec<&str> {
    v.iter().map(|x| x.name.as_str()).collect()
}

#[test]
fn listing_puts_files_before_folders_by_name() {
    let listing = vec![
        e("zeta", true),
        e("B.mcraw", false),
        e(".hidden", false),
        e("alpha", true),
        e("a.mcraw", false),
        e("Clips", true),
    ];
    let r = arrange_listing(Some(PathBuf::from("/")), listing, false);
    assert_eq!(names(&r), vec!["..", "a.mcraw", "B.mcraw", "alpha", "Clips", "zeta"]);
    assert_eq!(r[0].path, PathBuf::from("/"));
    assert!(r[0].is_dir);
    assert_eq!(r[0].size, 0);
}

#[test]
fn listing_shows_hidden_entries_on_request() {
    let listing = vec![e("b", false), e(".cache", true), e(".a", false)];
    let r = arrange_listing(None, listing, true);
    assert_eq!(names(&r), vec![".a", "b", ".cache"]);
}

#[test]
fn sort_keeps_every_entry() {
    let v = vec![e("c", false), e("A", false), e("b", false), e("a", true)];
    let r = sort_entries(v);
    assert_eq!(names(&r), vec!["A", "b", "c", "a"]);
}

#[test]
fn browser_moves_and_enters_folders() {
    let listing = arrange_listing(
        Some(PathBuf::from("/")),
        vec![e("x.mcraw", false), e("sub", true)],
        false,
    );
    let mut b = FileBrowser::from_listing(PathBuf::from("/d"), listing);
    assert!(!b.show_hidden);
    assert_eq!(b.go_up_target(), Some(&PathBuf::from("/")));
    b.navigate_up();
    assert_eq!(b.selected_index, 0);
    b.navigate_down();
    assert_eq!(b.selected_entry().unwrap().name, "x.mcraw");
    assert_eq!(b.enter_target(), None);
    assert_eq!(b.go_up_target(), None);
    b.navigate_down();
    b.navigate_down();
    assert_eq!(b.selected_index, 2);
    assert_eq!(b.enter_target(), Some(&PathBuf::from("/d/sub")));
    b.open_folder(PathBuf::from("/d/sub"), Vec::new());
    assert_eq!(b.selected_index, 0);
    assert!(b.selected_entry().is_none());
    b.toggle_hidden(vec![e(".x", false)]);
    assert!(b.show_hidden);
    assert_eq!(b.entries.len(), 1);
}

#[test]
fn sort_keeps_names_equal_but_for_case_in_their_order() {
    let r = sort_entries(vec![e("b", false), e("Take.mcraw", false), e("a", false), e("take.MCRAW", false)]);
    assert_eq!(names(&r), vec!["a", "b", "Take.mcraw", "take.MCRAW"]);
    let r = sort_entries(vec![e("take.MCRAW", false), e("b", false), e("Take.mcraw", false)]);
    assert_eq!(names(&r), vec!["b", "take.MCRAW", "Take.mcraw"]);
}

#[test]
fn favourites_toggle_navigate_and_delete() {
    let mut f = Favourites::new(Vec::new());
    assert_eq!(f.toggle_view(), "No favourites yet \u{2014} press [F] to add the current folder");
    assert!(!f.browsing);
    assert!(f.toggle(PathBuf::from("/a")));
    assert!(f.toggle(PathBuf::from("/b")));
    assert!(f.toggle(PathBuf::from("/c")));
    assert_eq!(Favourites::toggle_message(true), "Added to favourites");
    assert!(!f.toggle(PathBuf::from("/b")));
    assert_eq!(Favourites::toggle_message(false), "Removed from favourites");
    assert_eq!(f.folders, vec![PathBuf::from("/a"), PathBuf::from("/c")]);
    assert_eq!(f.toggle_view(), "Favourites view (press [f] or [Esc] to return)");
    assert!(f.browsing);
    f.navigate(5);
    assert_eq!(f.cursor, 1);
    f.navigate(-7);
    assert_eq!(f.cursor, 0);
    f.navigate(1);
    assert_eq!(f.delete_selected(), Some(PathBuf::from("/c")));
    assert_eq!(f.cursor, 0);
    assert!(f.browsing);
    assert_eq!(f.open_selected(), Some(PathBuf::from("/a")));
    assert!(!f.browsing);
    f.browsing = true;
    assert_eq!(f.delete_selected(), Some(PathBuf::from("/a")));
    assert!(!f.browsing);
    assert_eq!(f.delete_selected(), None);
    assert_eq!(f.open_selected(), None);
}

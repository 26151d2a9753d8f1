use fiv::cmdline::{Args, Filenames, PathInfo};

fn paths(items: &[&str]) -> Vec<String> {
    items.iter().map(|s| s.to_string()).collect()
}

#[test]
fn files_come_in_argument_order_with_directories_expanded() {
    let mut names = Filenames::new(paths(&["a.jpg", "dir", "b.png"]));
    let mut emitted = Vec::new();

    assert_eq!(names.next_path().as_deref(), Some("a.jpg"));
    if names.resolve(PathInfo::File, Vec::new()) {
        emitted.push("a.jpg");
    }

    assert_eq!(names.next_path().as_deref(), Some("dir"));
    assert!(!names.resolve(PathInfo::Directory, paths(&["dir/1.jpg", "dir/2.jpg"])));

    assert_eq!(names.next_path().as_deref(), Some("dir/1.jpg"));
    if names.resolve(PathInfo::File, Vec::new()) {
        emitted.push("dir/1.jpg");
    }
    assert_eq!(names.next_path().as_deref(), Some("dir/2.jpg"));
    if names.resolve(PathInfo::File, Vec::new()) {
        emitted.push("dir/2.jpg");
    }

    assert_eq!(names.next_path().as_deref(), Some("b.png"));
    assert!(!names.resolve(PathInfo::Unknown, Vec::new()));

    assert_eq!(names.next_path(), None);
    assert_eq!(emitted, vec!["a.jpg", "dir/1.jpg", "dir/2.jpg"]);
}

#[test]
fn directories_inside_directories_are_not_expanded() {
    let mut names = Filenames::new(paths(&["dir"]));
    assert_eq!(names.next_path().as_deref(), Some("dir"));
    assert!(!names.resolve(PathInfo::Directory, paths(&["dir/sub", "dir/a.jpg"])));
    assert_eq!(names.next_path().as_deref(), Some("dir/sub"));
    // A directory met inside an expansion is skipped, not recursed into.
    assert!(!names.resolve(PathInfo::Directory, paths(&["dir/sub/deep.jpg"])));
    assert_eq!(names.next_path().as_deref(), Some("dir/a.jpg"));
    assert!(names.resolve(PathInfo::File, Vec::new()));
    assert_eq!(names.next_path(), None);
}

#[test]
fn stat_failures_skip_the_entry() {
    let mut names = Filenames::new(paths(&["gone", "kept"]));
    assert_eq!(names.next_path().as_deref(), Some("gone"));
    assert!(!names.resolve(PathInfo::Unknown, Vec::new()));
    assert_eq!(names.next_path().as_deref(), Some("kept"));
    assert!(names.resolve(PathInfo::File, Vec::new()));
}

#[test]
fn shutdown_ends_enumeration_early() {
    let mut names = Filenames::new(paths(&["a", "b"]));
    assert_eq!(names.next_path().as_deref(), Some("a"));
    assert!(names.resolve(PathInfo::File, Vec::new()));
    names.set_shutdown();
    assert_eq!(names.next_path(), None);
}

#[test]
fn default_arguments_display_the_current_directory() {
    let args = Args::default();
    assert_eq!(args.preload_count, 100);
    assert_eq!(args.filenames, vec![String::from(".")]);
    assert!(args.mark_directory.is_none());
    assert_eq!(args.verbose, 0);
}

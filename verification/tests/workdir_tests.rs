use terminal_core::workdir::{
    cd_command, cd_target, format_current_dir, home_directory, join_path, parse_cd_argument,
    WorkingDirectory,
};

#[test]
fn cd_command_is_recognised() {
    assert!(cd_command("cd"));
    assert!(cd_command("  cd  "));
    assert!(cd_command("cd /tmp"));
    assert!(cd_command("cd\t/tmp"));
    assert!(!cd_command("cdx"));
    assert!(!cd_command("c"));
    assert!(!cd_command(""));
    assert!(!cd_command("ls cd"));
}

#[test]
fn cd_argument_is_what_follows() {
    assert_eq!(parse_cd_argument("cd /tmp"), "/tmp");
    assert_eq!(parse_cd_argument("  cd    a b  "), "a b");
    assert_eq!(parse_cd_argument("cd ~/x"), "~/x");
    assert_eq!(parse_cd_argument("cd .."), "..");
}

#[test]
fn cd_without_argument_goes_home() {
    assert_eq!(parse_cd_argument("cd"), "~");
    assert_eq!(parse_cd_argument("cd   "), "~");
    assert_eq!(parse_cd_argument(""), "~");
}

#[test]
fn join_puts_one_separator_between() {
    assert_eq!(join_path("/home/u", "src"), "/home/u/src");
    assert_eq!(join_path("/home/u/", "src"), "/home/u/src");
    assert_eq!(join_path("/", "usr"), "/usr");
    assert_eq!(join_path("", "usr"), "usr");
    assert_eq!(join_path("/home/u", ""), "/home/u/");
    assert_eq!(join_path("/a", "../b"), "/a/../b");
}

#[test]
fn join_with_absolute_path_replaces() {
    assert_eq!(join_path("/home/u", "/etc"), "/etc");
    assert_eq!(join_path("", "/"), "/");
}

#[test]
fn join_agrees_with_std_paths() {
    for base in ["", "/", "/a", "/a/", "a"] {
        for rel in ["", "b", "/b", "b/c", "..", "."] {
            let expected = std::path::Path::new(base).join(rel);
            assert_eq!(join_path(base, rel), expected.to_string_lossy());
        }
    }
}

#[test]
fn target_of_home_arguments() {
    let t = cd_target("/work", "~", "/home/u");
    assert_eq!(t.path, "/home/u");
    assert!(!t.canonicalize);
    let t = cd_target("/work", "", "/home/u");
    assert_eq!(t.path, "/home/u");
    assert!(!t.canonicalize);
}

#[test]
fn target_of_tilde_arguments() {
    let t = cd_target("/work", "~/src/x", "/home/u");
    assert_eq!(t.path, "/home/u/src/x");
    assert!(!t.canonicalize);
    assert_eq!(cd_target("/work", "~/", "/home/u").path, "/home/u/");
    assert_eq!(cd_target("/work", "~docs", "/home/u").path, "/home/u/docs");
    assert_eq!(cd_target("/work", "~//etc", "/home/u").path, "/etc");
}

#[test]
fn target_of_absolute_arguments_is_verbatim() {
    let t = cd_target("/work", "/usr/../tmp", "/home/u");
    assert_eq!(t.path, "/usr/../tmp");
    assert!(!t.canonicalize);
}

#[test]
fn target_of_relative_arguments_is_joined() {
    let t = cd_target("/work", "..", "/home/u");
    assert_eq!(t.path, "/work/..");
    assert!(t.canonicalize);
    let t = cd_target("/work/", "a/b", "/home/u");
    assert_eq!(t.path, "/work/a/b");
    assert!(t.canonicalize);
}

#[test]
fn candidate_prefers_the_canonical_form() {
    let t = cd_target("/work", "..", "/home/u");
    assert_eq!(t.candidate(Some("/".to_string())), "/");
    assert_eq!(t.candidate(None), "/work/..");
    let t = cd_target("/work", "/usr/../tmp", "/home/u");
    assert_eq!(t.candidate(Some("/tmp".to_string())), "/usr/../tmp");
    assert_eq!(t.candidate(None), "/usr/../tmp");
}

#[test]
fn resolve_moves_to_a_directory() {
    let mut dir = WorkingDirectory::new("/home/u".to_string());
    assert_eq!(dir.path(), "/home/u");
    assert_eq!(dir.resolve_cd("src", "/home/u/src".to_string(), true), Ok(()));
    assert_eq!(dir.path(), "/home/u/src");
}

#[test]
fn cd_to_nonexistent_leaves_the_tracker() {
    let mut dir = WorkingDirectory::new("/home/u".to_string());
    let arg = parse_cd_argument("cd /nonexistent");
    let target = cd_target(dir.path(), &arg, "/home/u");
    let candidate = target.candidate(None);
    assert_eq!(candidate, "/nonexistent");
    let r = dir.resolve_cd(&arg, candidate, false);
    assert_eq!(r, Err("cd: no such directory: /nonexistent".to_string()));
    assert_eq!(dir.path(), "/home/u");
}

#[test]
fn cd_error_holds_the_argument_as_given() {
    let mut dir = WorkingDirectory::new("/".to_string());
    let r = dir.resolve_cd("~/no such dir", "/home/u/no such dir".to_string(), false);
    assert_eq!(r, Err("cd: no such directory: ~/no such dir".to_string()));
    assert_eq!(dir.path(), "/");
}

#[test]
fn home_directory_defaults_to_root() {
    assert_eq!(home_directory(Some("/home/u".to_string())), "/home/u");
    assert_eq!(home_directory(None), "/");
}

#[test]
fn display_abbreviates_home() {
    let home = "/home/u";
    assert_eq!(format_current_dir(home, &Some(home.to_string()), home), "~");
    assert_eq!(format_current_dir("/x", &Some("/home/u/src".to_string()), home), "~/src");
}

#[test]
fn display_keeps_paths_outside_home() {
    let home = "/home/u";
    assert_eq!(format_current_dir("/etc", &Some("/etc".to_string()), home), "/etc");
    assert_eq!(format_current_dir("/home/u2", &Some("/home/u2".to_string()), home), "/home/u2");
    assert_eq!(format_current_dir("/home", &Some("/home".to_string()), home), "/home");
}

#[test]
fn display_falls_back_to_the_raw_path() {
    assert_eq!(format_current_dir("/gone/../x", &None, "/home/u"), "/gone/../x");
    assert_eq!(format_current_dir("/home/u/gone", &None, "/home/u"), "/home/u/gone");
}

#[test]
fn display_with_root_or_empty_home() {
    assert_eq!(format_current_dir("/usr", &Some("/usr".to_string()), "/"), "~usr");
    assert_eq!(format_current_dir("/", &Some("/".to_string()), "/"), "~");
    assert_eq!(format_current_dir("/usr", &Some("/usr".to_string()), ""), "~/usr");
}

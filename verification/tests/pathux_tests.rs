use mcmmtk::config::gui_config_dir_path;
use mcmmtk::config::recollection_file_path;
use mcmmtk::config::resolve_config_dir;
use mcmmtk::pathux::expand_home_dir;
use mcmmtk::pathux::first_subpath_as_string;
use mcmmtk::pathux::split_abs_path;
use mcmmtk::pathux::split_rel_path;

#[test]
fn split_abs_path_works() {
    let parts = split_abs_path("/home/peter/SCR");
    assert_eq!(parts, vec!["home", "peter", "SCR"]);
}

#[test]
fn first_subpath_as_string_works() {
    assert_eq!(Some("first".to_string()), first_subpath_as_string("first/second"));
    assert_ne!(Some("second".to_string()), first_subpath_as_string("first/second"));
    assert_eq!(Some("first".to_string()), first_subpath_as_string("/first/second"));
}

#[test]
fn split_rel_path_works() {
    assert_eq!(split_rel_path("a/b/c"), vec!["a", "b", "c"]);
    assert_eq!(split_rel_path("./a//b/"), vec!["a", "b"]);
    assert!(split_rel_path("").is_empty());
    assert!(first_subpath_as_string("").is_none());
}

#[test]
fn expand_home_dir_works() {
    assert_eq!(expand_home_dir("~", "/home/peter"), "/home/peter");
    assert_eq!(expand_home_dir("~/SRC/GITHUB", "/home/peter"), "/home/peter/SRC/GITHUB");
}

#[test]
fn resolve_config_dir_cases() {
    assert_eq!(resolve_config_dir(None, "/home/peter"), "/home/peter/.config/mcmmtk_gtk");
    assert_eq!(resolve_config_dir(Some(""), "/home/peter"), "/home/peter/.config/mcmmtk_gtk");
    assert_eq!(resolve_config_dir(Some("~/cfg"), "/home/peter"), "/home/peter/cfg");
    assert_eq!(resolve_config_dir(Some("~"), "/home/peter"), "/home/peter");
    assert_eq!(resolve_config_dir(Some("/etc/mcmmtk"), "/home/peter"), "/etc/mcmmtk");
}

#[test]
fn config_paths_compose() {
    assert_eq!(gui_config_dir_path("/home/peter/.config/mcmmtk_gtk"), "/home/peter/.config/mcmmtk_gtk/gui");
    assert_eq!(
        recollection_file_path("/home/peter/.config/mcmmtk_gtk"),
        "/home/peter/.config/mcmmtk_gtk/gui/recollections"
    );
    assert_eq!(gui_config_dir_path("base/"), "base/gui");
}

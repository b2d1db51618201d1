use mdview::commands::get_launch_paths;
use mdview::commands::initial_path;
use mdview::commands::open_externally;

#[test]
fn no_arguments_at_all_gives_no_launch_paths() {
    let args: Vec<String> = Vec::new();
    assert!(get_launch_paths(&args).is_empty());
}

#[test]
fn program_name_alone_gives_no_launch_paths() {
    let args = vec!["mdview".to_string()];
    assert!(get_launch_paths(&args).is_empty());
}

#[test]
fn single_argument_is_the_single_launch_path() {
    let args = vec!["mdview".to_string(), "/tmp/doc.md".to_string()];
    assert_eq!(get_launch_paths(&args), vec!["/tmp/doc.md".to_string()]);
}

#[test]
fn launch_paths_keep_their_order() {
    let args = vec![
        "mdview".to_string(),
        "/tmp/a.md".to_string(),
        "/tmp/b.md".to_string(),
        "/tmp/c.md".to_string(),
    ];
    assert_eq!(
        get_launch_paths(&args),
        vec!["/tmp/a.md".to_string(), "/tmp/b.md".to_string(), "/tmp/c.md".to_string()]
    );
}

#[test]
fn initial_path_is_the_first_launch_path() {
    let none: Vec<String> = Vec::new();
    assert!(initial_path(&none).is_none());
    let paths = vec!["/tmp/doc.md".to_string(), "/tmp/other.md".to_string()];
    assert_eq!(initial_path(&paths), Some(&"/tmp/doc.md".to_string()));
}

#[test]
fn open_externally_is_a_no_op_success_without_a_spawn() {
    assert_eq!(open_externally(None), Ok(()));
}

#[test]
fn open_externally_reports_the_spawn_outcome() {
    assert_eq!(open_externally(Some(Ok(()))), Ok(()));
    let failed = Some(Err("program not found".to_string()));
    assert_eq!(open_externally(failed), Err("program not found".to_string()));
}

use custom_cursor_overlay::args::target_from_args;

fn args(list: &[&str]) -> Vec<String> {
    list.iter().map(|s| s.to_string()).collect()
}

#[test]
fn title_follows_the_flag() {
    assert_eq!(target_from_args(&args(&["overlay", "--window", "My App"])), Some("My App".into()));
    assert_eq!(target_from_args(&args(&["--window", "a", "--window", "b"])), Some("a".into()));
    assert_eq!(target_from_args(&args(&["x", "--window", "--window"])), Some("--window".into()));
}

#[test]
fn flag_without_title_is_no_target() {
    assert_eq!(target_from_args(&args(&["overlay", "--window"])), None);
    assert_eq!(target_from_args(&args(&["overlay", "window", "x"])), None);
    assert_eq!(target_from_args(&args(&[])), None);
}

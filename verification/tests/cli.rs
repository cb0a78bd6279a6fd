use gamels::cli::Args;

#[test]
fn the_named_directory_is_listed() {
    let args = Args { dir: Some("/srv/steam/steamapps".to_string()), invalidate_cache: false };
    assert_eq!(args.search_dir(), "/srv/steam/steamapps");
}

#[test]
fn the_current_directory_is_listed_by_default() {
    let args = Args { dir: None, invalidate_cache: true };
    assert_eq!(args.search_dir(), ".");
    assert!(args.invalidate_cache);
}

#[test]
fn an_empty_name_is_kept_as_it_is() {
    let args = Args { dir: Some(String::new()), invalidate_cache: false };
    assert_eq!(args.search_dir(), "");
}

use mod_lifecycle::unique::unique_file_path;

fn taken<'a>(paths: &'a [&'a str]) -> impl Fn(&str) -> bool + 'a {
    move |p: &str| paths.contains(&p)
}

#[test]
fn free_path_is_kept() {
    assert_eq!(unique_file_path("dir/a.txt", taken(&[])), "dir/a.txt");
}

#[test]
fn taken_path_gets_first_number() {
    assert_eq!(unique_file_path("dir/a.txt", taken(&["dir/a.txt"])), "dir/a (1).txt");
}

#[test]
fn two_taken_give_second_number() {
    let r = unique_file_path("dir/a.txt", taken(&["dir/a.txt", "dir/a (1).txt"]));
    assert_eq!(r, "dir/a (2).txt");
}

#[test]
fn taken_path_result_is_free_and_different() {
    let used = ["m/x.jar", "m/x (1).jar", "m/x (2).jar", "m/x (4).jar"];
    let r = unique_file_path("m/x.jar", taken(&used));
    assert_ne!(r, "m/x.jar");
    assert!(!used.contains(&r.as_str()));
    assert_eq!(r, "m/x (3).jar");
}

#[test]
fn name_without_extension() {
    assert_eq!(unique_file_path("dir/readme", taken(&["dir/readme"])), "dir/readme (1)");
}

#[test]
fn leading_dot_is_no_extension() {
    assert_eq!(unique_file_path(".hidden", taken(&[".hidden"])), ".hidden (1)");
}

#[test]
fn last_dot_splits_extension() {
    assert_eq!(unique_file_path("a.tar.gz", taken(&["a.tar.gz"])), "a.tar (1).gz");
}

#[test]
fn trailing_dot_keeps_empty_extension() {
    assert_eq!(unique_file_path("foo.", taken(&["foo."])), "foo (1).");
}

#[test]
fn two_and_three_digit_numbers() {
    let mut used: Vec<String> = vec!["a.txt".to_string()];
    for n in 1..100 {
        used.push(format!("a ({n}).txt"));
    }
    let refs: Vec<&str> = used.iter().map(|s| s.as_str()).collect();
    assert_eq!(unique_file_path("a.txt", taken(&refs)), "a (100).txt");
    let refs10: Vec<&str> = refs[..10].to_vec();
    assert_eq!(unique_file_path("a.txt", taken(&refs10)), "a (10).txt");
}

#[test]
fn all_numbers_taken_gives_target_back() {
    assert_eq!(unique_file_path("d/a.txt", |_p: &str| true), "d/a.txt");
}

#[test]
fn empty_file_name_uses_file() {
    assert_eq!(unique_file_path("/", taken(&["/"])), "/file (1)");
}

#[test]
fn backslash_separates_directories() {
    let r = unique_file_path("C:\\my.mods\\readme", taken(&["C:\\my.mods\\readme"]));
    assert_eq!(r, "C:\\my.mods\\readme (1)");
}

#[test]
fn trailing_separator_numbers_the_last_component() {
    assert_eq!(unique_file_path("dir/sub/", taken(&["dir/sub/"])), "dir/sub (1)");
}

use imgzap::{
    backup_path, eq_ignore_ascii_case, extension, file_name, is_candidate, join, kind_of_extension,
    kind_of_path, plan, walk_depth, ImageKind, RunConfig,
};

fn p(s: &str) -> Vec<char> {
    s.chars().collect()
}

fn config(output: Option<&str>, backup: bool, dry_run: bool) -> RunConfig {
    RunConfig {
        input: p("in"),
        output: output.map(p),
        recursive: true,
        dry_run,
        optimize: false,
        backup,
    }
}

#[test]
fn file_name_is_last_component() {
    assert_eq!(file_name(&p("a/b/photo.png")), p("photo.png"));
    assert_eq!(file_name(&p("photo.png")), p("photo.png"));
    assert_eq!(file_name(&p("/photo.png")), p("photo.png"));
}

#[test]
fn extension_follows_last_dot_of_name() {
    assert_eq!(extension(&p("dir/photo.tar.png")), Some(p("png")));
    assert_eq!(extension(&p("dir.d/photo")), None);
    assert_eq!(extension(&p("dir/.hidden")), None);
    assert_eq!(extension(&p("dir/..")), None);
    assert_eq!(extension(&p("dir/name.")), Some(p("")));
    assert_eq!(extension(&p("")), None);
}

#[test]
fn join_inserts_one_separator() {
    assert_eq!(join(&p("out"), &p("a.png")), p("out/a.png"));
    assert_eq!(join(&p("out/"), &p("a.png")), p("out/a.png"));
    assert_eq!(join(&p(""), &p("a.png")), p("a.png"));
    assert_eq!(join(&p("out"), &p("/abs/a.png")), p("/abs/a.png"));
}

#[test]
fn backup_path_inserts_bak_before_extension() {
    assert_eq!(backup_path(&p("dir/photo.png")), Some(p("dir/photo.bak.png")));
    assert_eq!(backup_path(&p("img.jpg")), Some(p("img.bak.jpg")));
    assert_eq!(backup_path(&p("a.b/c.d.jpeg")), Some(p("a.b/c.d.bak.jpeg")));
    assert_eq!(backup_path(&p("dir/noext")), None);
    assert_eq!(backup_path(&p("dir/.png")), None);
}

#[test]
fn case_insensitive_compare() {
    assert!(eq_ignore_ascii_case(&p("JpEg"), &p("jpeg")));
    assert!(!eq_ignore_ascii_case(&p("jpg"), &p("jpeg")));
    assert!(!eq_ignore_ascii_case(&p("png"), &p("pnh")));
}

#[test]
fn extensions_name_formats_in_any_case() {
    assert_eq!(kind_of_extension(&p("png")), Some(ImageKind::Png));
    assert_eq!(kind_of_extension(&p("PNG")), Some(ImageKind::Png));
    assert_eq!(kind_of_extension(&p("jpg")), Some(ImageKind::Jpeg));
    assert_eq!(kind_of_extension(&p("Jpeg")), Some(ImageKind::Jpeg));
    assert_eq!(kind_of_extension(&p("gif")), None);
    assert_eq!(kind_of_path(&p("x/y.JPEG")), Some(ImageKind::Jpeg));
    assert_eq!(kind_of_path(&p("x/png")), None);
}

#[test]
fn candidates_are_image_files_only() {
    assert!(is_candidate(&p("d/a.png"), true));
    assert!(!is_candidate(&p("d/a.png"), false));
    assert!(!is_candidate(&p("d/b.txt"), true));
    assert!(!is_candidate(&p("d/png"), true));
}

#[test]
fn walk_depth_follows_recursion_flag() {
    assert_eq!(walk_depth(true), usize::MAX);
    assert_eq!(walk_depth(false), 1);
}

// Extensions match whatever the case of their letters, so `c.JPG` is a
// candidate along with `a.png`, and `b.txt` never is.
#[test]
fn scenario_flat_directory_in_place() {
    let cfg = RunConfig { recursive: false, ..config(None, false, false) };
    assert!(is_candidate(&p("in/a.png"), true));
    assert!(!is_candidate(&p("in/b.txt"), true));
    assert!(is_candidate(&p("in/c.JPG"), true));
    let a = plan(&p("in/a.png"), &cfg);
    assert_eq!(a.destination, p("in/a.png"));
    assert!(a.in_place);
    assert_eq!(a.backup, None);
    let c = plan(&p("in/c.JPG"), &cfg);
    assert_eq!(c.destination, p("in/c.JPG"));
}

#[test]
fn scenario_output_directory_flattens() {
    let cfg = config(Some("out"), true, false);
    let one = plan(&p("in/x/photo.png"), &cfg);
    let two = plan(&p("in/y/photo.png"), &cfg);
    assert_eq!(one.destination, p("out/photo.png"));
    assert_eq!(two.destination, p("out/photo.png"));
    assert!(!one.in_place);
    // backups are only made for in-place runs
    assert_eq!(one.backup, None);
}

#[test]
fn in_place_backup_plan() {
    let cfg = config(None, true, false);
    let pl = plan(&p("in/img.jpg"), &cfg);
    assert_eq!(pl.destination, p("in/img.jpg"));
    assert_eq!(pl.backup, Some(p("in/img.bak.jpg")));
}

#[test]
fn dry_run_plans_like_real_run() {
    for src in ["in/a.png", "in/sub/b.jpeg", "in/c.JPG"] {
        for output in [None, Some("out")] {
            for backup in [false, true] {
                let wet = plan(&p(src), &config(output, backup, false));
                let dry = plan(&p(src), &config(output, backup, true));
                assert_eq!(wet.destination, dry.destination);
                assert_eq!(wet.backup, dry.backup);
                assert_eq!(wet.in_place, dry.in_place);
            }
        }
    }
}

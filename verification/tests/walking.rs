use texconv::walk::{is_texture_name, output_name, output_path, Entry, Walk};

fn entry(path: &str, name: &str, is_dir: bool) -> Entry {
    Entry { path: path.to_string(), name: name.to_string(), is_dir }
}

#[test]
fn texture_names_end_in_tex() {
    assert!(is_texture_name("a.tex"));
    assert!(is_texture_name(".tex"));
    assert!(is_texture_name("wall.png.tex"));
    assert!(is_texture_name("\u{6750}\u{8d28}.tex"));
    assert!(!is_texture_name("a.png"));
    assert!(!is_texture_name("a.tex.png"));
    assert!(!is_texture_name("a.TEX"));
    assert!(!is_texture_name("tex"));
    assert!(!is_texture_name("a.te"));
    assert!(!is_texture_name(""));
}

#[test]
fn output_name_replaces_the_suffix() {
    assert_eq!(output_name("wall.tex"), "wall.png");
    assert_eq!(output_name(".tex"), ".png");
    assert_eq!(output_name("a.tex.tex"), "a.tex.png");
    assert_eq!(output_name("\u{6750}\u{8d28}.tex"), "\u{6750}\u{8d28}.png");
    assert_eq!(output_name("notes.txt"), "notes.txt");
    assert_eq!(output_name(""), "");
}

#[test]
fn output_path_joins_directory_and_name() {
    assert_eq!(output_path("output", "wall.tex"), "output/wall.png");
    assert_eq!(output_path("a/b", "c.tex"), "a/b/c.png");
}

#[test]
fn a_walk_starts_at_its_root() {
    let mut walk = Walk::new("root".to_string());
    assert_eq!(walk.pending, vec!["root".to_string()]);
    assert_eq!(walk.next_dir(), Some("root".to_string()));
    assert_eq!(walk.next_dir(), None);
    assert!(walk.pending.is_empty());
}

#[test]
fn visit_sorts_a_listing() {
    let mut walk = Walk::new("root".to_string());
    let listing = vec![
        entry("root/a.tex", "a.tex", false),
        entry("root/sub", "sub", true),
        entry("root/readme.txt", "readme.txt", false),
        entry("root/dir.tex", "dir.tex", true),
        entry("root/b.tex", "b.tex", false),
    ];
    let files = walk.visit(&listing);
    assert_eq!(files, vec!["root/a.tex".to_string(), "root/b.tex".to_string()]);
    assert_eq!(
        walk.pending,
        vec!["root".to_string(), "root/sub".to_string(), "root/dir.tex".to_string()]
    );
}

#[test]
fn the_walk_is_depth_first() {
    let mut walk = Walk::new("r".to_string());
    assert_eq!(walk.next_dir(), Some("r".to_string()));
    walk.visit(&vec![entry("r/x", "x", true), entry("r/y", "y", true)]);
    assert_eq!(walk.next_dir(), Some("r/y".to_string()));
    walk.visit(&vec![entry("r/y/z", "z", true)]);
    assert_eq!(walk.next_dir(), Some("r/y/z".to_string()));
    walk.visit(&vec![]);
    assert_eq!(walk.next_dir(), Some("r/x".to_string()));
    walk.visit(&vec![]);
    assert_eq!(walk.next_dir(), None);
}

#[test]
fn nested_textures_are_found() {
    // r/one.tex, r/skip.png, r/a/two.tex, r/a/b/c/three.tex, r/a/b/c/notes.txt
    fn listing(dir: &str) -> Vec<Entry> {
        match dir {
            "r" => vec![
                entry("r/one.tex", "one.tex", false),
                entry("r/skip.png", "skip.png", false),
                entry("r/a", "a", true),
            ],
            "r/a" => vec![entry("r/a/b", "b", true), entry("r/a/two.tex", "two.tex", false)],
            "r/a/b" => vec![entry("r/a/b/c", "c", true)],
            "r/a/b/c" => vec![
                entry("r/a/b/c/three.tex", "three.tex", false),
                entry("r/a/b/c/notes.txt", "notes.txt", false),
            ],
            other => panic!("{}", other),
        }
    }
    let mut walk = Walk::new("r".to_string());
    let mut found = Vec::new();
    while let Some(dir) = walk.next_dir() {
        found.extend(walk.visit(&listing(&dir)));
    }
    assert_eq!(
        found,
        vec!["r/one.tex".to_string(), "r/a/two.tex".to_string(), "r/a/b/c/three.tex".to_string()]
    );
}

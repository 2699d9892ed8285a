use std::path::Path;
use twedia::paths::{edited, edited_file_name, modify_path};

#[test]
fn edited_keeps_folder_and_extension() {
    assert_eq!(edited(String::from("/a/b/video.mp4")), "/a/b/video_edited.mp4");
    assert_eq!(edited(String::from("clip.tar.gz")), "clip.tar_edited.gz");
    assert_eq!(edited(String::from("/a/b/noext")), "/a/b/noext_edited.mkv");
    assert_eq!(edited(String::from("/a/.hidden")), "/a/.hidden_edited.mkv");
    assert_eq!(edited(String::from("dir/name.")), "dir/name_edited.");
}

#[test]
fn edited_without_file_name_uses_defaults() {
    assert_eq!(edited(String::from("")), "media_edited.mkv");
    assert_eq!(edited(String::from("/a/..")), "/a/../media_edited.mkv");
}

#[test]
fn modify_path_matches_edited() {
    for p in ["/x/y.webm", "z", "/", "a/b/c.d.e", ""] {
        assert_eq!(modify_path(String::from(p)), edited(String::from(p)));
    }
}

#[test]
fn edited_file_names() {
    assert_eq!(edited_file_name(None, None), "media_edited.mkv");
    assert_eq!(edited_file_name(Some(String::from("a")), None), "a_edited.mkv");
    assert_eq!(edited_file_name(None, Some(String::from("mp4"))), "media_edited.mp4");
    assert_eq!(edited_file_name(Some(String::from("x")), Some(String::new())), "x_edited.");
}

#[test]
fn edited_path_is_a_sibling_with_the_extension_kept() {
    for p in ["/videos/clip.mp4", "a/b.c/d.tar.gz", "x", "/r/.cfg", "rel/name."] {
        let r = edited(String::from(p));
        let (old, new) = (Path::new(p), Path::new(&r));
        assert_eq!(old.parent(), new.parent());
        let ext = old.extension().map(|e| e.to_str().unwrap()).unwrap_or("mkv");
        assert_eq!(new.extension().unwrap(), ext);
        let stem = format!("{}_edited", old.file_stem().unwrap().to_str().unwrap());
        assert_eq!(new.file_stem().unwrap().to_str().unwrap(), stem);
    }
    assert_eq!(edited(String::from("/videos/clip.mp4")), "/videos/clip_edited.mp4");
}

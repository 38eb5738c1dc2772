use solipath::path_buf_ext::PathBufExt;
use solipath::solipath_directory::cache_path::CachePath;
use std::path::PathBuf;
use std::str::FromStr;

fn to_path_buf(path: &CachePath) -> PathBuf {
    let mut path_buf = PathBuf::from(path.get_root());
    for piece in path.get_pieces() {
        path_buf.push(piece);
    }
    path_buf
}

#[test]
fn can_clone_and_push_directory() {
    let original_path = CachePath::new(".");
    assert_eq!(
        PathBuf::from_str("./next_dir").unwrap(),
        to_path_buf(&original_path.clone_push("next_dir"))
    );
    assert_eq!(PathBuf::from_str(".").unwrap(), to_path_buf(&original_path));
}

#[test]
fn push_keeps_the_pieces_in_order() {
    let mut path = CachePath::new("/home/user");
    path.push("solipath");
    path.push("node");
    assert_eq!(path.get_root(), "/home/user");
    assert_eq!(path.get_pieces(), &vec!["solipath".to_string(), "node".to_string()]);
}

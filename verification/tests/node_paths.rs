//! The directory node: path construction, unsupported operations, error
//! mapping, and the mount decision.

use uhyve_fs::errno::{error_from_host_code, IoError};
use uhyve_fs::mount::init;
use uhyve_fs::node::{NodeKind, UhyveDirectory};

#[test]
fn open_path_joins_components_with_slashes() {
    let node = UhyveDirectory::new();
    assert_eq!(node.traverse_open_request(&vec!["a", "b"]), "/a/b");
    assert_eq!(node.traverse_open_request(&vec!["tmp", "x"]), "/tmp/x");
    assert_eq!(node.traverse_open_request(&vec!["missing"]), "/missing");
}

#[test]
fn open_path_of_no_components_is_the_root() {
    let node = UhyveDirectory::new();
    assert_eq!(node.traverse_open_request(&vec![]), "/\0");
}

#[test]
fn unlink_path_joins_components_with_slashes() {
    let node = UhyveDirectory::new();
    assert_eq!(node.traverse_unlink_request(&vec!["a"]), "/a");
    assert_eq!(node.traverse_unlink_request(&vec!["a", "b", "c"]), "/a/b/c");
}

#[test]
fn unlink_path_of_no_components_is_the_root() {
    let node = UhyveDirectory::new();
    assert_eq!(node.traverse_unlink_request(&vec![]), "/");
}

#[test]
fn node_presents_itself_as_a_directory() {
    let node = UhyveDirectory::new();
    assert_eq!(node.get_kind(), NodeKind::Directory);
}

#[test]
fn unsupported_operations_fail_with_not_implemented_for_any_input() {
    let node = UhyveDirectory::new();
    let inputs: Vec<Vec<&str>> = vec![vec![], vec!["a"], vec!["a", "b"]];
    for components in &inputs {
        assert!(matches!(
            node.traverse_opendir(components),
            Err(IoError::Enosys)
        ));
        assert!(matches!(
            node.traverse_stat(components),
            Err(IoError::Enosys)
        ));
        assert!(matches!(
            node.traverse_lstat(components),
            Err(IoError::Enosys)
        ));
        assert!(matches!(
            node.traverse_rmdir(components),
            Err(IoError::Enosys)
        ));
        assert!(matches!(
            node.traverse_mkdir(components, 0),
            Err(IoError::Enosys)
        ));
        assert!(matches!(
            node.traverse_mkdir(components, 0o755),
            Err(IoError::Enosys)
        ));
    }
}

#[test]
fn host_codes_map_to_their_error_kinds() {
    assert_eq!(error_from_host_code(-1), IoError::Eperm);
    assert_eq!(error_from_host_code(-2), IoError::Enoent);
    assert_eq!(error_from_host_code(-5), IoError::Eio);
    assert_eq!(error_from_host_code(-9), IoError::Ebadf);
    assert_eq!(error_from_host_code(-13), IoError::Eacces);
    assert_eq!(error_from_host_code(-17), IoError::Eexist);
    assert_eq!(error_from_host_code(-20), IoError::Enotdir);
    assert_eq!(error_from_host_code(-21), IoError::Eisdir);
    assert_eq!(error_from_host_code(-22), IoError::Einval);
    assert_eq!(error_from_host_code(-24), IoError::Emfile);
    assert_eq!(error_from_host_code(-38), IoError::Enosys);
}

#[test]
fn unmapped_host_codes_surface_loudly_not_silently() {
    assert_eq!(error_from_host_code(-999), IoError::Unrecognized(-999));
    assert_eq!(error_from_host_code(-77), IoError::Unrecognized(-77));
}

#[test]
fn init_mounts_at_the_fixed_point_only_under_the_hypervisor() {
    let mounted = init(true);
    assert!(mounted.is_some());
    let (mount_point, _node) = mounted.unwrap();
    assert_eq!(mount_point, "/host");
    assert!(init(false).is_none());
}

use ferrex::error::PathError;
use ferrex::locator::{data_folder_name, find_mono, get_data_path, init, is_unity, locate_backend, marker_file, mono_candidate, HostLayout, Root, MARKER_COUNT, MONO_CANDIDATE_COUNT};
use ferrex::symbols::Backend;

#[test]
fn no_marker_files_is_unsupported_and_gets_no_gate() {
    let layout = HostLayout { data_folder_exists: true, markers: vec![false, false, false] };
    assert!(!is_unity(&layout));
    assert!(init(&layout).is_none());
}

#[test]
fn any_marker_file_is_supported() {
    for i in 0..MARKER_COUNT {
        let mut markers = vec![false; MARKER_COUNT];
        markers[i] = true;
        let layout = HostLayout { data_folder_exists: true, markers };
        assert!(is_unity(&layout));
        assert!(init(&layout).is_some());
    }
    let layout = HostLayout { data_folder_exists: false, markers: vec![true, true, true] };
    assert!(!is_unity(&layout));
}

#[test]
fn marker_names() {
    assert_eq!(marker_file(0), "globalgamemanagers");
    assert_eq!(marker_file(1), "data.unity3d");
    assert_eq!(marker_file(2), "mainData");
}

#[test]
fn data_folder() {
    assert_eq!(data_folder_name("Game"), "Game_Data");
    assert_eq!(get_data_path(Some("Game"), true), Ok("Game_Data".to_string()));
    assert_eq!(get_data_path(Some("Game"), false), Err(PathError::DataPathNotFound));
    assert_eq!(get_data_path(None, true), Err(PathError::DataPathNotFound));
}

#[test]
fn candidate_order() {
    let c = mono_candidate(0);
    assert_eq!(c.root, Root::Base);
    assert_eq!(c.folder, "MonoBleedingEdge");
    assert_eq!(c.subdir, None);
    assert_eq!(c.stem, "libmono");
    assert_eq!(c.file_name("so"), "libmono.so");
    let c = mono_candidate(1);
    assert_eq!(c.subdir, Some("EmbedRuntime"));
    let c = mono_candidate(3);
    assert_eq!(c.root, Root::Data);
    assert_eq!(c.subdir, Some("x86_64"));
    let c = mono_candidate(12);
    assert_eq!(c.stem, "mono-2.0-bdwgc");
    assert_eq!(c.root, Root::Data);
    assert_eq!(c.subdir, None);
    assert_eq!(c.file_name("dll"), "mono-2.0-bdwgc.dll");
    let c = mono_candidate(MONO_CANDIDATE_COUNT - 1);
    assert_eq!(c.folder, "MonoBleedingEdge.x86");
    assert_eq!(c.stem, "libmonobdwgc-2.0");
    assert_eq!(c.file_name("so"), "libmonobdwgc-2.0.so");
}

#[test]
fn first_existing_candidate_wins() {
    let mut present = vec![false; MONO_CANDIDATE_COUNT];
    assert_eq!(find_mono(&present), Err(PathError::MonoNotFound));
    present[40] = true;
    present[70] = true;
    assert_eq!(find_mono(&present), Ok(40));
}

#[test]
fn backend_choice() {
    let mut present = vec![false; MONO_CANDIDATE_COUNT];
    assert_eq!(locate_backend(&present, false), Err(PathError::BackendNotFound));
    assert_eq!(locate_backend(&present, true), Ok((Backend::Il2Cpp, None)));
    present[35] = true;
    assert_eq!(locate_backend(&present, true), Ok((Backend::Mono { is_old: true }, Some(35))));
    present[10] = true;
    assert_eq!(locate_backend(&present, true), Ok((Backend::Mono { is_old: false }, Some(10))));
}

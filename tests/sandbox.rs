use ferrex::sandbox::{is_mod_binary, ModOutcome, ModSandbox};

fn names(list: &[&str]) -> Vec<String> {
    list.iter().map(|s| s.to_string()).collect()
}

#[test]
fn empty_folder_loads_nothing() {
    let s = ModSandbox::new(&Vec::new(), "wasm");
    assert!(s.is_finished());
    assert_eq!(s.next_mod(), None);
    assert!(s.loaded().is_empty());
}

#[test]
fn unrecognised_files_are_skipped_silently() {
    let s = ModSandbox::new(&names(&["readme.txt", "notes.wasm.bak", "wasm"]), "wasm");
    assert!(s.is_finished());
}

#[test]
fn corrupt_mod_does_not_block_valid_one() {
    let listing = names(&["corrupt.wasm", "readme.md", "good.wasm"]);
    let mut s = ModSandbox::new(&listing, "wasm");
    assert_eq!(s.next_mod(), Some(0));
    s.record(ModOutcome::InstantiationFailed);
    assert_eq!(s.next_mod(), Some(2));
    s.record(ModOutcome::Loaded);
    assert!(s.is_finished());
    assert_eq!(s.loaded(), vec![2]);
}

#[test]
fn discovery_order_is_kept() {
    let listing = names(&["b.wasm", "a.wasm", "c.wasm"]);
    let mut s = ModSandbox::new(&listing, "wasm");
    let mut order = Vec::new();
    while let Some(i) = s.next_mod() {
        order.push(i);
        s.record(if i == 1 { ModOutcome::MissingInit } else { ModOutcome::Loaded });
    }
    assert_eq!(order, vec![0, 1, 2]);
    assert_eq!(s.loaded(), vec![0, 2]);
}

#[test]
fn extension_match() {
    assert!(is_mod_binary("mod.wasm", "wasm"));
    assert!(!is_mod_binary("modwasm", "wasm"));
    assert!(!is_mod_binary("mod.wasm.txt", "wasm"));
    assert!(is_mod_binary(".wasm", "wasm"));
}

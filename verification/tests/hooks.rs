use hudhook::hooks::{hook_requests, install, trampoline_table, uninstall, HookRecord};

#[test]
fn install_records_every_hook_with_its_trampoline() {
    let requests = hook_requests(0xA0, 0xB0, 0xC0, 0xA1, 0xB1, 0xC1);
    assert_eq!(requests.len(), 3);
    let engine = vec![Some(0xA2), Some(0xB2), Some(0xC2)];
    let records = install(&requests, &engine).expect("all hooks created");
    assert_eq!(records.len(), 3);
    assert_eq!(
        records[0],
        HookRecord { target: 0xA0, detour: 0xA1, trampoline: 0xA2, installed: true }
    );
    assert_eq!(
        records[2],
        HookRecord { target: 0xC0, detour: 0xC1, trampoline: 0xC2, installed: true }
    );
    let table = trampoline_table(&records);
    assert_eq!(table.present, 0xA2);
    assert_eq!(table.execute, 0xB2);
    assert_eq!(table.resize, 0xC2);
}

#[test]
fn one_failed_hook_aborts_the_whole_set() {
    let requests = hook_requests(0xA0, 0xB0, 0xC0, 0xA1, 0xB1, 0xC1);
    let engine = vec![Some(0xA2), None, Some(0xC2)];
    let err = install(&requests, &engine).expect_err("a failed hook is fatal for the set");
    assert_eq!(err.index, 1);
    assert_eq!(err.target, 0xB0);
}

#[test]
fn uninstall_is_idempotent() {
    let requests = hook_requests(1, 2, 3, 4, 5, 6);
    let engine = vec![Some(7), Some(8), Some(9)];
    let mut records = install(&requests, &engine).unwrap();
    uninstall(&mut records);
    assert!(records.iter().all(|h| !h.installed));
    assert_eq!(records[1].target, 2);
    assert_eq!(records[1].trampoline, 8);
    let once = records.clone();
    uninstall(&mut records);
    assert_eq!(records, once);
}

use proc_supervisor::registry::{ProcessRegistry, TrackedProcess};
use std::sync::Arc;

#[test]
fn empty_registry() {
    let reg = ProcessRegistry::new();
    assert_eq!(reg.len(), 0);
    assert!(reg.is_empty());
    assert_eq!(reg.snapshot().len(), 0);
}

#[test]
fn appends_keep_spawn_order() {
    let mut reg = ProcessRegistry::new();
    reg.append(TrackedProcess::new(11, "first".to_string()));
    reg.append(TrackedProcess::new(22, "second".to_string()));
    reg.append(TrackedProcess::new(33, "third".to_string()));
    assert_eq!(reg.len(), 3);
    assert!(!reg.is_empty());
    let snap = reg.snapshot();
    assert_eq!(snap.len(), 3);
    assert_eq!(snap[0].id, 11);
    assert_eq!(snap[0].name, "first");
    assert_eq!(snap[1].id, 22);
    assert_eq!(snap[1].name, "second");
    assert_eq!(snap[2].id, 33);
    assert_eq!(snap[2].name, "third");
}

#[test]
fn snapshot_is_a_copy() {
    let mut reg = ProcessRegistry::new();
    reg.append(TrackedProcess::new(1, "one".to_string()));
    let snap = reg.snapshot();
    reg.append(TrackedProcess::new(2, "two".to_string()));
    assert_eq!(snap.len(), 1);
    assert_eq!(reg.len(), 2);
}

#[test]
fn duplicate_names_and_ids_are_kept() {
    let mut reg = ProcessRegistry::new();
    reg.append(TrackedProcess::new(5, "same".to_string()));
    reg.append(TrackedProcess::new(5, "same".to_string()));
    let snap = reg.snapshot();
    assert_eq!(snap.len(), 2);
    assert_eq!(snap[0].id, 5);
    assert_eq!(snap[1].id, 5);
}

#[test]
fn concurrent_appends_drop_no_record() {
    let runtime = tokio::runtime::Builder::new_multi_thread()
        .worker_threads(4)
        .enable_all()
        .build()
        .unwrap();
    runtime.block_on(async {
        let registry = Arc::new(tokio::sync::Mutex::new(ProcessRegistry::new()));
        let mut handles = Vec::new();
        for k in 0..32u32 {
            let shared = Arc::clone(&registry);
            handles.push(tokio::spawn(async move {
                let record = TrackedProcess::new(k, format!("task{}", k));
                shared.lock().await.append(record);
            }));
        }
        for handle in handles {
            handle.await.unwrap();
        }
        let locked = registry.lock().await;
        assert_eq!(locked.len(), 32);
        let snap = locked.snapshot();
        let mut seen = vec![false; 32];
        for record in &snap {
            assert!(!seen[record.id as usize], "record appended twice");
            seen[record.id as usize] = true;
            assert_eq!(record.name, format!("task{}", record.id));
        }
        assert!(seen.iter().all(|s| *s), "a concurrent append was dropped");
    });
}

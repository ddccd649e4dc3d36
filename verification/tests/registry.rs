use workflow_registry::registry::{Registry, RegistryError};
use workflow_registry::workflow::{Status, PROGRESS_SCALE};

#[test]
fn create_returns_created_workflow() {
    let mut reg = Registry::new();
    let w = reg.create_workflow("Demo".to_owned()).expect("fresh id");
    assert_eq!(w.id.len(), 36);
    assert!(!w.id.is_empty());
    assert_eq!(w.name, "Demo");
    assert_eq!(w.status, Status::Created);
    assert_eq!(w.status.label(), "created");
    assert_eq!(w.progress, 0);
    assert!(w.steps.is_empty());
    assert_eq!(reg.len(), 1);
}

#[test]
fn get_after_create_returns_same_record() {
    let mut reg = Registry::new();
    let w = reg.create_workflow("Demo".to_owned()).expect("fresh id");
    let got = reg.get_workflow_status(&w.id).expect("just created");
    assert_eq!(got.id, w.id);
    assert_eq!(got.name, w.name);
    assert_eq!(got.status, w.status);
    assert_eq!(got.progress, w.progress);
    assert_eq!(got.steps, w.steps);
}

#[test]
fn get_never_inserted_returns_absence() {
    let mut reg = Registry::new();
    assert!(reg.get_workflow_status(&"missing".to_owned()).is_none());
    reg.create_workflow("One".to_owned()).expect("fresh id");
    assert!(reg.get_workflow_status(&"still-missing".to_owned()).is_none());
}

#[test]
fn many_creates_keep_every_insertion_and_distinct_ids() {
    let mut reg = Registry::new();
    let mut ids: Vec<String> = Vec::new();
    for i in 0..50 {
        let w = reg.create_workflow(format!("wf-{}", i)).expect("fresh id");
        ids.push(w.id);
    }
    assert_eq!(reg.len(), 50);
    for a in 0..ids.len() {
        for b in 0..a {
            assert_ne!(ids[a], ids[b]);
        }
    }
    for (i, id) in ids.iter().enumerate() {
        let got = reg.get_workflow_status(id).expect("was inserted");
        assert_eq!(got.name, format!("wf-{}", i));
    }
}

#[test]
fn register_duplicate_id_is_refused() {
    let mut reg = Registry::new();
    let first = reg
        .register_workflow("wf-fixed".to_owned(), "First".to_owned())
        .expect("id is free");
    assert_eq!(first.id, "wf-fixed");
    let second = reg.register_workflow("wf-fixed".to_owned(), "Second".to_owned());
    assert_eq!(second.unwrap_err(), RegistryError::DuplicateId);
    assert_eq!(reg.len(), 1);
    let got = reg.get_workflow_status(&"wf-fixed".to_owned()).expect("kept");
    assert_eq!(got.name, "First");
}

#[test]
fn duplicate_id_error_message() {
    let err = RegistryError::DuplicateId;
    assert_eq!(err.message(), "workflow id is already taken");
}

#[test]
fn update_progress_touches_only_the_target() {
    let mut reg = Registry::new();
    reg.register_workflow("wf-a".to_owned(), "A".to_owned())
        .expect("id is free");
    reg.register_workflow("wf-b".to_owned(), "B".to_owned())
        .expect("id is free");
    reg.update_progress(&"wf-a".to_owned(), PROGRESS_SCALE / 2, Status::Running)
        .expect("registered");
    let a = reg.get_workflow_status(&"wf-a".to_owned()).expect("kept");
    assert_eq!(a.progress, 500_000);
    assert_eq!(a.status, Status::Running);
    assert_eq!(a.name, "A");
    let b = reg.get_workflow_status(&"wf-b".to_owned()).expect("kept");
    assert_eq!(b.progress, 0);
    assert_eq!(b.status, Status::Created);
    assert_eq!(reg.len(), 2);
}

#[test]
fn update_progress_for_missing_id_is_not_found() {
    let mut reg = Registry::new();
    let r = reg.update_progress(&"missing".to_owned(), 0, Status::Running);
    assert_eq!(r.unwrap_err(), RegistryError::NotFound);
    assert_eq!(RegistryError::NotFound.message(), "workflow not found");
}

#[test]
fn status_labels() {
    assert_eq!(Status::Created.label(), "created");
    assert_eq!(Status::Running.label(), "running");
    assert_eq!(Status::Completed.label(), "completed");
    assert_eq!(Status::Failed.label(), "failed");
}

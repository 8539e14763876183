use taskcore::error::AppError;
use taskcore::model::{CreateTaskRequest, TaskResponse, UpdateTaskRequest};
use taskcore::task_repository::TaskRepository;
use taskcore::task_service::TaskService;

const ALICE: u128 = 11;
const BOB: u128 = 22;

fn buy_milk() -> CreateTaskRequest {
    CreateTaskRequest {
        title: "Buy milk".to_owned(),
        description: Some("two bottles".to_owned()),
        task_type: "errand".to_owned(),
        subject: "groceries".to_owned(),
        due_date: Some(50_000),
    }
}

fn no_changes() -> UpdateTaskRequest {
    UpdateTaskRequest {
        title: None,
        description: None,
        task_type: None,
        subject: None,
        status: None,
        due_date: None,
    }
}

#[test]
fn create_round_trips_through_get() {
    let mut svc = TaskService::new(TaskRepository::new());
    let created = svc.create(ALICE, &buy_milk()).unwrap();
    assert_eq!(created.account_id, ALICE);
    assert_eq!(created.title, "Buy milk");
    assert_eq!(created.description.as_deref(), Some("two bottles"));
    assert_eq!(created.task_type, "errand");
    assert_eq!(created.subject, "groceries");
    assert_eq!(created.status, "active");
    assert_eq!(created.source, "manual");
    assert_eq!(created.due_date, Some(50_000));
    assert_eq!(created.completed_at, None);
    assert_eq!(created.created_by, ALICE);
    assert_eq!(created.updated_by, ALICE);
    assert!(!created.is_deleted);

    let fetched = svc.get_by_task_id_account_id(created.id, ALICE).unwrap();
    assert_eq!(fetched, created);
}

#[test]
fn other_accounts_get_not_found() {
    let mut svc = TaskService::new(TaskRepository::new());
    let created = svc.create(ALICE, &buy_milk()).unwrap();
    assert_eq!(
        svc.get_by_task_id_account_id(created.id, BOB).unwrap_err(),
        AppError::NotFound
    );
    assert_eq!(svc.get_task_list_by_account_id(BOB).unwrap(), vec![]);
}

#[test]
fn empty_update_changes_only_audit_fields() {
    let mut repo = TaskRepository::new();
    let created = repo.insert(1, ALICE, 100, 100, &buy_milk()).unwrap();
    repo.update(created.id, ALICE, &no_changes(), 900).unwrap();
    let after = repo.find_by_id_and_account(created.id, ALICE).unwrap();
    assert_eq!(after.updated_at, 900);
    assert_eq!(after.updated_by, ALICE);
    assert_eq!(after.title, created.title);
    assert_eq!(after.description, created.description);
    assert_eq!(after.task_type, created.task_type);
    assert_eq!(after.subject, created.subject);
    assert_eq!(after.status, created.status);
    assert_eq!(after.due_date, created.due_date);
    assert_eq!(after.completed_at, created.completed_at);
    assert_eq!(after.source, created.source);
    assert_eq!(after.created_at, created.created_at);
    assert_eq!(after.created_by, created.created_by);
}

#[test]
fn partial_update_overwrites_only_present_fields() {
    let mut repo = TaskRepository::new();
    let created = repo.insert(1, ALICE, 100, 100, &buy_milk()).unwrap();
    let change = UpdateTaskRequest {
        title: Some("Buy oat milk".to_owned()),
        description: None,
        task_type: None,
        subject: None,
        status: Some("done".to_owned()),
        due_date: Some(60_000),
    };
    repo.update(created.id, ALICE, &change, 900).unwrap();
    let after = repo.find_by_id_and_account(created.id, ALICE).unwrap();
    assert_eq!(after.title, "Buy oat milk");
    assert_eq!(after.status, "done");
    assert_eq!(after.due_date, Some(60_000));
    assert_eq!(after.description.as_deref(), Some("two bottles"));
    assert_eq!(after.task_type, "errand");
    assert_eq!(after.subject, "groceries");
}

#[test]
fn update_scoped_to_other_owner_is_a_noop() {
    let mut repo = TaskRepository::new();
    let created = repo.insert(1, ALICE, 100, 100, &buy_milk()).unwrap();
    let change = UpdateTaskRequest {
        title: Some("hijacked".to_owned()),
        description: None,
        task_type: None,
        subject: None,
        status: None,
        due_date: None,
    };
    repo.update(created.id, BOB, &change, 900).unwrap();
    let after = repo.find_by_id_and_account(created.id, ALICE).unwrap();
    assert_eq!(after, created);
}

#[test]
fn delete_hides_task_from_everyone() {
    let mut svc = TaskService::new(TaskRepository::new());
    let created = svc.create(ALICE, &buy_milk()).unwrap();
    svc.delete_by_task_id_account_id(created.id, ALICE).unwrap();
    assert_eq!(
        svc.get_by_task_id_account_id(created.id, ALICE).unwrap_err(),
        AppError::NotFound
    );
    assert_eq!(
        svc.get_by_task_id_account_id(created.id, BOB).unwrap_err(),
        AppError::NotFound
    );
    assert_eq!(svc.get_task_list_by_account_id(ALICE).unwrap(), vec![]);
}

#[test]
fn delete_scoped_to_other_owner_is_a_noop() {
    let mut svc = TaskService::new(TaskRepository::new());
    let created = svc.create(ALICE, &buy_milk()).unwrap();
    svc.delete_by_task_id_account_id(created.id, BOB).unwrap();
    assert_eq!(svc.get_by_task_id_account_id(created.id, ALICE).unwrap(), created);
}

#[test]
fn update_after_delete_is_a_noop() {
    let mut repo = TaskRepository::new();
    let created = repo.insert(1, ALICE, 100, 100, &buy_milk()).unwrap();
    repo.delete(created.id, ALICE, 200).unwrap();
    let change = UpdateTaskRequest {
        title: None,
        description: None,
        task_type: None,
        subject: None,
        status: Some("resurrected".to_owned()),
        due_date: None,
    };
    repo.update(created.id, ALICE, &change, 900).unwrap();
    assert_eq!(
        repo.find_by_id_and_account(created.id, ALICE).unwrap_err(),
        AppError::NotFound
    );
}

#[test]
fn listing_orders_by_creation_time_descending() {
    let mut repo = TaskRepository::new();
    let oldest = repo.insert(1, ALICE, 100, 100, &buy_milk()).unwrap();
    let newest = repo.insert(2, ALICE, 300, 300, &buy_milk()).unwrap();
    let middle = repo.insert(3, ALICE, 200, 200, &buy_milk()).unwrap();
    repo.insert(4, BOB, 400, 400, &buy_milk()).unwrap();
    let listed = repo.find_all_by_account(ALICE).unwrap();
    assert_eq!(listed, vec![newest, middle, oldest]);
}

#[test]
fn duplicate_task_id_fails_internal() {
    let mut repo = TaskRepository::new();
    repo.insert(1, ALICE, 100, 100, &buy_milk()).unwrap();
    assert_eq!(repo.insert(1, BOB, 200, 200, &buy_milk()).unwrap_err(), AppError::Internal);
}

#[test]
fn task_response_projects_all_public_fields() {
    let mut svc = TaskService::new(TaskRepository::new());
    let created = svc.create(ALICE, &buy_milk()).unwrap();
    let resp = TaskResponse::from(created.clone());
    assert_eq!(resp.id, created.id);
    assert_eq!(resp.title, created.title);
    assert_eq!(resp.description, created.description);
    assert_eq!(resp.task_type, created.task_type);
    assert_eq!(resp.subject, created.subject);
    assert_eq!(resp.status, created.status);
    assert_eq!(resp.due_date, created.due_date);
    assert_eq!(resp.completed_at, created.completed_at);
    assert_eq!(resp.created_at, created.created_at);
}

//! The full journey of two accounts through the service layer.

use taskcore::context::AppContext;
use taskcore::error::AppError;
use taskcore::model::{CreateTaskRequest, LoginRequest, RegisterRequest};
use taskcore::token::verify_token;

#[test]
fn alice_and_bob_full_scenario() {
    let secret = b"scenario-secret";
    let mut ctx = AppContext::new();

    // Register alice and log her in.
    let alice = taskcore::account_service::register(
        &mut ctx.services.account,
        &RegisterRequest {
            username: "alice".to_owned(),
            password: "secret123".to_owned(),
            nickname: "Alice".to_owned(),
        },
    )
    .unwrap();
    let session = taskcore::account_service::login(
        &ctx.services.account,
        &LoginRequest { username: "alice".to_owned(), password: "secret123".to_owned() },
        secret,
    )
    .unwrap();

    // The token authenticates her requests.
    let now = taskcore::ambient::current_timestamp();
    let claims = verify_token(&session.access_token, secret, now).unwrap();
    assert_eq!(claims.sub, alice.id);

    // She creates a task; it comes back active.
    let task = ctx
        .services
        .task
        .create(
            claims.sub,
            &CreateTaskRequest {
                title: "Buy milk".to_owned(),
                description: None,
                task_type: "errand".to_owned(),
                subject: "groceries".to_owned(),
                due_date: None,
            },
        )
        .unwrap();
    assert_eq!(task.status, "active");

    // Her listing shows exactly that task.
    let listed = ctx.services.task.get_task_list_by_account_id(claims.sub).unwrap();
    assert_eq!(listed, vec![task.clone()]);

    // A second account cannot see it, before or after deletion.
    let bob = taskcore::account_service::register(
        &mut ctx.services.account,
        &RegisterRequest {
            username: "bob".to_owned(),
            password: "hunter2!".to_owned(),
            nickname: "Bob".to_owned(),
        },
    )
    .unwrap();
    assert_eq!(
        ctx.services.task.get_by_task_id_account_id(task.id, bob.id).unwrap_err(),
        AppError::NotFound
    );

    ctx.services.task.delete_by_task_id_account_id(task.id, claims.sub).unwrap();
    assert_eq!(ctx.services.task.get_task_list_by_account_id(claims.sub).unwrap(), vec![]);
    assert_eq!(
        ctx.services.task.get_by_task_id_account_id(task.id, bob.id).unwrap_err(),
        AppError::NotFound
    );
}

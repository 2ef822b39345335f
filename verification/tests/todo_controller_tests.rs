use todos::models::todo as api_models;
use todos::todo_controller;
use todos::todo_controller::{TodoController, TodoControllerUpdateErr};
use todos::todo_repo;
use todos::todo_service;

fn fresh_controller(
) -> todo_controller::TodoControllerImpl<todo_service::TodoServiceImpl<todo_repo::InMemTodoRepo>> {
    todo_controller::new(todo_service::new(todo_repo::new()))
}

#[test]
fn todo_controller_test_create_ok() {
    let mut controller = fresh_controller();
    let todo_data = api_models::TodoData {
        task: "say hello".to_string(),
    };
    match controller.create(&todo_data) {
        Ok(saved) => {
            assert_eq!("say hello", &saved.task);
        }
        _ => panic!("creation failed"),
    }
}

#[test]
fn test_create_invalid_data() {
    let mut controller = fresh_controller();
    let todo_data = api_models::TodoData {
        task: "".to_string(),
    };
    match controller.create(&todo_data) {
        Err(_) => {
            assert_eq!(0, controller.list().len());
        }
        _ => panic!("creation failed"),
    }
}

#[test]
fn todo_controller_test_get_ok() {
    let mut controller = fresh_controller();
    let todo_data = api_models::TodoData {
        task: "say hello".to_string(),
    };
    let created = match controller.create(&todo_data) {
        Ok(saved) => saved,
        _ => panic!("lookup failed"),
    };
    match controller.get(&created.id) {
        Ok(_) => {}
        _ => panic!("lookup failed"),
    }
}

#[test]
fn todo_controller_test_get_not_found() {
    let controller = fresh_controller();
    match controller.get(&api_models::TodoId(999)) {
        Err(_) => {}
        _ => panic!("lookup failed"),
    }
}

#[test]
fn todo_controller_test_list() {
    let mut controller = fresh_controller();
    let todo_data = api_models::TodoData {
        task: "say hello".to_string(),
    };
    match controller.create(&todo_data) {
        Ok(_) => {}
        _ => panic!("creation failed"),
    }
    assert_eq!(
        vec![api_models::Todo {
            id: api_models::TodoId(1),
            task: "say hello".to_string(),
        }],
        controller.list()
    );
}

#[test]
fn todo_controller_test_delete_ok() {
    let mut controller = fresh_controller();
    let todo_data = api_models::TodoData {
        task: "say hello".to_string(),
    };
    let created = match controller.create(&todo_data) {
        Ok(saved) => saved,
        _ => panic!("lookup failed"),
    };
    match controller.delete(&created.id) {
        Ok(_) => {}
        _ => panic!("lookup failed"),
    }
}

#[test]
fn todo_controller_test_delete_not_found() {
    let mut controller = fresh_controller();
    match controller.delete(&api_models::TodoId(999)) {
        Err(_) => {}
        _ => panic!("lookup failed"),
    }
}

#[test]
fn todo_controller_test_update_ok() {
    let mut controller = fresh_controller();
    let todo_data = api_models::TodoData {
        task: "say hello".to_string(),
    };
    let created = match controller.create(&todo_data) {
        Ok(saved) => saved,
        _ => panic!("lookup failed"),
    };
    let todo = api_models::Todo {
        id: created.id,
        task: "hello world".to_string(),
    };
    match controller.update(&todo) {
        Ok(_) => {}
        _ => panic!("lookup failed"),
    }
}

#[test]
fn todo_controller_test_update_not_found() {
    let mut controller = fresh_controller();
    let todo = api_models::Todo {
        id: api_models::TodoId(999),
        task: "hello world".to_string(),
    };
    match controller.update(&todo) {
        Err(TodoControllerUpdateErr::LookupErr(_)) => {}
        _ => panic!("lookup failed"),
    }
}

#[test]
fn todo_controller_test_update_invalid_data() {
    let mut controller = fresh_controller();
    let todo = api_models::Todo {
        id: api_models::TodoId(1),
        task: "".to_string(),
    };
    match controller.update(&todo) {
        Err(TodoControllerUpdateErr::DataErr(_)) => {}
        _ => panic!("lookup failed"),
    }
}

use todos::todo::{Todo, TodoData, TodoId, TodoRepo};
use todos::todo_repo;
use todos::todo_service;
use todos::todo_service::{
    TodoService, TodoServiceDataErr, TodoServiceLookupErr, TodoServiceUpdateErr,
};

#[test]
fn todo_service_test_create_ok() {
    let mut service = todo_service::new(todo_repo::new());
    let todo_data = TodoData {
        task: "Make the bed".to_string(),
    };
    match service.create(&todo_data) {
        Ok(saved) => {
            assert_eq!("Make the bed".to_string(), saved.task);
        }
        Err(_) => panic!("Creation failed"),
    }
}

#[test]
fn test_create_invalid() {
    let mut service = todo_service::new(todo_repo::new());
    let todo_data = TodoData {
        task: "".to_string(),
    };
    match service.create(&todo_data) {
        Err(TodoServiceDataErr::InvalidData { .. }) => {
            assert_eq!(0, service.list().len());
        }
        Ok(_) => panic!("invalid data was saved"),
    }
}

#[test]
fn todo_service_test_get_ok() {
    let mut service = todo_service::new(todo_repo::new());
    let todo_data = TodoData {
        task: "say hello".to_string(),
    };
    let created = service.create(&todo_data).expect("not found");
    match service.get(&created.id) {
        Ok(retrieved) => {
            assert_eq!(created.id, retrieved.id);
        }
        Err(_) => panic!("not found"),
    }
}

#[test]
fn todo_service_test_get_not_found() {
    let service = todo_service::new(todo_repo::new());
    match service.get(&TodoId(999)) {
        Err(TodoServiceLookupErr::NotFound { .. }) => {}
        Ok(_) => panic!("not found"),
    }
}

#[test]
fn todo_service_test_list() {
    let service = todo_service::new(todo_repo::new());
    assert_eq!(0, service.list().len());
}

#[test]
fn todo_service_test_delete_ok() {
    let mut service = todo_service::new(todo_repo::new());
    let todo_data = TodoData {
        task: "say hello".to_string(),
    };
    let created = service.create(&todo_data).expect("not found");
    match service.delete(&created.id) {
        Ok(_) => {}
        Err(_) => panic!("not found"),
    }
}

#[test]
fn todo_service_test_delete_not_found() {
    let mut service = todo_service::new(todo_repo::new());
    match service.delete(&TodoId(999)) {
        Err(TodoServiceLookupErr::NotFound { .. }) => {}
        Ok(_) => panic!("not found"),
    }
}

#[test]
fn todo_service_test_update_ok() {
    let mut service = todo_service::new(todo_repo::new());
    let todo_data = TodoData {
        task: "hello".to_string(),
    };
    let created = service.create(&todo_data).expect("eh wut");
    let update_data = Todo {
        id: created.id,
        task: "hello".to_string(),
    };
    match service.update(&update_data) {
        Ok(_) => {}
        Err(_) => panic!("eh wut"),
    }
}

#[test]
fn todo_service_test_update_not_found() {
    let mut service = todo_service::new(todo_repo::new());
    let update_data = Todo {
        id: TodoId(999),
        task: "hello".to_string(),
    };
    match service.update(&update_data) {
        Err(TodoServiceUpdateErr::LookupErr(_)) => {}
        _ => panic!("Unexpected."),
    }
}

#[test]
fn todo_service_test_update_invalid_data() {
    let mut service = todo_service::new(todo_repo::new());
    let update_data = Todo {
        id: TodoId(1),
        task: "".to_string(),
    };
    match service.update(&update_data) {
        Err(TodoServiceUpdateErr::DataErr(_)) => {
            assert_eq!(0, service.list().len());
        }
        _ => panic!("Unexpected."),
    }
}

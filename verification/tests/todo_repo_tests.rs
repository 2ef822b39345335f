use todos::todo::{Todo, TodoData, TodoId, TodoRepo};
use todos::todo_repo;

#[test]
fn todo_repo_test_create() {
    let mut inmem_repo = todo_repo::new();
    let to_create = TodoData {
        task: "hello".to_string(),
    };
    let created = inmem_repo.create(&to_create);
    let retrieved = inmem_repo.get(&created.id);
    match retrieved {
        Ok(retrieved) => assert_eq!("hello".to_string(), retrieved.task),
        _ => panic!("unsuccessful"),
    }
}

#[test]
fn todo_repo_test_get_ok() {
    let mut inmem_repo = todo_repo::new();
    let to_create = TodoData {
        task: "hammertime".to_string(),
    };
    let created = inmem_repo.create(&to_create);
    let retrieved = inmem_repo.get(&created.id);
    match retrieved {
        Ok(retrieved) => assert_eq!("hammertime".to_string(), retrieved.task),
        _ => panic!("unsuccessful"),
    }
}

#[test]
fn todo_repo_test_get_not_found() {
    let inmem_repo = todo_repo::new();
    let retrieved = inmem_repo.get(&TodoId(123131));
    match retrieved {
        Err(_) => {}
        _ => panic!("unexpectedly found..."),
    }
}

#[test]
fn todo_repo_test_list() {
    let mut inmem_repo = todo_repo::new();
    let mut createds = Vec::new();
    for i in 0..9 {
        let to_create = TodoData {
            task: format!("to something {}", i),
        };
        createds.push(inmem_repo.create(&to_create));
    }
    let listed = inmem_repo.list();
    assert_eq!(createds, listed);
}

#[test]
fn todo_repo_test_delete_ok() {
    let mut inmem_repo = todo_repo::new();
    let to_create = TodoData {
        task: "hammertime".to_string(),
    };
    let created = inmem_repo.create(&to_create);
    let deleted = inmem_repo.delete(&created.id);
    match deleted {
        Ok(_) => {}
        _ => panic!("unsuccessful"),
    }
    let retrieve_after_delete = inmem_repo.get(&created.id);
    match retrieve_after_delete {
        Err(_) => {}
        _ => panic!("unexpectedly found..."),
    }
}

#[test]
fn todo_repo_test_delete_not_found() {
    let mut inmem_repo = todo_repo::new();
    let deleted = inmem_repo.delete(&TodoId(123131));
    match deleted {
        Err(_) => {}
        _ => panic!("unexpectedly found..."),
    }
}

#[test]
fn todo_repo_test_update_ok() {
    let mut inmem_repo = todo_repo::new();
    let to_create = TodoData {
        task: "hammertime".to_string(),
    };
    let mut created = inmem_repo.create(&to_create);
    let updated_task = "stop!".to_string();
    created.task = updated_task.clone();
    let updated = inmem_repo.update(&created);
    match updated {
        Ok(_) => {}
        _ => panic!("unsuccessful"),
    }
    let retrieve_after_update = inmem_repo.get(&created.id);
    match retrieve_after_update {
        Ok(retrieved) => assert_eq!(updated_task, retrieved.task),
        _ => panic!("unexpectedly found..."),
    }
}

#[test]
fn todo_repo_test_update_not_found() {
    let mut inmem_repo = todo_repo::new();
    let unpersisted_update = Todo {
        id: TodoId(123213),
        task: "hammertime".to_string(),
    };
    let update = inmem_repo.update(&unpersisted_update);
    match update {
        Err(_) => {}
        _ => panic!("unexpectedly found..."),
    }
}

use user_repo::{InMemoryRepository, Repository, User};

#[test]
fn test_repository() {
    let mut repo = InMemoryRepository::new();
    let user = User::new(1, "Test".to_string(), "test@example.com".to_string());

    repo.save(user.clone()).unwrap();

    let found = repo.find_by_id(1).unwrap();
    assert!(found.is_some());
    assert_eq!(found.unwrap().name, "Test");
}

#[test]
fn missing_id_is_not_found() {
    let repo: InMemoryRepository<User> = InMemoryRepository::new();
    assert!(repo.find_by_id(7).unwrap().is_none());
}

#[test]
fn save_replaces_an_entry_with_the_same_id() {
    let mut repo = InMemoryRepository::new();
    repo.save(User::new(5, "Old".to_string(), "old@example.com".to_string())).unwrap();
    repo.save(User::new(5, "New".to_string(), "new@example.com".to_string())).unwrap();
    assert_eq!(repo.len(), 1);
    assert_eq!(repo.find_by_id(5).unwrap().unwrap().name, "New");
}

#[test]
fn delete_reports_whether_an_entry_was_there() {
    let mut repo = InMemoryRepository::new();
    repo.save(User::new(3, "Carol".to_string(), "carol@example.com".to_string())).unwrap();
    assert!(repo.delete(3).unwrap());
    assert!(!repo.delete(3).unwrap());
    assert!(repo.find_by_id(3).unwrap().is_none());
}

#[test]
fn len_and_is_empty_follow_the_contents() {
    let mut repo = InMemoryRepository::new();
    assert!(repo.is_empty());
    assert_eq!(repo.len(), 0);
    repo.save(User::new(1, "A".to_string(), "a@example.com".to_string())).unwrap();
    repo.save(User::new(2, "B".to_string(), "b@example.com".to_string())).unwrap();
    assert!(!repo.is_empty());
    assert_eq!(repo.len(), 2);
}

#[test]
fn default_store_is_empty() {
    let repo: InMemoryRepository<User> = Default::default();
    assert!(repo.is_empty());
}

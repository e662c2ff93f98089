use feishu2acp::adapters::repository::{
    ConversationMap, FileContent, FileConversationRepository, FileWritten,
    InMemoryConversationRepository,
};
use feishu2acp::domain::{ConversationBinding, ConversationKey, PermissionMode};
use feishu2acp::error::BridgeError;
use feishu2acp::platform::System;

fn key() -> ConversationKey {
    ConversationKey {
        tenant_key: "tenant".to_string(),
        chat_id: "chat".to_string(),
        user_open_id: "user".to_string(),
        thread_id: None,
    }
}

fn other_key() -> ConversationKey {
    ConversationKey { thread_id: Some("thread".to_string()), ..key() }
}

fn binding() -> ConversationBinding {
    ConversationBinding {
        cwd: "/repo".to_string(),
        agent: "codex".to_string(),
        session_name: Some("backend".to_string()),
        permission_mode: PermissionMode::ApproveReads,
    }
}

fn changed() -> ConversationBinding {
    ConversationBinding { cwd: "/changed".to_string(), ..binding() }
}

#[test]
fn in_memory_repository_round_trips() {
    let mut repository = InMemoryConversationRepository::default();
    repository.put(&key(), &binding());
    assert_eq!(repository.get(&key()), Some(binding()));
}

#[test]
fn file_repository_persists_to_disk() {
    let path = "conversations.json".to_string();
    let mut repository = FileConversationRepository::new(path.clone());
    repository.load_map(FileContent::Absent).unwrap();
    let entries = repository.put(&key(), &binding());
    let on_disk = entries.to_entries();
    repository.persist_map(entries, FileWritten::Done).unwrap();

    let mut restored = FileConversationRepository::new(path);
    restored.load_map(FileContent::Entries(on_disk)).unwrap();
    assert_eq!(restored.get(&key()), Some(binding()));
}

#[test]
fn conversations_are_kept_apart() {
    assert_eq!(key().storage_key(), "tenant::chat::user::-");
    assert_eq!(other_key().storage_key(), "tenant::chat::user::thread");
    let mut repository = InMemoryConversationRepository::new();
    repository.put(&key(), &binding());
    assert_eq!(repository.get(&other_key()), None);
    repository.put(&other_key(), &changed());
    repository.put(&key(), &changed());
    repository.put(&other_key(), &binding());
    assert_eq!(repository.get(&key()), Some(changed()));
    assert_eq!(repository.get(&other_key()), Some(binding()));
    assert_eq!(repository.entries.to_entries().len(), 2);
}

#[test]
fn later_entries_count() {
    let map = ConversationMap::from_entries(vec![
        ("a".to_string(), binding()),
        ("b".to_string(), binding()),
        ("a".to_string(), changed()),
    ]);
    assert_eq!(map.get("a"), Some(changed()));
    assert_eq!(map.get("b"), Some(binding()));
    assert_eq!(map.get("c"), None);
    assert_eq!(map.to_entries().len(), 2);
}

#[test]
fn a_file_is_read_once() {
    let mut repository = FileConversationRepository::new("f".to_string());
    assert!(!repository.is_loaded());
    repository
        .load_map(FileContent::Entries(vec![(key().storage_key(), binding())]))
        .unwrap();
    assert!(repository.is_loaded());
    repository.load_map(FileContent::Unreadable("late".to_string())).unwrap();
    assert_eq!(repository.get(&key()), Some(binding()));
}

#[test]
fn files_that_cannot_be_used_are_told() {
    let mut repository = FileConversationRepository::new("f".to_string());
    let failure = |result: Result<(), BridgeError>| match result.unwrap_err() {
        BridgeError::Persistence(message) => message,
        other => panic!("another failure: {other:?}"),
    };
    assert_eq!(
        failure(repository.load_map(FileContent::Unreadable("x".to_string()))),
        "failed to read f: x"
    );
    assert_eq!(
        failure(repository.load_map(FileContent::Malformed("y".to_string()))),
        "failed to parse f: y"
    );
    assert!(!repository.is_loaded());
    repository.load_map(FileContent::Absent).unwrap();
    for (result, message) in [
        (
            FileWritten::NoDirectory { directory: "d".to_string(), fault: "x".to_string() },
            "failed to create d: x",
        ),
        (FileWritten::NotSerialized("y".to_string()), "failed to serialize state: y"),
        (FileWritten::NotWritten("z".to_string()), "failed to write f: z"),
    ] {
        let entries = repository.put(&key(), &binding());
        assert_eq!(failure(repository.persist_map(entries, result)), message);
        assert_eq!(repository.get(&key()), None);
    }
}

#[test]
fn the_file_is_in_its_directory() {
    let directory = |path: &str| {
        FileConversationRepository::new(path.to_string()).directory(System::current())
    };
    assert_eq!(directory("/a/b/c.json"), Some("/a/b".to_string()));
    assert_eq!(directory("c.json"), Some(String::new()));
    assert_eq!(directory("/"), None);
}

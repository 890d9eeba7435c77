use crab::blob::{blob_from_history_text, history_text_from_blob, messages_from_pairs, pairs_from_messages};
use crab::message::{Message, Role};

#[test]
fn blob_decodes_known_base64() {
    assert_eq!(history_text_from_blob("bGlzdCBmaWxlcw=="), Some("list files".to_string()));
    assert_eq!(history_text_from_blob(""), Some(String::new()));
}

#[test]
fn blob_encodes_known_base64() {
    assert_eq!(blob_from_history_text("list files"), "bGlzdCBmaWxlcw==");
}

#[test]
fn blob_round_trip() {
    let text = "[{\"role\":\"user\",\"content\":\"héllo\"}]";
    let blob = blob_from_history_text(text);
    assert_ne!(blob, text);
    assert_eq!(history_text_from_blob(&blob), Some(text.to_string()));
}

#[test]
fn corrupted_blob_gives_none() {
    assert_eq!(history_text_from_blob("not base64!!"), None);
    assert_eq!(history_text_from_blob("bGlzdA="), None);
    // valid base64 of the bytes ff fe, which are not UTF-8
    assert_eq!(history_text_from_blob("//4="), None);
}

#[test]
fn pairs_become_messages() {
    let pairs = vec![
        ("user".to_string(), "hi".to_string()),
        ("assistant".to_string(), "hello".to_string()),
        ("system".to_string(), "rules".to_string()),
    ];
    let ms = messages_from_pairs(&pairs);
    assert_eq!(ms.len(), 3);
    assert_eq!((ms[0].role, ms[0].content.as_str()), (Role::User, "hi"));
    assert_eq!((ms[1].role, ms[1].content.as_str()), (Role::Assistant, "hello"));
    assert_eq!((ms[2].role, ms[2].content.as_str()), (Role::System, "rules"));
}

#[test]
fn unknown_role_gives_empty_history() {
    let pairs = vec![
        ("user".to_string(), "hi".to_string()),
        ("robot".to_string(), "beep".to_string()),
    ];
    assert!(messages_from_pairs(&pairs).is_empty());
}

#[test]
fn messages_pairs_round_trip() {
    let ms = vec![
        Message::new(Role::User, "a".to_string()),
        Message::new(Role::Assistant, "b".to_string()),
    ];
    let pairs = pairs_from_messages(&ms);
    assert_eq!(pairs, vec![
        ("user".to_string(), "a".to_string()),
        ("assistant".to_string(), "b".to_string()),
    ]);
    let back = messages_from_pairs(&pairs);
    assert_eq!(back.len(), 2);
    assert_eq!((back[0].role, back[0].content.as_str()), (Role::User, "a"));
    assert_eq!((back[1].role, back[1].content.as_str()), (Role::Assistant, "b"));
}

#[test]
fn role_names() {
    assert_eq!(Role::System.name(), "system");
    assert_eq!(Role::from_name("assistant"), Some(Role::Assistant));
    assert_eq!(Role::from_name("Assistant"), None);
}

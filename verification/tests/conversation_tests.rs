use martian_adapters::{
    ContentEntry, ContentEntryData, Conversation, ConversationRole, ImageUrl, TokenUsage, Turn,
    TurnType,
};

#[test]
fn test_conversation_creation() {
    let mut conversation = Conversation::new();
    assert_eq!(conversation.len(), 0);
    assert!(conversation.is_empty());

    conversation.add_turn(TurnType::Basic(Turn {
        role: ConversationRole::User,
        content: "Hello".to_string(),
    }));

    assert_eq!(conversation.len(), 1);
    assert!(!conversation.is_empty());
}

#[test]
fn test_token_usage() {
    let usage = TokenUsage::new(100, 50);
    assert_eq!(usage.prompt_tokens, 100);
    assert_eq!(usage.completion_tokens, 50);
    assert_eq!(usage.total_tokens, 150);
}

#[test]
fn test_conversation_role_display() {
    assert_eq!(ConversationRole::User.to_string(), "user");
    assert_eq!(ConversationRole::Assistant.to_string(), "assistant");
    assert_eq!(ConversationRole::System.to_string(), "system");
}

#[test]
fn test_role_names_round_trip() {
    for role in [
        ConversationRole::User,
        ConversationRole::Assistant,
        ConversationRole::System,
        ConversationRole::Function,
        ConversationRole::Tool,
    ] {
        let name = role.to_string();
        assert_eq!(ConversationRole::from_name(&name), Some(role));
    }
    assert_eq!(ConversationRole::from_name("robot"), None);
}

fn text_entry(text: &str) -> ContentEntry {
    ContentEntry {
        entry_type: "text".to_string(),
        data: ContentEntryData::Text { text: text.to_string() },
    }
}

fn image_entry(url: &str) -> ContentEntry {
    ContentEntry {
        entry_type: "image_url".to_string(),
        data: ContentEntryData::Image {
            image_url: ImageUrl { url: url.to_string(), detail: None },
        },
    }
}

#[test]
fn test_vision_query_empty_conversation() {
    let conversation = Conversation::new();
    assert!(!conversation.is_last_turn_vision_query());
}

#[test]
fn test_vision_query_basic_last_turn() {
    let mut conversation = Conversation::new();
    conversation.add_turn(TurnType::Basic(Turn {
        role: ConversationRole::User,
        content: "describe this".to_string(),
    }));
    assert!(!conversation.is_last_turn_vision_query());
}

#[test]
fn test_vision_query_content_with_image() {
    let mut conversation = Conversation::new();
    conversation.add_turn(TurnType::Content(martian_adapters::ContentTurn {
        role: ConversationRole::User,
        content: vec![text_entry("what is in this picture?"), image_entry("https://example.com/cat.png")],
    }));
    assert!(conversation.is_last_turn_vision_query());
}

#[test]
fn test_vision_query_content_without_image() {
    let mut conversation = Conversation::new();
    conversation.add_turn(TurnType::Content(martian_adapters::ContentTurn {
        role: ConversationRole::User,
        content: vec![text_entry("plain text only")],
    }));
    assert!(!conversation.is_last_turn_vision_query());
}

#[test]
fn test_with_turns_keeps_order() {
    let turns = vec![
        TurnType::Basic(Turn { role: ConversationRole::System, content: "a".to_string() }),
        TurnType::Basic(Turn { role: ConversationRole::User, content: "b".to_string() }),
    ];
    let conversation = Conversation::with_turns(turns);
    assert_eq!(conversation.len(), 2);
    match &conversation.turns[1] {
        TurnType::Basic(t) => assert_eq!(t.content, "b"),
        _ => panic!("unexpected turn shape"),
    }
}

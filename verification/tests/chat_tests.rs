use mistral_nvim::buffer::{BufferData, Selection, UndotreeData};
use mistral_nvim::buffer_modifier::{BMError, BufferModifierGroupedUndo};
use mistral_nvim::chat::bar::{replace_marker, StatusLine};
use mistral_nvim::chat::parser::{GeneratorArgs, rebuild_transcript};
use mistral_nvim::chat::{ChatMetadata, MessageState, MessagesPositions, Page};
use mistral_nvim::cursor::range_impl::RowRange;
use mistral_nvim::cursor::usize_impl::{Col, OFFSET_LIMIT, Row};
use mistral_nvim::cursor::Cursor;
use mistral_nvim::logger::{format_log, Log};
use mistral_nvim::mistral::message::Role;
use mistral_nvim::messages::Visual;
use mistral_nvim::mistral::stream::{Delta, StreamResponse};
use mistral_nvim::notify::NotifyLevel;

const BUFFER_CONTENT: &'static str = r###"<CHAT  name="Refactorisation" usage="1;2;3" description="Un chat de test."/>
<MESSAGE  role="System" model="Medium Latest" status="Created" usage="0;0;0"/>
Tu es un developpeur qui a des outils a ta disposition.
<MESSAGE  role="User" model="Medium Latest" status="Created" usage="0;0;0" mode="CodeRefactorisation"/>
Peux-tu modifier la fonction main grace aux outils ?"###;

const M0: &'static str = "Tu es un developpeur qui a des outils a ta disposition.";
const M1: &'static str = "Peux-tu modifier la fonction main grace aux outils ?";

#[test]
fn chat_rebuild_from_buffer() {
    let lines: Vec<String> = BUFFER_CONTENT.split('\n').map(|s| s.to_string()).collect();
    let positions = MessagesPositions::new();
    let buf_last_row = Row(lines.len() - 1);
    let args = GeneratorArgs::new(&positions, RowRange::full(), buf_last_row);
    assert!(args.is_full_range());

    let mut metadata = ChatMetadata::empty();
    let mut messages: Vec<MessageState> = Vec::new();
    let mut position_ranges = positions.ranges();
    rebuild_transcript(&lines, Row(0), &args, &mut metadata, &mut messages, &mut position_ranges)
        .unwrap();

    assert_eq!(metadata.name, "Refactorisation");
    assert_eq!(metadata.description, "Un chat de test.");
    assert_eq!(metadata.usage.prompt_tokens, 1);
    assert_eq!(metadata.usage.total_tokens, 3);

    assert_eq!(messages.len(), 2);
    assert_eq!(messages[0].message.content, M0);
    assert_eq!(messages[1].message.content, M1);
    assert_eq!(messages[0].message.role.name(), "System");
    assert_eq!(messages[1].message.role.name(), "User");
    assert_eq!(messages[0].mode.name(), "None");
    assert_eq!(messages[1].mode.name(), "CodeRefactorisation");

    assert_eq!(position_ranges.len(), 3);
    assert_eq!(position_ranges[0], RowRange::from_range(0, 1));
    assert_eq!(position_ranges[1], RowRange::from_range(1, 3));
    assert_eq!(
        position_ranges[2],
        RowRange { start: Row(3), end: Row(OFFSET_LIMIT) }
    );
}

#[test]
fn chat_rebuild_reads_tool_calls() {
    let content = r###"<CHAT  name="c"/>
<MESSAGE  role="Assistant" status="Created" usage="0;0;0"/>

<TOOLCALL id="1QBcNzvu0" index="0" name="CodeRetriever">

```json
{"file": "src/main.rs"}
```
</TOOLCALL>"###;
    let lines: Vec<String> = content.split('\n').map(|s| s.to_string()).collect();
    let positions = MessagesPositions::new();
    let args = GeneratorArgs::new(&positions, RowRange::full(), Row(lines.len() - 1));
    let mut metadata = ChatMetadata::empty();
    let mut messages: Vec<MessageState> = Vec::new();
    let mut ranges = positions.ranges();
    rebuild_transcript(&lines, Row(0), &args, &mut metadata, &mut messages, &mut ranges).unwrap();
    assert_eq!(messages.len(), 1);
    let calls = messages[0].message.tool_calls.as_ref().unwrap();
    assert_eq!(calls.len(), 1);
    assert_eq!(calls[0].id.as_deref(), Some("1QBcNzvu0"));
    assert_eq!(calls[0].index, Some(0));
    assert_eq!(calls[0].function.name, "CodeRetriever");
    assert_eq!(calls[0].function.arguments, "{\"file\": \"src/main.rs\"}");
}

#[test]
fn chat_rebuild_requires_header() {
    let lines: Vec<String> = vec!["no header".to_string()];
    let positions = MessagesPositions::new();
    let args = GeneratorArgs::new(&positions, RowRange::full(), Row(0));
    let mut metadata = ChatMetadata::empty();
    let mut messages: Vec<MessageState> = Vec::new();
    let mut ranges = positions.ranges();
    let res =
        rebuild_transcript(&lines, Row(0), &args, &mut metadata, &mut messages, &mut ranges);
    assert!(res.is_err());
}

#[test]
fn stream_response_absorbs_deltas() {
    let mut response = StreamResponse::new();
    let actions = response.add_delta(Delta {
        content: Some("Hello\nWorld".to_string()),
        role: Some(Role::Assistant),
        tool_calls: None,
    });
    assert_eq!(response.message.content, "Hello\nWorld");
    assert_eq!(actions.content_chunk, Some(vec!["Hello".to_string(), "World".to_string()]));
    let actions = response.add_delta(Delta {
        content: Some("!".to_string()),
        role: None,
        tool_calls: None,
    });
    assert_eq!(response.message.content, "Hello\nWorld!");
    assert!(actions.role.is_none());
}

#[test]
fn buffer_modifier_tracks_insertions() {
    let undo = UndotreeData { sequence_current: 0, sequence_last: 0, save_current: 0 };
    let mut bm = BufferModifierGroupedUndo::new(undo);
    bm.start_insertion_successive(0, Cursor { row: Row(1), col: Col(0) }).unwrap();
    bm.start_insertion_successive(1, Cursor { row: Row(2), col: Col(12) }).unwrap();
    bm.start_replacement_line(4, Row(3), 12).unwrap();

    // Two rows arrive on task 0: task 1 and the replacement move down.
    let lines = vec!["0".to_string(), "".to_string()];
    let at = bm.insert(0, &lines).unwrap();
    assert_eq!(at, Cursor { row: Row(1), col: Col(0) });
    let at = bm.insert(1, &vec!["".to_string(), "1".to_string()]).unwrap();
    assert_eq!(at, Cursor { row: Row(3), col: Col(12) });
    let (row, len) = bm.replace_line(4, Row(5), 15).unwrap();
    assert_eq!(row, Row(5));
    assert_eq!(len, 15);

    // Starting the same insertion again is refused; an insertion on another
    // task's exact position is refused.
    assert!(matches!(
        bm.start_insertion_successive(0, Cursor { row: Row(9), col: Col(0) }),
        Err(BMError::AlreadyCreated)
    ));
    assert!(matches!(
        bm.start_insertion_successive(7, Cursor { row: Row(1), col: Col(0) }),
        Err(BMError::InsertionInMiddleOfAnother)
    ));
    assert!(matches!(bm.insert(12, &Vec::<String>::new()), Err(BMError::IdNotInitialised)));
    assert!(matches!(
        bm.replace_line(4, Row(4), 1),
        Err(BMError::WrongReplacementRow(4, Row(5), Row(4)))
    ));

    assert!(!bm.id_finished(0));
    assert!(!bm.id_finished(1));
    assert!(bm.ids_finished(&vec![4]));
}

#[test]
fn notify_levels_order_and_format() {
    assert!(NotifyLevel::Error.at_least(&NotifyLevel::Warn));
    assert!(!NotifyLevel::Info.at_least(&NotifyLevel::Warn));
    assert_eq!(NotifyLevel::from_text("3").name(), "Warn");
    assert_eq!(NotifyLevel::from_text("Trace").name(), "Trace");
    assert_eq!(NotifyLevel::from_text("nonsense").name(), "Warn");

    let log = Log::new(NotifyLevel::Error, "boom".to_string());
    let line = format_log("libuv", 17, &NotifyLevel::Warn, log).unwrap();
    assert_eq!(line, "[libuv:17:Error] boom");
    let log = Log::new(NotifyLevel::Debug, "quiet".to_string());
    assert!(format_log("libuv", 17, &NotifyLevel::Warn, log).is_none());
}

#[test]
fn status_line_substitutes_fields() {
    assert_eq!(replace_marker("a%{X}b%{X}", "%{X}", "-"), "a-b-");
    assert_eq!(replace_marker("abc", "", "-"), "abc");

    let mut line = StatusLine::new(&Page::Message(0));
    let messages = vec![MessageState::empty()];
    let mut metadata = ChatMetadata::empty();
    metadata.name = "My|Chat".to_string();
    line.update_full(&Page::Message(0), &messages, &metadata);
    assert!(line.outdated.is_none());
    assert!(line.computed.contains("My%%|Chat"), "{}", line.computed);
    assert!(line.computed.contains("Message 1/1"), "{}", line.computed);
    assert!(line.computed.contains("Medium Latest"), "{}", line.computed);
    assert!(line.computed.contains("Created"), "{}", line.computed);

    let mut header = StatusLine::new(&Page::Header);
    header.update_full(&Page::Header, &messages, &metadata);
    assert!(header.computed.contains("-/1"), "{}", header.computed);
}

#[test]
fn visual_selection_cuts_columns() {
    let data = BufferData {
        filepath: None,
        filetype: "rust".to_string(),
        content: vec!["alpha".to_string(), "beta".to_string(), "gamma".to_string()],
        cursor: Cursor { row: Row(0), col: Col(0) },
        modified: false,
        readonly: false,
    };
    let visual = Visual {
        data,
        selection: Selection {
            start: Cursor { row: Row(0), col: Col(2) },
            end: Cursor { row: Row(2), col: Col(2) },
        },
    };
    let (content, cursor) = visual.get_selected_content();
    assert_eq!(content, "pha\nbet");
    assert_eq!(cursor, Cursor { row: Row(2), col: Col(3) });
}

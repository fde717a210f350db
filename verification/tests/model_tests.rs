use mistral_nvim::chat::parser::{
    build_tag_tool_call_lines, escape_quote_arg, is_close_tag_line, is_open_tag_line,
    is_self_tag_line, parse_tag_line, unescape_quote_arg,
};
use mistral_nvim::chat::{MessagesPositions, Page};
use mistral_nvim::cursor::usize_impl::Row;
use mistral_nvim::mistral::completion::Model;
use mistral_nvim::mistral::message::Role;
use mistral_nvim::mistral::stream::{Status, Usage};
use mistral_nvim::mistral::tools::{FormExt, ToolCall};
use mistral_nvim::text::{parse_u32, split_char, u32_text};
use mistral_nvim::tool_id::{tool_id_to_usize, usize_to_tool_id};
use mistral_nvim::tool_mode::Mode;

#[test]
fn tool_id_conversion() {
    let id = "Azd3fdFs";
    let id_usize = tool_id_to_usize(id);
    let id_back = usize_to_tool_id(id_usize);
    assert_eq!(id_back, id);
}

#[test]
fn tool_id_conversion_digit() {
    let id = "0";
    let id_usize = tool_id_to_usize(id);
    assert_eq!(id_usize, 53);
    let id_back = usize_to_tool_id(id_usize);
    assert_eq!(id_back, id);
}

#[test]
fn tool_id_truncates_after_ten_characters() {
    let long = "ABCDEFGHIJKL";
    let ten = "ABCDEFGHIJ";
    assert_eq!(tool_id_to_usize(long), tool_id_to_usize(ten));
    assert_eq!(usize_to_tool_id(tool_id_to_usize(long)), ten);
}

#[test]
fn get_form() {
    let _ = std::collections::HashMap::<String, String>::get_form();
    let _ = <Vec<String>>::get_form();
}

#[test]
fn usage_text_round_trip() {
    let usage = Usage { prompt_tokens: 388, completion_tokens: 13, total_tokens: 401 };
    let text = usage.to_text();
    assert_eq!(text, "388;13;401");
    let back = Usage::from_text(&text);
    assert_eq!(back, usage);
}

#[test]
fn usage_from_partial_text() {
    let back = Usage::from_text("42");
    assert_eq!(back, Usage { prompt_tokens: 42, completion_tokens: 0, total_tokens: 0 });
    let back = Usage::from_text("a;9");
    assert_eq!(back, Usage { prompt_tokens: 0, completion_tokens: 9, total_tokens: 0 });
}

#[test]
fn parse_u32_accepts_plain_numerals() {
    assert_eq!(parse_u32("0"), Some(0));
    assert_eq!(parse_u32("+42"), Some(42));
    assert_eq!(parse_u32("4294967295"), Some(u32::MAX));
}

#[test]
fn parse_u32_rejects_bad_numerals() {
    assert_eq!(parse_u32(""), None);
    assert_eq!(parse_u32("+"), None);
    assert_eq!(parse_u32("12a"), None);
    assert_eq!(parse_u32("4294967296"), None);
    assert_eq!(parse_u32("-1"), None);
}

#[test]
fn u32_text_writes_decimals() {
    assert_eq!(u32_text(0), "0");
    assert_eq!(u32_text(10), "10");
    assert_eq!(u32_text(4294967295), "4294967295");
}

#[test]
fn split_char_keeps_empty_pieces() {
    let pieces = split_char("a;;b;", ';');
    assert_eq!(pieces, vec!["a", "", "b", ""]);
    let pieces = split_char("", ';');
    assert_eq!(pieces, vec![""]);
}

#[test]
fn escape_unescape_round_trip() {
    let raw = r#"he said "hi" \ bye"#;
    let escaped = escape_quote_arg(raw);
    assert_eq!(escaped, r#"he said \"hi\" \\ bye"#);
    assert_eq!(unescape_quote_arg(&escaped), raw);
}

#[test]
fn tag_line_shapes() {
    assert!(is_self_tag_line(r#"<CHAT name="x"/>"#, "CHAT"));
    assert!(!is_self_tag_line(r#"<CHAT name="x">"#, "CHAT"));
    assert!(is_open_tag_line(r#"<TOOLCALL id="a">"#, "TOOLCALL"));
    assert!(is_close_tag_line("</TOOLCALL>", "TOOLCALL"));
    assert!(!is_close_tag_line("</TOOLCALL> ", "TOOLCALL"));
}

#[test]
fn parse_tag_line_reads_quoted_arguments() {
    let line = r#"<MESSAGE  role="User" usage="0;0;0" note="a \"q\" b"/>"#;
    let args = parse_tag_line(line);
    assert_eq!(args.len(), 3);
    assert_eq!(args[0].key, "role");
    assert_eq!(args[0].value, "User");
    assert_eq!(args[1].key, "usage");
    assert_eq!(args[1].value, "0;0;0");
    assert_eq!(args[2].key, "note");
    assert_eq!(unescape_quote_arg(&args[2].value), "a \"q\" b");
    // The column span points at the value between its quotes.
    let start = args[0].col_start;
    let end = args[0].col_end;
    assert_eq!(&line[start..end], "User");
}

#[test]
fn role_model_status_round_trips() {
    let mut role = Role::Assistant;
    role.replace_from_str("Tool");
    assert_eq!(role, Role::Tool);
    role.replace_from_str("nonsense");
    assert_eq!(role, Role::Tool);

    let mut model = Model::MistralMediumLatest;
    model.replace_from_str("Codestral Latest");
    assert_eq!(model, Model::CodestralLatest);
    assert_eq!(model.name(), "Codestral Latest");

    let mut status = Status::Completed;
    status.replace_from_str("Partial : half done");
    assert!(matches!(&status, Status::Partial(s) if s == "half done"));
    status.replace_from_str("Created");
    assert!(matches!(status, Status::Created));

    let mut mode = Mode::NoTools;
    mode.replace_from_str("CodeRefactorisation");
    assert_eq!(mode, Mode::CodeRefactorisation);
    assert_eq!(mode.name(), "CodeRefactorisation");
}

#[test]
fn tool_call_lines_have_fenced_arguments() {
    let mut call = ToolCall::empty();
    call.id = Some("uKCZB9XEy".to_string());
    call.index = Some(0);
    call.function.name = "CodeRetriever".to_string();
    call.function.arguments = "{\"file\": \"main.rs\"}".to_string();
    let lines = build_tag_tool_call_lines(&call);
    let expected = vec![
        "",
        r#"<TOOLCALL id="uKCZB9XEy" index="0" name="CodeRetriever">"#,
        "",
        "```json",
        r#"{"file": "main.rs"}"#,
        "```",
        "</TOOLCALL>",
    ];
    assert_eq!(lines, expected);
}

#[test]
fn positions_track_rows() {
    let mut positions = MessagesPositions::new();
    assert_eq!(positions.nb_msg(), 0);
    positions.0.clear();
    positions.0.push(mistral_nvim::cursor::range_impl::RowRange::from_range_inclusive(0, 0));
    positions.0.push(mistral_nvim::cursor::range_impl::RowRange::from_range_inclusive(1, 2));
    positions.0.push(mistral_nvim::cursor::range_impl::RowRange::from_range_inclusive(3, 9));
    assert_eq!(positions.nb_msg(), 2);
    assert_eq!(positions.pos_index_by_row(&Row(0)), Some(0));
    assert_eq!(positions.index_by_row(&Row(0)), None);
    assert_eq!(positions.index_by_row(&Row(2)), Some(0));
    assert_eq!(positions.index_by_row(&Row(5)), Some(1));
    assert_eq!(positions.index_by_row(&Row(10)), None);
    let pages = positions.pages_iterator();
    assert_eq!(pages, vec![Page::Header, Page::Message(0), Page::Prompt(1)]);
    assert_eq!(Page::from_position(0, 2), Page::Header);
    assert_eq!(Page::from_position(2, 2), Page::Prompt(1));
    assert_eq!(Page::from_position(1, 2), Page::Message(0));
}

#[test]
fn test_build_tree() {
    let files: Vec<String> = [
        "1", "a/b/c/2", "a/1", "a/b/c/1", "a/2", "2", "b/1", "b/2", "b/c/1", "b/c/2",
    ]
    .into_iter()
    .map(|s| s.to_string())
    .collect();
    let tree = mistral_nvim::tool_mode::code_refactorisation::build_tree("src/", files);
    let expected = "src/
├── 1
├── 2
├── a/
│   ├── 1
│   ├── 2
│   └── b/
│       └── c/
│           ├── 1
│           └── 2
└── b/
    ├── 1
    ├── 2
    └── c/
        ├── 1
        └── 2
";
    for (line_modif, line_expected) in tree.split("\n").zip(expected.split("\n")) {
        assert_eq!(line_modif, line_expected, "\n\nDoes not match final.\n");
    }
    assert_eq!(tree, expected);
}

#[test]
fn test_refacto_get_file() {
    let path = mistral_nvim::tool_mode::code_refactorisation::get_path("..");
    assert!(path.is_err(), "{path:?}");
    let error = path.unwrap_err().text();
    assert!(
        error.ends_with("Warn : The file can't be outside the project directory."),
        "{error}"
    );
    let path = mistral_nvim::tool_mode::code_refactorisation::get_path("NON_EXISTING_FILE_...");
    assert!(path.is_ok());
    let path = path.unwrap();
    assert!(path.ends_with("NON_EXISTING_FILE_..."), "{path:?}");
}

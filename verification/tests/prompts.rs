use ailoop::json::Json;
use ailoop::message::{AssistantBlock, Message, ToolResultContent, UserBlock};
use ailoop::prompt::{Prompt, PromptError, PromptSection};
use ailoop::tokenizer::{CharTokenizer, Tokenizer};

struct WordTokenizer;

impl Tokenizer for WordTokenizer {
    fn count_text(&self, text: &str) -> usize {
        text.split_whitespace().count()
    }
}

#[test]
fn char_tokenizer_matches_legacy_len_div_four() {
    let t = CharTokenizer;
    assert_eq!(t.count_text(""), 0);
    assert_eq!(t.count_text("abcd"), 1);
    assert_eq!(t.count_text("hello world"), 2);
}

#[test]
fn char_tokenizer_counts_bytes() {
    assert_eq!(CharTokenizer.count_text("éé"), 1);
}

#[test]
fn count_message_walks_user_blocks() {
    let t = WordTokenizer;
    let msg = Message::User {
        blocks: vec![
            UserBlock::text("hello world from user"),
            UserBlock::tool_result("call_42", ToolResultContent::text("ok done")),
        ],
    };
    assert_eq!(t.count_message(&msg), 7);
}

#[test]
fn count_message_walks_assistant_blocks_including_reasoning() {
    let t = WordTokenizer;
    let msg = Message::Assistant {
        blocks: vec![
            AssistantBlock::text("two words"),
            AssistantBlock::tool_call("id_1", "tool_name", Json::parse(r#"{"k": "v"}"#).unwrap()),
            AssistantBlock::Reasoning {
                text: "thinking aloud".into(),
                signature: Some("sig token".into()),
            },
            AssistantBlock::RedactedReasoning {
                data: "redacted_blob".into(),
            },
        ],
    };
    assert_eq!(t.count_message(&msg), 10);
}

#[test]
fn count_messages_sums_each_message() {
    let t = WordTokenizer;
    let msgs = vec![
        Message::user("one two three"),
        Message::assistant_text("four five"),
    ];
    assert_eq!(t.count_messages(&msgs), 5);
}

#[test]
fn section_from_md_file() {
    let section = PromptSection::from_file("prompt.md", Ok("Test 1".to_string()))
        .expect("Error reading test 1 file.");
    assert_eq!(section.content(), "Test 1");
    assert_eq!(section.name(), None);
}

#[test]
fn unreadable_prompt_file_is_an_error() {
    let err = PromptSection::from_file("prompt.md", Err("not found".to_string())).unwrap_err();
    assert_eq!(
        err,
        PromptError::LoadFile {
            path: "prompt.md".to_string(),
            source: "not found".to_string(),
        }
    );
    assert_eq!(err.text(), "failed to read prompt file prompt.md: not found");
}

#[test]
fn render_unnamed_section_has_no_header() {
    let prompt = Prompt::builder()
        .section(PromptSection::new("hello"))
        .build();

    assert_eq!(prompt.render(), "hello\n\n");
}

#[test]
fn render_named_section_emits_h2_header() {
    let prompt = Prompt::builder()
        .section(PromptSection::with_name("Tone", "Be concise."))
        .build();

    assert_eq!(prompt.render(), "## Tone\n\nBe concise.\n\n");
}

#[test]
fn render_mixes_named_and_unnamed_sections() {
    let prompt = Prompt::builder()
        .section(PromptSection::new("preamble"))
        .section(PromptSection::with_name("Tone", "Be concise."))
        .build();

    assert_eq!(prompt.render(), "preamble\n\n## Tone\n\nBe concise.\n\n");
}

#[test]
fn prompt_token_count_matches_rendered_text_under_word_tokenizer() {
    let prompt = Prompt::builder()
        .section(PromptSection::with_name("Tone", "Be concise."))
        .section(PromptSection::new("preamble line"))
        .build();

    assert_eq!(prompt.token_count(&WordTokenizer), 6);
    let sec = PromptSection::with_name("Header", "body of section");
    assert_eq!(sec.token_count(&WordTokenizer), 3);
}

#[test]
fn display_matches_render() {
    let prompt = Prompt::builder()
        .section(PromptSection::with_name("Tone", "Be concise."))
        .section(PromptSection::new("trailing"))
        .build();

    assert_eq!(prompt.text(), prompt.render());
}

#[test]
fn removing_takes_the_first_section_of_that_name() {
    let mut prompt = Prompt::from("head");
    prompt.add_section(PromptSection::with_name("A", "1"));
    prompt.add_section(PromptSection::with_name("A", "2"));
    prompt.remove_section("B");
    assert_eq!(prompt.sections().len(), 3);
    prompt.remove_section("A");
    assert_eq!(prompt.render(), "head\n\n## A\n\n2\n\n");
}

use ponderer::text::{chars_of, string_of};
use ponderer::ui::app::Rgb;
use ponderer::ui::prompt_sections::{
    classify_prompt_section, normalize_newlines, split, split_prompt_sections,
};

fn split_strings(text: &str, separator: &str) -> Vec<String> {
    split(&chars_of(text), &chars_of(separator)).iter().map(string_of).collect()
}

#[test]
fn newlines_are_normalized_as_by_replacing() {
    for sample in ["", "a", "a\r\nb", "\r\n", "\r\r\n", "a\rb", "a\n\rb", "\r\n\r\n", "x\r"] {
        let got = string_of(&normalize_newlines(&chars_of(sample)));
        assert_eq!(got, sample.replace("\r\n", "\n"), "{:?}", sample);
    }
}

#[test]
fn splitting_agrees_with_the_standard_library() {
    let samples = [
        ("", "--"),
        ("abc", "--"),
        ("a--b--c", "--"),
        ("--a--", "--"),
        ("a---b", "--"),
        ("----", "--"),
        ("aXbXc", "X"),
        ("one\n\n---\n\ntwo\n\n---\n\n", "\n\n---\n\n"),
        ("\n\n---\n\n", "\n\n---\n\n"),
    ];
    for (text, separator) in samples {
        let expected: Vec<String> = text.split(separator).map(|s| s.to_string()).collect();
        assert_eq!(split_strings(text, separator), expected, "{:?} by {:?}", text, separator);
    }
}

#[test]
fn sources_are_told_by_their_marks() {
    assert_eq!(
        classify_prompt_section("Concern Priority Context", ""),
        ("Concerns manager (DB)", Rgb { r: 230, g: 179, b: 90 })
    );
    assert_eq!(
        classify_prompt_section("Notes", "see the WORKING MEMORY below"),
        ("Working memory (DB)", Rgb { r: 130, g: 180, b: 255 })
    );
    assert_eq!(
        classify_prompt_section("Recent Conversation Context", ""),
        ("Recent chat history", Rgb { r: 120, g: 210, b: 170 })
    );
    assert_eq!(
        classify_prompt_section("Chat", "Recent private chat follows"),
        ("Recent chat history", Rgb { r: 120, g: 210, b: 170 })
    );
    assert_eq!(
        classify_prompt_section("Conversation Summary Snapshot", ""),
        ("Compaction summary", Rgb { r: 180, g: 160, b: 240 })
    );
    assert_eq!(
        classify_prompt_section("Recent Action Digest", ""),
        ("Action digest (chat turns)", Rgb { r: 255, g: 150, b: 120 })
    );
    assert_eq!(
        classify_prompt_section("Previous OODA Packet", ""),
        ("Previous OODA packet", Rgb { r: 255, g: 200, b: 120 })
    );
    assert_eq!(
        classify_prompt_section("OODA Context", ""),
        ("Orientation + decision context", Rgb { r: 140, g: 235, b: 140 })
    );
    assert_eq!(
        classify_prompt_section("New operator message", ""),
        ("Operator input", Rgb { r: 120, g: 200, b: 255 })
    );
    assert_eq!(
        classify_prompt_section("Autonomous continuation context", ""),
        ("Continuation hint", Rgb { r: 220, g: 220, b: 120 })
    );
    assert_eq!(
        classify_prompt_section("Something else", "conversation summary snapshot"),
        ("Additional context", Rgb { r: 170, g: 170, b: 170 })
    );
    assert_eq!(
        classify_prompt_section("ooda context", "working memory"),
        ("Working memory (DB)", Rgb { r: 130, g: 180, b: 255 })
    );
}

#[test]
fn prompt_is_cut_at_the_separator() {
    let prompt = "## Working Memory\r\nfact one\r\n\r\n---\r\n\r\n  New operator message  \nhello there\n\n---\n\n   \n\n---\n\nplain tail";
    let sections = split_prompt_sections(prompt);
    assert_eq!(sections.len(), 3);
    assert_eq!(sections[0].title, "## Working Memory");
    assert_eq!(sections[0].body, "## Working Memory\nfact one");
    assert_eq!(sections[0].source, "Working memory (DB)");
    assert_eq!(sections[0].color, Rgb { r: 130, g: 180, b: 255 });
    assert_eq!(sections[1].title, "New operator message");
    assert_eq!(sections[1].body, "New operator message  \nhello there");
    assert_eq!(sections[1].source, "Operator input");
    assert_eq!(sections[2].title, "plain tail");
    assert_eq!(sections[2].body, "plain tail");
    assert_eq!(sections[2].source, "Additional context");
    assert_eq!(sections[2].color, Rgb { r: 170, g: 170, b: 170 });
}

#[test]
fn blank_prompt_has_no_section() {
    assert!(split_prompt_sections("").is_empty());
    assert!(split_prompt_sections(" \r\n \n").is_empty());
}

#[test]
fn prompt_of_separators_only_is_one_section() {
    let sections = split_prompt_sections("\n\n---\n\n");
    assert_eq!(sections.len(), 1);
    assert_eq!(sections[0].title, "Prompt");
    assert_eq!(sections[0].body, "---");
    assert_eq!(sections[0].source, "Additional context");
}

#[test]
fn single_section_without_separator() {
    let sections = split_prompt_sections("  OODA context \n body ");
    assert_eq!(sections.len(), 1);
    assert_eq!(sections[0].title, "OODA context");
    assert_eq!(sections[0].body, "OODA context \n body");
    assert_eq!(sections[0].source, "Orientation + decision context");
}

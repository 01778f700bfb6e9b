//! How the prompt inspector cuts a stored prompt into sections and names
//! where each section comes from.

use vstd::prelude::*;
use crate::text::{
    chars_of, contains, contains_text, find_from, lower_text, occurs_at, slice_of, string_of,
    to_lower, trim_text, trimmed,
};
use crate::ui::app::{first_index_of, lemma_first_index_of, Rgb};

verus! {

/// One section of a prompt, with the part of the system it comes from.
#[derive(Debug, Clone)]
pub struct PromptSection {
    pub title: String,
    pub source: &'static str,
    pub color: Rgb,
    pub body: String,
}

/// The mathematical model of a [`PromptSection`].
pub struct PromptSectionView {
    pub title: Seq<char>,
    pub source: Seq<char>,
    pub color: Rgb,
    pub body: Seq<char>,
}

impl View for PromptSection {
    type V = PromptSectionView;

    open spec fn view(&self) -> PromptSectionView {
        PromptSectionView {
            title: self.title@,
            source: self.source@,
            color: self.color,
            body: self.body@,
        }
    }
}

impl DeepView for PromptSection {
    type V = PromptSectionView;

    open spec fn deep_view(&self) -> PromptSectionView {
        self@
    }
}

/// The line that separates two sections of a prompt.
pub open spec fn section_separator() -> Seq<char> {
    "\n\n---\n\n"@
}

/// Where a section comes from, and the colour it is shown in. The title and
/// the body count without regard to case; the first mark found decides.
pub open spec fn section_source(title: Seq<char>, body: Seq<char>) -> (Seq<char>, Rgb) {
    let title = lower_text(title);
    let body = lower_text(body);
    if contains_text(title, "concern priority context"@) || contains_text(
        body,
        "concern priority context"@,
    ) {
        ("Concerns manager (DB)"@, Rgb { r: 230, g: 179, b: 90 })
    } else if contains_text(title, "working memory"@) || contains_text(body, "working memory"@) {
        ("Working memory (DB)"@, Rgb { r: 130, g: 180, b: 255 })
    } else if contains_text(title, "recent conversation context"@) || contains_text(
        body,
        "recent private chat"@,
    ) {
        ("Recent chat history"@, Rgb { r: 120, g: 210, b: 170 })
    } else if contains_text(title, "conversation summary snapshot"@) {
        ("Compaction summary"@, Rgb { r: 180, g: 160, b: 240 })
    } else if contains_text(title, "recent action digest"@) {
        ("Action digest (chat turns)"@, Rgb { r: 255, g: 150, b: 120 })
    } else if contains_text(title, "previous ooda packet"@) {
        ("Previous OODA packet"@, Rgb { r: 255, g: 200, b: 120 })
    } else if contains_text(title, "ooda context"@) {
        ("Orientation + decision context"@, Rgb { r: 140, g: 235, b: 140 })
    } else if contains_text(title, "new operator message"@) {
        ("Operator input"@, Rgb { r: 120, g: 200, b: 255 })
    } else if contains_text(title, "autonomous continuation context"@) {
        ("Continuation hint"@, Rgb { r: 220, g: 220, b: 120 })
    } else {
        ("Additional context"@, Rgb { r: 170, g: 170, b: 170 })
    }
}

/// A text with every carriage return that stands before a line feed taken
/// out, read from left to right.
pub open spec fn normalized_newlines(text: Seq<char>) -> Seq<char>
    decreases text.len(),
{
    if text.len() == 0 {
        text
    } else if text.len() >= 2 && text[0] == '\r' && text[1] == '\n' {
        seq!['\n'] + normalized_newlines(text.skip(2))
    } else {
        seq![text[0]] + normalized_newlines(text.skip(1))
    }
}

/// The position at which `part` first stands in `text`, if anywhere.
pub open spec fn first_match(text: Seq<char>, part: Seq<char>) -> Option<int>
    decreases text.len(),
{
    if occurs_at(text, part, 0) {
        Some(0)
    } else if text.len() == 0 {
        None
    } else {
        match first_match(text.skip(1), part) {
            Some(at) => Some(at + 1),
            None => None,
        }
    }
}

/// The pieces of `text` between the places where `separator` stands, found
/// from left to right without overlap. A text without the separator is one
/// piece.
pub open spec fn split_text(text: Seq<char>, separator: Seq<char>) -> Seq<Seq<char>>
    recommends
        separator.len() > 0,
    decreases text.len(),
{
    match first_match(text, separator) {
        Some(at) => if separator.len() > 0 && 0 <= at && at + separator.len() <= text.len() {
            seq![text.take(at)] + split_text(text.skip(at + separator.len()), separator)
        } else {
            seq![text]
        },
        None => seq![text],
    }
}

/// The title of a section: its first line without the white space around
/// it, or `Context` where that is empty.
pub open spec fn section_title(body: Seq<char>) -> Seq<char> {
    let line = trim_text(body.take(first_index_of(body, '\n')));
    if line.len() == 0 {
        "Context"@
    } else {
        line
    }
}

/// The section with the given title and body.
pub open spec fn section_with(title: Seq<char>, body: Seq<char>) -> PromptSectionView {
    PromptSectionView {
        title,
        source: section_source(title, body).0,
        color: section_source(title, body).1,
        body,
    }
}

/// The sections that a list of pieces gives: each piece counts without the
/// white space around it, and an empty piece gives no section.
pub open spec fn sections_of(pieces: Seq<Seq<char>>) -> Seq<PromptSectionView>
    decreases pieces.len(),
{
    if pieces.len() == 0 {
        Seq::empty()
    } else {
        let body = trim_text(pieces.last());
        let earlier = sections_of(pieces.drop_last());
        if body.len() == 0 {
            earlier
        } else {
            earlier.push(section_with(section_title(body), body))
        }
    }
}

/// The sections of a prompt. Line ends are normalized first, and the prompt
/// is cut at the separator. A prompt that gives no section this way but is
/// not blank is one section titled `Prompt`.
pub open spec fn prompt_sections(prompt: Seq<char>) -> Seq<PromptSectionView> {
    let text = normalized_newlines(prompt);
    let found = sections_of(split_text(text, section_separator()));
    if found.len() == 0 && trim_text(text).len() > 0 {
        seq![section_with("Prompt"@, trim_text(text))]
    } else {
        found
    }
}

fn classify(title: &Vec<char>, body: &Vec<char>) -> (r: (&'static str, Rgb))
    ensures
        r.0@ == section_source(title@, body@).0,
        r.1 == section_source(title@, body@).1,
{
    let title = to_lower(title);
    let body = to_lower(body);
    if contains(&title, "concern priority context") || contains(
        &body,
        "concern priority context",
    ) {
        ("Concerns manager (DB)", Rgb { r: 230, g: 179, b: 90 })
    } else if contains(&title, "working memory") || contains(&body, "working memory") {
        ("Working memory (DB)", Rgb { r: 130, g: 180, b: 255 })
    } else if contains(&title, "recent conversation context") || contains(
        &body,
        "recent private chat",
    ) {
        ("Recent chat history", Rgb { r: 120, g: 210, b: 170 })
    } else if contains(&title, "conversation summary snapshot") {
        ("Compaction summary", Rgb { r: 180, g: 160, b: 240 })
    } else if contains(&title, "recent action digest") {
        ("Action digest (chat turns)", Rgb { r: 255, g: 150, b: 120 })
    } else if contains(&title, "previous ooda packet") {
        ("Previous OODA packet", Rgb { r: 255, g: 200, b: 120 })
    } else if contains(&title, "ooda context") {
        ("Orientation + decision context", Rgb { r: 140, g: 235, b: 140 })
    } else if contains(&title, "new operator message") {
        ("Operator input", Rgb { r: 120, g: 200, b: 255 })
    } else if contains(&title, "autonomous continuation context") {
        ("Continuation hint", Rgb { r: 220, g: 220, b: 120 })
    } else {
        ("Additional context", Rgb { r: 170, g: 170, b: 170 })
    }
}

/// Names where a section comes from, and the colour it is shown in.
pub fn classify_prompt_section(title: &str, body: &str) -> (r: (&'static str, Rgb))
    ensures
        r.0@ == section_source(title@, body@).0,
        r.1 == section_source(title@, body@).1,
{
    classify(&chars_of(title), &chars_of(body))
}

/// Takes out every carriage return that stands before a line feed.
pub fn normalize_newlines(text: &Vec<char>) -> (r: Vec<char>)
    ensures
        r@ == normalized_newlines(text@),
{
    let mut out: Vec<char> = Vec::new();
    let mut i: usize = 0;
    assert(text@.skip(0) =~= text@);
    while i < text.len()
        invariant
            i <= text.len(),
            normalized_newlines(text@) == out@ + normalized_newlines(text@.skip(i as int)),
        decreases text.len() - i,
    {
        let ghost rest = text@.skip(i as int);
        let ghost before = out@;
        if text[i] == '\r' && i + 1 < text.len() && text[i + 1] == '\n' {
            out.push('\n');
            i += 2;
            assert(rest.skip(2) =~= text@.skip(i as int));
            assert(before + (seq!['\n'] + normalized_newlines(rest.skip(2))) =~= out@
                + normalized_newlines(rest.skip(2)));
        } else {
            out.push(text[i]);
            i += 1;
            assert(rest.skip(1) =~= text@.skip(i as int));
            assert(before + (seq![rest[0]] + normalized_newlines(rest.skip(1))) =~= out@
                + normalized_newlines(rest.skip(1)));
        }
    }
    assert(out@ + normalized_newlines(text@.skip(i as int)) =~= out@);
    out
}

proof fn lemma_first_match(text: Seq<char>, part: Seq<char>, at: int)
    requires
        0 <= at,
        forall|i: int| 0 <= i < at ==> !occurs_at(text, part, i),
        occurs_at(text, part, at),
    ensures
        first_match(text, part) == Some(at),
    decreases at,
{
    if at > 0 {
        let rest = text.skip(1);
        assert forall|i: int| 0 <= i < at - 1 implies !occurs_at(rest, part, i) by {
            if occurs_at(rest, part, i) {
                assert(text.subrange(i + 1, i + 1 + part.len()) =~= rest.subrange(
                    i,
                    i + part.len(),
                ));
                assert(occurs_at(text, part, i + 1));
            }
        }
        assert(rest.subrange(at - 1, at - 1 + part.len()) =~= text.subrange(
            at,
            at + part.len(),
        ));
        lemma_first_match(rest, part, at - 1);
    }
}

proof fn lemma_no_match(text: Seq<char>, part: Seq<char>)
    requires
        forall|i: int| 0 <= i ==> !occurs_at(text, part, i),
    ensures
        first_match(text, part) is None,
    decreases text.len(),
{
    if text.len() > 0 {
        let rest = text.skip(1);
        assert forall|i: int| 0 <= i implies !occurs_at(rest, part, i) by {
            if occurs_at(rest, part, i) {
                assert(text.subrange(i + 1, i + 1 + part.len()) =~= rest.subrange(
                    i,
                    i + part.len(),
                ));
                assert(occurs_at(text, part, i + 1));
            }
        }
        lemma_no_match(rest, part);
    }
}

proof fn lemma_occurs_in_rest(text: Seq<char>, part: Seq<char>, from: int, at: int)
    requires
        0 <= from <= text.len(),
        0 <= at,
    ensures
        occurs_at(text.skip(from), part, at) == occurs_at(text, part, from + at),
{
    if from + at + part.len() <= text.len() {
        assert(text.skip(from).subrange(at, at + part.len()) =~= text.subrange(
            from + at,
            from + at + part.len(),
        ));
    }
}

/// The texts that a list of pieces holds.
pub open spec fn texts_of(pieces: Seq<Vec<char>>) -> Seq<Seq<char>> {
    Seq::new(pieces.len(), |i: int| pieces[i]@)
}

/// Cuts a text at every place where `separator` stands.
pub fn split(text: &Vec<char>, separator: &Vec<char>) -> (r: Vec<Vec<char>>)
    requires
        separator.len() > 0,
    ensures
        texts_of(r@) == split_text(text@, separator@),
{
    let mut pieces: Vec<Vec<char>> = Vec::new();
    let mut from: usize = 0;
    assert(text@.skip(0) =~= text@);
    assert(texts_of(pieces@) + split_text(text@.skip(0), separator@) =~= split_text(
        text@,
        separator@,
    ));
    loop
        invariant_except_break
            from <= text.len(),
            separator.len() > 0,
            split_text(text@, separator@) == texts_of(pieces@) + split_text(
                text@.skip(from as int),
                separator@,
            ),
        ensures
            texts_of(pieces@) == split_text(text@, separator@),
        decreases text.len() - from,
    {
        let ghost rest = text@.skip(from as int);
        let ghost done = texts_of(pieces@);
        let ghost start = from as int;
        match find_from(text, separator, from) {
            Some(at) => {
                proof {
                    assert forall|i: int| 0 <= i < at - from implies !occurs_at(
                        rest,
                        separator@,
                        i,
                    ) by {
                        lemma_occurs_in_rest(text@, separator@, from as int, i);
                    }
                    lemma_occurs_in_rest(text@, separator@, from as int, at - from);
                    lemma_first_match(rest, separator@, at - from);
                }
                let piece = slice_of(text, from, at);
                assert(piece@ =~= rest.take(at - from));
                pieces.push(piece);
                from = at + separator.len();
                proof {
                    assert(rest.skip(at - start + separator@.len()) =~= text@.skip(from as int));
                    assert(texts_of(pieces@) =~= done.push(piece@));
                    assert(done + (seq![piece@] + split_text(text@.skip(from as int), separator@))
                        =~= texts_of(pieces@) + split_text(text@.skip(from as int), separator@));
                }
            },
            None => {
                proof {
                    assert forall|i: int| 0 <= i implies !occurs_at(rest, separator@, i) by {
                        lemma_occurs_in_rest(text@, separator@, from as int, i);
                    }
                    lemma_no_match(rest, separator@);
                }
                let piece = slice_of(text, from, text.len());
                assert(piece@ =~= rest);
                pieces.push(piece);
                proof {
                    assert(texts_of(pieces@) =~= done.push(piece@));
                    assert(done + seq![rest] =~= texts_of(pieces@));
                }
                break;
            },
        }
    }
    pieces
}

fn title_of(body: &Vec<char>) -> (r: Vec<char>)
    ensures
        r@ == section_title(body@),
{
    let mut end: usize = 0;
    while end < body.len() && body[end] != '\n'
        invariant
            end <= body.len(),
            forall|i: int| 0 <= i < end ==> body@[i] != '\n',
        decreases body.len() - end,
    {
        end += 1;
    }
    proof {
        lemma_first_index_of(body@, '\n', end as int);
    }
    let first = slice_of(body, 0, end);
    assert(first@ =~= body@.take(end as int));
    let line = trimmed(&first);
    if line.len() == 0 {
        chars_of("Context")
    } else {
        line
    }
}

fn section(title: &Vec<char>, body: &Vec<char>) -> (r: PromptSection)
    ensures
        r@ == section_with(title@, body@),
{
    let (source, color) = classify(title, body);
    PromptSection { title: string_of(title), source, color, body: string_of(body) }
}

/// Cuts a prompt into its sections.
pub fn split_prompt_sections(prompt: &str) -> (r: Vec<PromptSection>)
    ensures
        r.deep_view() == prompt_sections(prompt@),
{
    let text = normalize_newlines(&chars_of(prompt));
    let separator = chars_of("\n\n---\n\n");
    proof {
        reveal_strlit("\n\n---\n\n");
    }
    let pieces = split(&text, &separator);
    let mut sections: Vec<PromptSection> = Vec::new();
    let mut i: usize = 0;
    assert(texts_of(pieces@).take(0) =~= Seq::empty());
    assert(sections.deep_view() =~= Seq::empty());
    while i < pieces.len()
        invariant
            i <= pieces.len(),
            sections.deep_view() == sections_of(texts_of(pieces@).take(i as int)),
        decreases pieces.len() - i,
    {
        let ghost before = sections.deep_view();
        let ghost taken = texts_of(pieces@).take(i + 1);
        assert(taken.drop_last() =~= texts_of(pieces@).take(i as int));
        assert(taken.last() == pieces@[i as int]@);
        let body = trimmed(&pieces[i]);
        if body.len() > 0 {
            let title = title_of(&body);
            let entry = section(&title, &body);
            sections.push(entry);
            assert(sections.deep_view() =~= before.push(entry@));
        }
        i += 1;
    }
    assert(texts_of(pieces@).take(pieces.len() as int) =~= texts_of(pieces@));
    if sections.len() == 0 {
        let body = trimmed(&text);
        if body.len() > 0 {
            let title = chars_of("Prompt");
            let entry = section(&title, &body);
            let ghost before = sections.deep_view();
            sections.push(entry);
            assert(sections.deep_view() =~= seq![entry@]);
        }
    }
    sections
}

} // verus!

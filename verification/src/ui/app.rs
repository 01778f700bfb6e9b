//! How the main window words what it shows: conversation labels, shortened
//! previews, the badges of tools, and the live log of a running turn.

use vstd::prelude::*;
use vstd::string::StringExecFns;
use crate::text::{
    chars_of, contains, contains_text, decimal, decimal_text, lower_text, slice_of, starts_with,
    starts_with_text, string_of, to_lower, trim_bounds, trim_start_index, trim_start_text,
    trim_text,
};

verus! {

/// The most entries that the live log of tool progress keeps.
pub const MAX_LIVE_TOOL_PROGRESS_LINES: usize = 200;

/// Where a conversation's current turn stands.
#[derive(Debug, Clone, Copy, PartialEq, Eq, Structural)]
pub enum ChatTurnPhase {
    Idle,
    Processing,
    Completed,
    AwaitingApproval,
    Failed,
}

/// A conversation as the picker lists it.
#[derive(Debug, Clone)]
pub struct ChatConversation {
    pub id: String,
    pub title: String,
    pub message_count: usize,
    pub runtime_state: ChatTurnPhase,
}

/// A colour by its red, green and blue parts.
#[derive(Debug, Clone, Copy, PartialEq, Eq, Structural)]
pub struct Rgb {
    pub r: u8,
    pub g: u8,
    pub b: u8,
}

/// One line of the live log: a tool at work in a conversation.
#[derive(Debug, Clone)]
pub struct LiveToolProgress {
    pub conversation_id: String,
    pub tool_name: String,
    pub output_preview: String,
    pub subtask_id: Option<String>,
}

/// The mathematical model of a [`LiveToolProgress`].
pub struct LiveToolProgressView {
    pub conversation_id: Seq<char>,
    pub tool_name: Seq<char>,
    pub output_preview: Seq<char>,
    pub subtask_id: Option<Seq<char>>,
}

impl View for LiveToolProgress {
    type V = LiveToolProgressView;

    open spec fn view(&self) -> LiveToolProgressView {
        LiveToolProgressView {
            conversation_id: self.conversation_id@,
            tool_name: self.tool_name@,
            output_preview: self.output_preview@,
            subtask_id: self.subtask_id.deep_view(),
        }
    }
}

impl DeepView for LiveToolProgress {
    type V = LiveToolProgressView;

    open spec fn deep_view(&self) -> LiveToolProgressView {
        self@
    }
}

/// What follows a conversation's label for the state of its turn.
pub open spec fn status_suffix(phase: ChatTurnPhase) -> Seq<char> {
    match phase {
        ChatTurnPhase::Idle => ""@,
        ChatTurnPhase::Processing => " \u{b7} processing"@,
        ChatTurnPhase::Completed => " \u{b7} done"@,
        ChatTurnPhase::AwaitingApproval => " \u{b7} awaiting input"@,
        ChatTurnPhase::Failed => " \u{b7} failed"@,
    }
}

/// The label of a conversation: its title, the number of its messages in
/// brackets unless it has none, and the state of its turn unless it is idle.
pub open spec fn display_label(title: Seq<char>, message_count: nat, phase: ChatTurnPhase) -> Seq<
    char,
> {
    let base = if message_count == 0 {
        title
    } else {
        title + " ("@ + decimal_text(message_count) + ")"@
    };
    base + status_suffix(phase)
}

/// A text cut to at most `max_chars` characters, with an ellipsis in place
/// of what was cut.
pub open spec fn truncated_text(text: Seq<char>, max_chars: nat) -> Seq<char> {
    if text.len() <= max_chars {
        text
    } else {
        text.take(max_chars as int).push('\u{2026}')
    }
}

/// The last `n` characters of a text, or all of it where it has no more.
pub open spec fn last_chars(text: Seq<char>, n: nat) -> Seq<char> {
    if text.len() <= n {
        text
    } else {
        text.skip(text.len() - n)
    }
}

/// The position of the first `c` in `text`, or the length of `text` where
/// there is none.
pub open spec fn first_index_of(text: Seq<char>, c: char) -> int
    decreases text.len(),
{
    if text.len() == 0 || text[0] == c {
        0
    } else {
        1 + first_index_of(text.skip(1), c)
    }
}

/// The subtask id that a line of tool output starts with: after optional
/// white space an opening bracket, the id, and a closing bracket. The id
/// counts without the white space around it; an empty id is none.
pub open spec fn subtask_id_of(output: Seq<char>) -> Option<Seq<char>> {
    let line = trim_start_text(output);
    if line.len() == 0 || line[0] != '[' {
        None
    } else {
        let body = line.skip(1);
        let end = first_index_of(body, ']');
        if end == body.len() {
            None
        } else {
            let id = trim_text(body.take(end));
            if id.len() == 0 {
                None
            } else {
                Some(id)
            }
        }
    }
}

/// The colour of the badge of a tool, chosen by its name without regard to
/// case: the first group whose mark the name carries decides.
pub open spec fn badge_colour(tool_name: Seq<char>) -> Rgb {
    let name = lower_text(tool_name);
    if starts_with_text(name, "shell"@) || contains_text(name, "run_command"@) || contains_text(
        name,
        "bash"@,
    ) {
        Rgb { r: 255, g: 200, b: 60 }
    } else if contains_text(name, "file"@) || starts_with_text(name, "read"@) || starts_with_text(
        name,
        "write"@,
    ) {
        Rgb { r: 100, g: 160, b: 255 }
    } else if starts_with_text(name, "http"@) || starts_with_text(name, "web"@)
        || starts_with_text(name, "fetch"@) {
        Rgb { r: 200, g: 100, b: 255 }
    } else if starts_with_text(name, "memory"@) || starts_with_text(name, "recall"@)
        || starts_with_text(name, "remember"@) {
        Rgb { r: 80, g: 220, b: 130 }
    } else if starts_with_text(name, "comfy"@) || contains_text(name, "generate"@)
        || contains_text(name, "image"@) {
        Rgb { r: 255, g: 140, b: 70 }
    } else if starts_with_text(name, "vision"@) || contains_text(name, "camera"@) || contains_text(
        name,
        "screen"@,
    ) {
        Rgb { r: 255, g: 100, b: 150 }
    } else {
        Rgb { r: 180, g: 180, b: 180 }
    }
}

/// The live log after a new line: the line is added at the end, and the
/// oldest lines leave so that no more than the limit stay.
pub open spec fn capped_log(log: Seq<LiveToolProgressView>) -> Seq<LiveToolProgressView> {
    if log.len() > MAX_LIVE_TOOL_PROGRESS_LINES {
        log.skip(log.len() - MAX_LIVE_TOOL_PROGRESS_LINES)
    } else {
        log
    }
}

/// The label under which the picker shows a conversation.
pub fn conversation_display_label(conversation: &ChatConversation) -> (r: String)
    ensures
        r@ == display_label(
            conversation.title@,
            conversation.message_count as nat,
            conversation.runtime_state,
        ),
{
    let base = if conversation.message_count == 0 {
        conversation.title.clone()
    } else {
        let count = decimal(conversation.message_count);
        conversation.title.clone().concat(" (").concat(count.as_str()).concat(")")
    };
    let suffix = match conversation.runtime_state {
        ChatTurnPhase::Idle => "",
        ChatTurnPhase::Processing => " \u{b7} processing",
        ChatTurnPhase::Completed => " \u{b7} done",
        ChatTurnPhase::AwaitingApproval => " \u{b7} awaiting input",
        ChatTurnPhase::Failed => " \u{b7} failed",
    };
    base.concat(suffix)
}

/// Cuts a text to at most `max_chars` characters, with an ellipsis in place
/// of what was cut.
pub fn truncate_str(text: &str, max_chars: usize) -> (r: String)
    ensures
        r@ == truncated_text(text@, max_chars as nat),
{
    let chars = chars_of(text);
    if chars.len() <= max_chars {
        string_of(&chars)
    } else {
        let mut kept = slice_of(&chars, 0, max_chars);
        kept.push('\u{2026}');
        assert(chars@.subrange(0, max_chars as int) =~= chars@.take(max_chars as int));
        string_of(&kept)
    }
}

/// The last `n` characters of a text.
pub fn last_n_chars(text: &str, n: usize) -> (r: String)
    ensures
        r@ == last_chars(text@, n as nat),
{
    let chars = chars_of(text);
    if chars.len() <= n {
        string_of(&chars)
    } else {
        let tail = slice_of(&chars, chars.len() - n, chars.len());
        assert(chars@.subrange(chars.len() - n, chars.len() as int) =~= chars@.skip(
            chars.len() - n,
        ));
        string_of(&tail)
    }
}

/// The first position of a character is the one before which it does not
/// stand and at which it does.
pub proof fn lemma_first_index_of(text: Seq<char>, c: char, at: int)
    requires
        0 <= at <= text.len(),
        forall|i: int| 0 <= i < at ==> text[i] != c,
        at < text.len() ==> text[at] == c,
    ensures
        first_index_of(text, c) == at,
    decreases at,
{
    if at > 0 {
        assert forall|i: int| 0 <= i < at - 1 implies text.skip(1)[i] != c by {
            assert(text.skip(1)[i] == text[i + 1]);
        }
        lemma_first_index_of(text.skip(1), c, at - 1);
    }
}

/// Reads the subtask id that a line of tool output starts with.
pub fn parse_subtask_id(output: &str) -> (r: Option<String>)
    ensures
        r.deep_view() == subtask_id_of(output@),
{
    let chars = chars_of(output);
    let start = trim_start_index(&chars);
    if start >= chars.len() || chars[start] != '[' {
        return None;
    }
    let body = slice_of(&chars, start + 1, chars.len());
    assert(body@ =~= chars@.skip(start as int).skip(1));
    let mut end: usize = 0;
    while end < body.len() && body[end] != ']'
        invariant
            end <= body.len(),
            forall|i: int| 0 <= i < end ==> body@[i] != ']',
        decreases body.len() - end,
    {
        end += 1;
    }
    proof {
        lemma_first_index_of(body@, ']', end as int);
    }
    if end == body.len() {
        return None;
    }
    let inner = slice_of(&body, 0, end);
    assert(inner@ =~= body@.take(end as int));
    let (from, to) = trim_bounds(&inner);
    if from == to {
        None
    } else {
        let id = slice_of(&inner, from, to);
        Some(string_of(&id))
    }
}

/// The colour of the badge of a tool.
pub fn tool_badge_color(tool_name: &str) -> (r: Rgb)
    ensures
        r == badge_colour(tool_name@),
{
    let name = to_lower(&chars_of(tool_name));
    if starts_with(&name, "shell") || contains(&name, "run_command") || contains(&name, "bash") {
        Rgb { r: 255, g: 200, b: 60 }
    } else if contains(&name, "file") || starts_with(&name, "read") || starts_with(
        &name,
        "write",
    ) {
        Rgb { r: 100, g: 160, b: 255 }
    } else if starts_with(&name, "http") || starts_with(&name, "web") || starts_with(
        &name,
        "fetch",
    ) {
        Rgb { r: 200, g: 100, b: 255 }
    } else if starts_with(&name, "memory") || starts_with(&name, "recall") || starts_with(
        &name,
        "remember",
    ) {
        Rgb { r: 80, g: 220, b: 130 }
    } else if starts_with(&name, "comfy") || contains(&name, "generate") || contains(
        &name,
        "image",
    ) {
        Rgb { r: 255, g: 140, b: 70 }
    } else if starts_with(&name, "vision") || contains(&name, "camera") || contains(
        &name,
        "screen",
    ) {
        Rgb { r: 255, g: 100, b: 150 }
    } else {
        Rgb { r: 180, g: 180, b: 180 }
    }
}

/// Adds a line to the live log and drops the oldest lines beyond the limit.
pub fn push_live_tool_progress(
    log: &mut Vec<LiveToolProgress>,
    conversation_id: &str,
    tool_name: &str,
    output: &str,
)
    ensures
        final(log).deep_view() == capped_log(
            old(log).deep_view().push(
                LiveToolProgressView {
                    conversation_id: conversation_id@,
                    tool_name: tool_name@,
                    output_preview: output@,
                    subtask_id: subtask_id_of(output@),
                },
            ),
        ),
{
    let entry = LiveToolProgress {
        conversation_id: String::from_str(conversation_id),
        tool_name: String::from_str(tool_name),
        output_preview: String::from_str(output),
        subtask_id: parse_subtask_id(output),
    };
    let ghost grown = log.deep_view().push(entry@);
    log.push(entry);
    assert(log.deep_view() =~= grown);
    while log.len() > MAX_LIVE_TOOL_PROGRESS_LINES
        invariant
            log.len() <= grown.len(),
            grown.len() > MAX_LIVE_TOOL_PROGRESS_LINES ==> log.len()
                >= MAX_LIVE_TOOL_PROGRESS_LINES,
            grown.len() <= MAX_LIVE_TOOL_PROGRESS_LINES ==> log.len() == grown.len(),
            log.deep_view() == grown.skip(grown.len() - log.len()),
        decreases log.len(),
    {
        let ghost before = log.deep_view();
        log.remove(0);
        assert(log.deep_view() =~= before.skip(1));
        assert(before.skip(1) =~= grown.skip(grown.len() - log.len()));
    }
    assert(grown.skip(0) =~= grown);
}

/// The live log without the lines of one conversation.
pub open spec fn log_without(
    log: Seq<LiveToolProgressView>,
    conversation_id: Seq<char>,
) -> Seq<LiveToolProgressView>
    decreases log.len(),
{
    if log.len() == 0 {
        log
    } else if log.last().conversation_id == conversation_id {
        log_without(log.drop_last(), conversation_id)
    } else {
        log_without(log.drop_last(), conversation_id).push(log.last())
    }
}

impl LiveToolProgress {
    /// A copy of this line.
    pub fn duplicate(&self) -> (r: LiveToolProgress)
        ensures
            r@ == self@,
    {
        let subtask_id = match &self.subtask_id {
            Some(id) => Some(id.clone()),
            None => None,
        };
        LiveToolProgress {
            conversation_id: self.conversation_id.clone(),
            tool_name: self.tool_name.clone(),
            output_preview: self.output_preview.clone(),
            subtask_id,
        }
    }
}

/// Drops the lines of one conversation from the live log.
pub fn clear_live_tool_progress(log: &mut Vec<LiveToolProgress>, conversation_id: &str)
    ensures
        final(log).deep_view() == log_without(old(log).deep_view(), conversation_id@),
{
    let wanted = String::from_str(conversation_id);
    let mut kept: Vec<LiveToolProgress> = Vec::new();
    let mut i: usize = 0;
    assert(log.deep_view().take(0) =~= Seq::empty());
    assert(kept.deep_view() =~= Seq::empty());
    while i < log.len()
        invariant
            i <= log.len(),
            wanted@ == conversation_id@,
            kept.deep_view() == log_without(log.deep_view().take(i as int), conversation_id@),
        decreases log.len() - i,
    {
        let ghost before = kept.deep_view();
        let ghost taken = log.deep_view().take(i + 1);
        assert(taken.drop_last() =~= log.deep_view().take(i as int));
        assert(taken.last() == log@[i as int]@);
        if log[i].conversation_id != wanted {
            let entry = log[i].duplicate();
            kept.push(entry);
            assert(kept.deep_view() =~= before.push(entry@));
        }
        i += 1;
    }
    assert(log.deep_view().take(log.len() as int) =~= log.deep_view());
    *log = kept;
}

/// Whether one of the conversations has the given id.
pub open spec fn lists_conversation(conversations: Seq<ChatConversation>, id: Seq<char>) -> bool {
    exists|i: int| 0 <= i < conversations.len() && (#[trigger] conversations[i]).id@ == id
}

/// The conversation that is active once the list has been read anew: the
/// one that was active if it is still listed, else the first of the list,
/// else the fallback.
pub open spec fn active_after_refresh(
    conversations: Seq<ChatConversation>,
    active: Seq<char>,
    fallback: Seq<char>,
) -> Seq<char> {
    if lists_conversation(conversations, active) {
        active
    } else if conversations.len() > 0 {
        conversations[0].id@
    } else {
        fallback
    }
}

/// Picks the active conversation after the list has been read anew.
pub fn resolve_active_conversation(
    conversations: &Vec<ChatConversation>,
    active: &str,
    fallback: &str,
) -> (r: String)
    ensures
        r@ == active_after_refresh(conversations@, active@, fallback@),
{
    let wanted = String::from_str(active);
    let mut i: usize = 0;
    while i < conversations.len()
        invariant
            i <= conversations.len(),
            wanted@ == active@,
            forall|j: int| 0 <= j < i ==> (#[trigger] conversations@[j]).id@ != active@,
        decreases conversations.len() - i,
    {
        if conversations[i].id == wanted {
            return wanted;
        }
        i += 1;
    }
    if conversations.len() > 0 {
        conversations[0].id.clone()
    } else {
        String::from_str(fallback)
    }
}

/// Whether a request for the given tool is already waiting.
pub open spec fn approval_pending(pending: Seq<(String, String)>, tool_name: Seq<char>) -> bool {
    exists|i: int| 0 <= i < pending.len() && (#[trigger] pending[i]).0@ == tool_name
}

/// The texts of the waiting approval requests: tool and reason.
pub open spec fn approvals_of(pending: Seq<(String, String)>) -> Seq<(Seq<char>, Seq<char>)> {
    Seq::new(pending.len(), |i: int| (pending[i].0@, pending[i].1@))
}

/// Notes a request for approval, unless one for the same tool is already
/// waiting.
pub fn note_approval_request(pending: &mut Vec<(String, String)>, tool_name: &str, reason: &str)
    ensures
        approval_pending(old(pending)@, tool_name@) ==> approvals_of(final(pending)@)
            == approvals_of(old(pending)@),
        !approval_pending(old(pending)@, tool_name@) ==> approvals_of(final(pending)@)
            == approvals_of(old(pending)@).push((tool_name@, reason@)),
{
    let wanted = String::from_str(tool_name);
    let mut i: usize = 0;
    while i < pending.len()
        invariant
            i <= pending.len(),
            wanted@ == tool_name@,
            *pending == *old(pending),
            forall|j: int| 0 <= j < i ==> (#[trigger] pending@[j]).0@ != tool_name@,
        decreases pending.len() - i,
    {
        if pending[i].0 == wanted {
            return ;
        }
        i += 1;
    }
    let ghost before = approvals_of(pending@);
    pending.push((wanted, String::from_str(reason)));
    assert(approvals_of(pending@) =~= before.push((tool_name@, reason@)));
}

/// The text of a reply that is still being streamed, for one conversation.
#[derive(Debug, Clone)]
pub struct StreamingChatPreview {
    pub conversation_id: String,
    pub content: String,
}

/// The mathematical model of a [`StreamingChatPreview`].
pub struct StreamingChatPreviewView {
    pub conversation_id: Seq<char>,
    pub content: Seq<char>,
}

impl View for StreamingChatPreview {
    type V = StreamingChatPreviewView;

    open spec fn view(&self) -> StreamingChatPreviewView {
        StreamingChatPreviewView { conversation_id: self.conversation_id@, content: self.content@ }
    }
}

impl DeepView for StreamingChatPreview {
    type V = StreamingChatPreviewView;

    open spec fn deep_view(&self) -> StreamingChatPreviewView {
        self@
    }
}

/// The preview after a piece of a streamed reply. The end of a stream with
/// nothing to show takes the preview of its conversation away and leaves
/// that of another; anything else becomes the preview.
pub open spec fn preview_after(
    current: Option<StreamingChatPreviewView>,
    conversation_id: Seq<char>,
    content: Seq<char>,
    done: bool,
) -> Option<StreamingChatPreviewView> {
    if done && trim_text(content).len() == 0 {
        match current {
            Some(preview) => if preview.conversation_id == conversation_id {
                None
            } else {
                current
            },
            None => None,
        }
    } else {
        Some(StreamingChatPreviewView { conversation_id, content })
    }
}

/// The text of the live stream after a piece of a streamed reply: none once
/// the stream is done, the piece where it shows anything, else what it was.
pub open spec fn live_text_after(current: Option<Seq<char>>, content: Seq<char>, done: bool)
    -> Option<Seq<char>> {
    if done {
        None
    } else if trim_text(content).len() > 0 {
        Some(content)
    } else {
        current
    }
}

fn is_blank_text(text: &str) -> (r: bool)
    ensures
        r == (trim_text(text@).len() == 0),
{
    let chars = chars_of(text);
    let (start, end) = trim_bounds(&chars);
    start == end
}

/// Updates the preview for a piece of a streamed reply.
pub fn streaming_preview_after(
    current: Option<StreamingChatPreview>,
    conversation_id: &str,
    content: &str,
    done: bool,
) -> (r: Option<StreamingChatPreview>)
    ensures
        r.deep_view() == preview_after(current.deep_view(), conversation_id@, content@, done),
{
    if done && is_blank_text(content) {
        match current {
            Some(preview) => {
                if preview.conversation_id == String::from_str(conversation_id) {
                    None
                } else {
                    Some(preview)
                }
            },
            None => None,
        }
    } else {
        Some(
            StreamingChatPreview {
                conversation_id: String::from_str(conversation_id),
                content: String::from_str(content),
            },
        )
    }
}

/// Updates the text of the live stream for a piece of a streamed reply.
pub fn live_stream_after(current: Option<String>, content: &str, done: bool) -> (r: Option<String>)
    ensures
        r.deep_view() == live_text_after(current.deep_view(), content@, done),
{
    if done {
        None
    } else if !is_blank_text(content) {
        Some(String::from_str(content))
    } else {
        current
    }
}

} // verus!

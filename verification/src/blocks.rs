//! Blocks of the terminal's history: a command with its output and outcome, or a piece
//! of Markdown. Instants are milliseconds since the Unix epoch.
use vstd::prelude::*;
use crate::clock::{clock_text, clock_text_of, local_offset_seconds, now_millis, MAX_LOCAL_MILLIS, MIN_LOCAL_MILLIS};
use crate::shell::ShellOutput;
use crate::text::{concat, concat3, decimal_digits, owned, signed_digits, to_decimal_string_i32, to_decimal_string_u128};

verus! {

/// What a block holds.
#[derive(Debug)]
pub enum BlockContent {
    /// A command: what was typed, its output so far, the prompt it was typed at, its
    /// exit code and run time once it has finished, whether it still runs, and when it
    /// started.
    Command {
        input: String,
        output: String,
        prompt: String,
        exit_code: Option<i32>,
        execution_time_ms: Option<u128>,
        is_running: bool,
        timestamp: i64,
    },
    /// Markdown text and when it was added.
    Markdown { content: String, timestamp: i64 },
}

/// What can be done with a block.
#[derive(Debug, Clone, Copy, PartialEq, Eq, Structural)]
pub enum BlockMessage {
    ToggleContextMenu,
    CopyCommand,
    CopyOutput,
    CopyBoth,
    ShareBlock,
    ReinputCommand,
}

/// A block of the history.
#[derive(Debug)]
pub struct Block {
    pub id: u128,
    pub content: BlockContent,
}

/// The text a line of output adds to a command's output: a standard-output line and a
/// newline, or a standard-error line marked `[ERROR] ` and a newline.
pub open spec fn output_text(o: ShellOutput) -> Seq<char> {
    match o {
        ShellOutput::Stdout(s) => s@ + "\n"@,
        ShellOutput::Stderr(s) => "[ERROR] "@ + s@ + "\n"@,
    }
}

/// `after` is `before` with `text` added to its output: a command block keeps all but
/// its output, which grows by `text`; a Markdown block stays as it is.
pub open spec fn output_added(before: Block, after: Block, text: Seq<char>) -> bool {
    &&& after.id == before.id
    &&& match before.content {
        BlockContent::Command { input, output: o, prompt, exit_code, execution_time_ms, is_running, timestamp } =>
            after.content matches BlockContent::Command {
                input: i2, output: o2, prompt: p2, exit_code: e2, execution_time_ms: t2, is_running: r2, timestamp: ts2 }
            && o2@ == o@ + text && i2 == input && p2 == prompt && e2 == exit_code
            && t2 == execution_time_ms && r2 == is_running && ts2 == timestamp,
        BlockContent::Markdown { .. } => after.content == before.content,
    }
}

/// The status line of a block, and the terminal colour it is drawn in (a colour name and
/// whether its bright variant is used).
#[derive(Debug)]
pub struct StatusLabel {
    pub text: String,
    pub color: String,
    pub bright: bool,
}

/// The status text of a command: running, succeeded with its time, failed with its
/// code and time (a missing time counts as 0), or unknown.
pub open spec fn status_text(is_running: bool, exit_code: Option<i32>, ms: Option<u128>) -> Seq<char> {
    let t = match ms {
        Some(m) => decimal_digits(m as nat),
        None => "0"@,
    };
    if is_running {
        "RUNNING..."@
    } else {
        match exit_code {
            Some(c) => if c == 0 {
                "SUCCESS ("@ + t + "ms)"@
            } else {
                "FAILED ("@ + signed_digits(c as int) + ", "@ + t + "ms)"@
            },
            None => "UNKNOWN"@,
        }
    }
}

impl Block {
    /// A running command typed at `prompt`, started now, with no output yet.
    pub fn new_command(id: u128, input: String, prompt: String) -> (b: Self)
        ensures
            b.id == id,
            b.content matches BlockContent::Command { input: i, output: o, prompt: p, exit_code: e, execution_time_ms: t, is_running: r, .. }
                && i == input && o@ == Seq::<char>::empty() && p == prompt && e is None && t is None && r,
    {
        Block {
            id,
            content: BlockContent::Command {
                input,
                output: String::new(),
                prompt,
                exit_code: None,
                execution_time_ms: None,
                is_running: true,
                timestamp: now_millis(),
            },
        }
    }

    /// A Markdown block added now.
    pub fn new_markdown(id: u128, content: String) -> (b: Self)
        ensures
            b.id == id,
            b.content matches BlockContent::Markdown { content: c, .. } && c == content,
    {
        Block { id, content: BlockContent::Markdown { content, timestamp: now_millis() } }
    }

    /// Adds a line of output to a command block; a Markdown block is left as it is.
    pub fn append_output(&mut self, output: ShellOutput)
        ensures
            output_added(*old(self), *final(self), output_text(output)),
    {
        let mut content = BlockContent::Markdown { content: String::new(), timestamp: 0 };
        std::mem::swap(&mut content, &mut self.content);
        let new_content = match content {
            BlockContent::Command { input, output: current, prompt, exit_code, execution_time_ms, is_running, timestamp } => {
                let added = match output {
                    ShellOutput::Stdout(s) => concat(s.as_str(), "\n"),
                    ShellOutput::Stderr(s) => concat3("[ERROR] ", s.as_str(), "\n"),
                };
                let out = concat(current.as_str(), added.as_str());
                BlockContent::Command { input, output: out, prompt, exit_code, execution_time_ms, is_running, timestamp }
            },
            other => other,
        };
        self.content = new_content;
    }

    /// Marks a command block finished with its exit code and run time; a Markdown block
    /// is left as it is.
    pub fn complete_execution(&mut self, exit_code: i32, execution_time_ms: u128)
        ensures
            final(self).id == old(self).id,
            match old(self).content {
                BlockContent::Command { input, output, prompt, timestamp, .. } =>
                    final(self).content == (BlockContent::Command {
                        input, output, prompt, exit_code: Some(exit_code),
                        execution_time_ms: Some(execution_time_ms), is_running: false, timestamp }),
                BlockContent::Markdown { .. } => final(self).content == old(self).content,
            },
    {
        let mut content = BlockContent::Markdown { content: String::new(), timestamp: 0 };
        std::mem::swap(&mut content, &mut self.content);
        let new_content = match content {
            BlockContent::Command { input, output, prompt, timestamp, .. } => BlockContent::Command {
                input,
                output,
                prompt,
                exit_code: Some(exit_code),
                execution_time_ms: Some(execution_time_ms),
                is_running: false,
                timestamp,
            },
            other => other,
        };
        self.content = new_content;
    }

    /// The status line a command block shows, with its colour: yellow (bright) while
    /// running, green (bright) on success, red (bright) on failure, white when unknown;
    /// `None` for a Markdown block.
    pub fn status_label(&self) -> (r: Option<StatusLabel>)
        ensures
            match self.content {
                BlockContent::Command { exit_code, execution_time_ms, is_running, .. } => r matches Some(l)
                    && l.text@ == status_text(is_running, exit_code, execution_time_ms)
                    && l.color@ == (if is_running {
                        "yellow"@
                    } else {
                        match exit_code {
                            Some(c) => if c == 0 { "green"@ } else { "red"@ },
                            None => "white"@,
                        }
                    }) && l.bright == (is_running || exit_code is Some),
                BlockContent::Markdown { .. } => r is None,
            },
    {
        match &self.content {
            BlockContent::Command { exit_code, execution_time_ms, is_running, .. } => {
                if *is_running {
                    return Some(StatusLabel { text: owned("RUNNING..."), color: owned("yellow"), bright: true });
                }
                let t = match execution_time_ms {
                    Some(m) => to_decimal_string_u128(*m),
                    None => owned("0"),
                };
                proof {
                    reveal_strlit("0");
                    assert(decimal_digits(0) =~= "0"@);
                }
                match exit_code {
                    Some(c) => {
                        if *c == 0 {
                            let a = concat("SUCCESS (", t.as_str());
                            Some(StatusLabel { text: concat(a.as_str(), "ms)"), color: owned("green"), bright: true })
                        } else {
                            let code = to_decimal_string_i32(*c);
                            let a = concat3("FAILED (", code.as_str(), ", ");
                            let b = concat3(a.as_str(), t.as_str(), "ms)");
                            Some(StatusLabel { text: b, color: owned("red"), bright: true })
                        }
                    },
                    None => Some(StatusLabel { text: owned("UNKNOWN"), color: owned("white"), bright: false }),
                }
            },
            BlockContent::Markdown { .. } => None,
        }
    }
}

impl Block {
    /// When the block was added, as `HH:MM:SS` in the local time zone; `None` for an
    /// instant outside the range chrono can represent (`MIN_LOCAL_MILLIS` to
    /// `MAX_LOCAL_MILLIS`). The zone's offset comes from the machine: the text is the clock
    /// text of the instant for some offset of less than a day, and `clock_text_of` gives
    /// it for each offset.
    pub fn timestamp_text(&self) -> (r: Option<String>)
        ensures
            r is Some <==> MIN_LOCAL_MILLIS <= instant_of(self.content) <= MAX_LOCAL_MILLIS,
            r matches Some(t) ==> exists|o: int| -86400 < o < 86400 && t@ == #[trigger] clock_text(
                instant_of(self.content) as int,
                o,
            ),
    {
        let t = self.content.timestamp();
        match local_offset_seconds(t) {
            Some(o) => {
                let text = clock_text_of(t, o);
                assert(t == instant_of(self.content));
                assert(text@ == clock_text(instant_of(self.content) as int, o as int));
                Some(text)
            },
            None => None,
        }
    }
}

/// A button drawn on a block: its label and what pressing it sends.
#[derive(Debug)]
pub struct BlockButton {
    pub label: String,
    pub message: BlockMessage,
}

/// The actions of a block's context menu, in the order they are listed.
pub open spec fn menu_actions() -> Seq<BlockMessage> {
    seq![
        BlockMessage::CopyCommand,
        BlockMessage::CopyOutput,
        BlockMessage::CopyBoth,
        BlockMessage::ShareBlock,
        BlockMessage::ReinputCommand,
    ]
}

/// The label of a block's button for each message.
pub open spec fn action_label(m: BlockMessage) -> Seq<char> {
    match m {
        BlockMessage::ToggleContextMenu => "..."@,
        BlockMessage::CopyCommand => "Copy Command"@,
        BlockMessage::CopyOutput => "Copy Output"@,
        BlockMessage::CopyBoth => "Copy Both"@,
        BlockMessage::ShareBlock => "Share Block"@,
        BlockMessage::ReinputCommand => "Re-input Command"@,
    }
}

fn block_button(m: BlockMessage) -> (b: BlockButton)
    ensures
        b.message == m,
        b.label@ == action_label(m),
{
    let label = match m {
        BlockMessage::ToggleContextMenu => owned("..."),
        BlockMessage::CopyCommand => owned("Copy Command"),
        BlockMessage::CopyOutput => owned("Copy Output"),
        BlockMessage::CopyBoth => owned("Copy Both"),
        BlockMessage::ShareBlock => owned("Share Block"),
        BlockMessage::ReinputCommand => owned("Re-input Command"),
    };
    BlockButton { label, message: m }
}

impl Block {
    /// The button beside the block that opens and closes its context menu: `...`,
    /// sending `ToggleContextMenu`.
    pub fn menu_button(&self) -> (b: BlockButton)
        ensures
            b.message == BlockMessage::ToggleContextMenu,
            b.label@ == "..."@,
    {
        block_button(BlockMessage::ToggleContextMenu)
    }

    /// The entries of the block's context menu: while the menu is open, one button per
    /// action (copy the command, copy the output, copy both, share the block, type the
    /// command again), in that order; none while it is closed.
    pub fn context_menu(&self, show_context_menu: bool) -> (r: Vec<BlockButton>)
        ensures
            r@.len() == (if show_context_menu { menu_actions().len() } else { 0 }),
            forall|i: int| 0 <= i < r@.len() ==> {
                &&& (#[trigger] r@[i]).message == menu_actions()[i]
                &&& r@[i].label@ == action_label(menu_actions()[i])
            },
    {
        let mut r: Vec<BlockButton> = Vec::new();
        if show_context_menu {
            r.push(block_button(BlockMessage::CopyCommand));
            r.push(block_button(BlockMessage::CopyOutput));
            r.push(block_button(BlockMessage::CopyBoth));
            r.push(block_button(BlockMessage::ShareBlock));
            r.push(block_button(BlockMessage::ReinputCommand));
        }
        r
    }
}

/// When a block was added.
pub open spec fn instant_of(c: BlockContent) -> i64 {
    match c {
        BlockContent::Command { timestamp, .. } => timestamp,
        BlockContent::Markdown { timestamp, .. } => timestamp,
    }
}

impl BlockContent {
    /// When the block was added.
    pub fn timestamp(&self) -> (t: i64)
        ensures
            t == (match *self {
                BlockContent::Command { timestamp, .. } => timestamp,
                BlockContent::Markdown { timestamp, .. } => timestamp,
            }),
    {
        match self {
            BlockContent::Command { timestamp, .. } => *timestamp,
            BlockContent::Markdown { timestamp, .. } => *timestamp,
        }
    }
}

} // verus!

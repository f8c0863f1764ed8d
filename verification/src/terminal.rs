//! The terminal's own state and how it answers its messages: the typed command, the
//! history of commands (at most 1000, the oldest dropped first), and the blocks of
//! commands and their output. Running commands is left to the caller, which is asked to
//! run each submitted command and hands its output back.
use vstd::prelude::*;
use crate::blocks::{output_added, Block, BlockContent};
use crate::ids::new_id;
use crate::shell::ShellOutput;
use crate::text::{all_ws, concat3, is_blank, to_decimal_string};

verus! {

/// How many commands the history keeps.
pub const MAX_HISTORY: usize = 1000;

/// A message to the terminal.
#[derive(Debug)]
pub enum Message {
    InputChanged(String),
    InputSubmitted,
    HistoryUp,
    HistoryDown,
    BlockAdded(Block),
    BlockUpdated(u128, BlockContent),
    BlockRemoved(u128),
    CommandExecuted(String),
    /// Output of the command of a block.
    CommandOutput(u128, String),
    CommandCompleted(u128, i32),
    FuzzySearch(String),
    SuggestionSelected(String),
    CollaborationMessage(String),
    Tick,
    FileChanged(String),
}

/// What the terminal asks the caller to do.
#[derive(Debug)]
pub enum TerminalAction {
    /// Run `command` in the shell and send its output back for block `block_id`.
    ExecuteCommand { block_id: u128, command: String },
}

/// The terminal.
pub struct WarpTerminal {
    blocks: Vec<Block>,
    current_input: String,
    input_history: Vec<String>,
    history_index: Option<usize>,
    frame_count: u64,
}

/// The history after adding a command: at most `MAX_HISTORY` entries, the oldest
/// dropped first.
pub open spec fn history_after(h: Seq<Seq<char>>, command: Seq<char>) -> Seq<Seq<char>> {
    let pushed = h.push(command);
    if pushed.len() > 1000 {
        pushed.drop_first()
    } else {
        pushed
    }
}

/// The history after submitting `commands` one after the other.
pub open spec fn history_after_all(h: Seq<Seq<char>>, commands: Seq<Seq<char>>) -> Seq<Seq<char>>
    decreases commands.len(),
{
    if commands.len() == 0 {
        h
    } else {
        history_after(history_after_all(h, commands.drop_last()), commands.last())
    }
}

/// The last `n` entries of `s` (all of them when it has fewer).
pub open spec fn newest(s: Seq<Seq<char>>, n: int) -> Seq<Seq<char>> {
    if s.len() > n {
        s.skip(s.len() - n)
    } else {
        s
    }
}

/// Whatever is submitted, the history holds the newest `MAX_HISTORY` commands of the
/// earlier history followed by everything submitted, in order.
pub proof fn law_history_keeps_newest(h: Seq<Seq<char>>, commands: Seq<Seq<char>>)
    requires
        h.len() <= 1000,
    ensures
        history_after_all(h, commands) == newest(h + commands, 1000),
    decreases commands.len(),
{
    if commands.len() > 0 {
        law_history_keeps_newest(h, commands.drop_last());
        let prev = newest(h + commands.drop_last(), 1000);
        let all = h + commands;
        assert(all.drop_last() =~= h + commands.drop_last());
        assert(all.last() == commands.last());
        if all.len() > 1000 {
            assert(history_after(prev, commands.last()) =~= all.skip(all.len() - 1000));
        } else {
            assert(history_after(prev, commands.last()) =~= all);
        }
    } else {
        assert(h + commands =~= h);
    }
}

/// No block has the id `id`.
pub open spec fn no_block_with(bs: Seq<Block>, id: u128) -> bool {
    forall|j: int| 0 <= j < bs.len() ==> #[trigger] bs[j].id != id
}

/// Block `i` is the first with the id `id`.
pub open spec fn first_block_with(bs: Seq<Block>, id: u128, i: int) -> bool {
    &&& 0 <= i < bs.len()
    &&& bs[i].id == id
    &&& no_block_with(bs.take(i), id)
}

impl WarpTerminal {
    pub closed spec fn input(self) -> Seq<char> {
        self.current_input@
    }

    pub closed spec fn history(self) -> Seq<Seq<char>> {
        self.input_history@.map_values(|s: String| s@)
    }

    pub closed spec fn index(self) -> Option<usize> {
        self.history_index
    }

    pub closed spec fn block_seq(self) -> Seq<Block> {
        self.blocks@
    }

    pub closed spec fn frames(self) -> u64 {
        self.frame_count
    }

    /// The history is never longer than `MAX_HISTORY`, and a selected entry exists.
    pub closed spec fn wf(self) -> bool {
        &&& self.input_history@.len() <= 1000
        &&& self.history_index matches Some(i) ==> i < self.input_history@.len()
    }

    /// An empty terminal.
    pub fn new() -> (t: Self)
        ensures
            t.wf(),
            t.input().len() == 0,
            t.history().len() == 0,
            t.index() is None,
            t.block_seq().len() == 0,
            t.frames() == 0,
    {
        let t = WarpTerminal {
            blocks: Vec::new(),
            current_input: String::new(),
            input_history: Vec::new(),
            history_index: None,
            frame_count: 0,
        };
        assert(t.history() =~= Seq::<Seq<char>>::empty());
        t
    }

    /// The window title: `Warp Terminal - <n> blocks`.
    pub fn title(&self) -> (r: String)
        ensures
            r@ == "Warp Terminal - "@ + crate::text::decimal_digits(self.block_seq().len()) + " blocks"@,
    {
        let n = to_decimal_string(self.blocks.len() as u64);
        concat3("Warp Terminal - ", n.as_str(), " blocks")
    }

    /// Handles a message. Submitting a command that is not blank records it in the
    /// history, adds a running block for it, clears the input and asks for the command
    /// to be run; the history keys walk the history (up from the newest, down back to an
    /// empty input); output is appended to its block; a tick counts a frame. Other
    /// messages change nothing.
    pub fn update(&mut self, message: Message) -> (r: Option<TerminalAction>)
        requires
            old(self).wf(),
            message is Tick ==> old(self).frames() < u64::MAX,
        ensures
            final(self).wf(),
            match message {
                Message::InputChanged(s) => r is None && final(self).input() == s@ && final(self).history() == old(self).history()
                    && final(self).index() == old(self).index() && final(self).block_seq() == old(self).block_seq(),
                Message::InputSubmitted => if all_ws(old(self).input()) {
                    r is None && final(self).input() == old(self).input() && final(self).history() == old(self).history()
                        && final(self).block_seq() == old(self).block_seq()
                } else {
                    &&& r matches Some(TerminalAction::ExecuteCommand { block_id, command })
                        && command@ == old(self).input()
                        && final(self).block_seq().len() == old(self).block_seq().len() + 1
                        && final(self).block_seq().last().id == block_id
                        && (final(self).block_seq().last().content matches BlockContent::Command { input, is_running, .. }
                        && input@ == old(self).input() && is_running)
                    &&& final(self).block_seq().drop_last() == old(self).block_seq()
                    &&& final(self).history() == history_after(old(self).history(), old(self).input())
                    &&& final(self).input().len() == 0
                    &&& final(self).index() is None
                },
                Message::HistoryUp => r is None && final(self).history() == old(self).history()
                    && final(self).block_seq() == old(self).block_seq() && if old(self).history().len() == 0 {
                    final(self).index() == old(self).index() && final(self).input() == old(self).input()
                } else {
                    let i = match old(self).index() {
                        None => (old(self).history().len() - 1) as usize,
                        Some(i) => if i > 0 { (i - 1) as usize } else { i },
                    };
                    final(self).index() == Some(i) && final(self).input() == old(self).history()[i as int]
                },
                Message::HistoryDown => r is None && final(self).history() == old(self).history()
                    && final(self).block_seq() == old(self).block_seq() && match old(self).index() {
                    Some(i) => if i + 1 < old(self).history().len() {
                        final(self).index() == Some((i + 1) as usize) && final(self).input() == old(self).history()[i + 1]
                    } else {
                        final(self).index() is None && final(self).input().len() == 0
                    },
                    None => final(self).index() is None && final(self).input() == old(self).input(),
                },
                Message::Tick => r is None && final(self).frames() == old(self).frames() + 1
                    && final(self).input() == old(self).input() && final(self).history() == old(self).history()
                    && final(self).block_seq() == old(self).block_seq(),
                Message::CommandOutput(id, out) => r is None && final(self).input() == old(self).input()
                    && final(self).history() == old(self).history() && final(self).index() == old(self).index()
                    && (no_block_with(old(self).block_seq(), id) ==> final(self).block_seq() == old(self).block_seq())
                    && forall|i: int| first_block_with(old(self).block_seq(), id, i) ==> {
                        &&& final(self).block_seq() == old(self).block_seq().update(i, final(self).block_seq()[i])
                        &&& output_added(old(self).block_seq()[i], final(self).block_seq()[i], out@ + "\n"@)
                    },
                _ => r is None && final(self).input() == old(self).input() && final(self).history() == old(self).history()
                    && final(self).index() == old(self).index() && final(self).block_seq() == old(self).block_seq(),
            },
    {
        match message {
            Message::InputChanged(input) => {
                self.current_input = input;
                None
            },
            Message::InputSubmitted => {
                if is_blank(self.current_input.as_str()) {
                    return None;
                }
                let command = self.current_input.clone();
                let block_id = new_id();
                let ghost h0 = self.history();
                let ghost b0 = self.blocks@;
                self.input_history.push(command.clone());
                assert(self.history() =~= h0.push(command@));
                if self.input_history.len() > MAX_HISTORY {
                    self.input_history.remove(0);
                    assert(self.history() =~= h0.push(command@).drop_first());
                }
                let block = Block::new_command(block_id, command.clone(), String::new());
                self.blocks.push(block);
                assert(self.blocks@.drop_last() =~= b0);
                self.current_input = String::new();
                self.history_index = None;
                Some(TerminalAction::ExecuteCommand { block_id, command })
            },
            Message::CommandOutput(block_id, output) => {
                let mut i: usize = 0;
                let ghost b0 = self.blocks@;
                while i < self.blocks.len()
                    invariant
                        i <= self.blocks@.len(),
                        self.blocks@ == b0,
                        forall|j: int| 0 <= j < i ==> b0[j].id != block_id,
                    ensures
                        i <= b0.len(),
                        self.blocks@ == b0,
                        forall|j: int| 0 <= j < i ==> b0[j].id != block_id,
                        i < b0.len() ==> b0[i as int].id == block_id,
                    decreases self.blocks.len() - i,
                {
                    if self.blocks[i].id == block_id {
                        break;
                    }
                    i = i + 1;
                }
                if i < self.blocks.len() {
                    let mut b = self.blocks.remove(i);
                    let ghost before = b;
                    b.append_output(ShellOutput::Stdout(output));
                    self.blocks.insert(i, b);
                    assert(self.blocks@ =~= b0.update(i as int, self.blocks@[i as int]));
                    assert forall|k: int| first_block_with(b0, block_id, k) implies k == i by {
                        if k < i {
                            assert(b0[k].id != block_id);
                        } else if k > i {
                            assert(b0.take(k)[i as int] == b0[i as int]);
                        }
                    }
                } else {
                    assert forall|j: int| 0 <= j < b0.len() implies #[trigger] b0[j].id != block_id by {}
                }
                None
            },
            Message::HistoryUp => {
                let n = self.input_history.len();
                if n > 0 {
                    let new_index = match self.history_index {
                        None => n - 1,
                        Some(i) => if i > 0 {
                            i - 1
                        } else {
                            i
                        },
                    };
                    self.history_index = Some(new_index);
                    self.current_input = self.input_history[new_index].clone();
                }
                None
            },
            Message::HistoryDown => {
                match self.history_index {
                    Some(i) => {
                        if i + 1 < self.input_history.len() {
                            self.history_index = Some(i + 1);
                            self.current_input = self.input_history[i + 1].clone();
                        } else {
                            self.history_index = None;
                            self.current_input = String::new();
                        }
                    },
                    None => {},
                }
                None
            },
            Message::Tick => {
                self.frame_count = self.frame_count + 1;
                None
            },
            _ => None,
        }
    }
}

} // verus!

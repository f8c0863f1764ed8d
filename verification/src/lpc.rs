//! Recognising plain-language commands such as "list files" or "open file notes.txt".
use vstd::prelude::*;
use crate::text::{chars_of, contains_seq, lowercase, string_from_range, starts_with_seq, to_lowercase, vec_contains, owned};

verus! {

/// What a plain-language command asks for.
#[derive(Debug, PartialEq)]
pub enum CommandType {
    ListFiles,
    OpenFile(String),
    Search(String),
    Unknown,
}

/// A command kind as a value.
pub enum CommandTypeView {
    ListFiles,
    OpenFile(Seq<char>),
    Search(Seq<char>),
    Unknown,
}

impl CommandType {
    pub open spec fn view(self) -> CommandTypeView {
        match self {
            CommandType::ListFiles => CommandTypeView::ListFiles,
            CommandType::OpenFile(s) => CommandTypeView::OpenFile(s@),
            CommandType::Search(s) => CommandTypeView::Search(s@),
            CommandType::Unknown => CommandTypeView::Unknown,
        }
    }
}

/// Position of the first `c` in `s` at or after `from`, or `-1`.
pub open spec fn find_char_from(s: Seq<char>, c: char, from: int) -> int
    decreases s.len() - from,
{
    if from < 0 || from >= s.len() {
        -1
    } else if s[from] == c {
        from
    } else {
        find_char_from(s, c, from + 1)
    }
}

/// The third piece of `s.splitn(3, ' ')`: everything after the second space, if
/// there are two spaces.
pub open spec fn third_piece(s: Seq<char>) -> Option<Seq<char>> {
    let i = find_char_from(s, ' ', 0);
    let j = find_char_from(s, ' ', i + 1);
    if i >= 0 && j >= 0 {
        Some(s.skip(j + 1))
    } else {
        None
    }
}

/// What a command means, read from its lowercase form.
pub open spec fn command_meaning(command: Seq<char>) -> CommandTypeView {
    let l = lowercase(command);
    if contains_seq(l, "show me files"@) || contains_seq(l, "list files"@) {
        CommandTypeView::ListFiles
    } else if starts_with_seq(l, "open file"@) {
        match third_piece(l) {
            Some(p) => CommandTypeView::OpenFile(p),
            None => CommandTypeView::Unknown,
        }
    } else if starts_with_seq(l, "search for"@) {
        match third_piece(l) {
            Some(p) => CommandTypeView::Search(p),
            None => CommandTypeView::Unknown,
        }
    } else {
        CommandTypeView::Unknown
    }
}

/// "open file" followed by a space and a name opens that whole name: the argument is
/// everything after the second space, spaces included (unless the text asks to list
/// files, which is checked first).
pub proof fn law_open_file_takes_the_rest(command: Seq<char>, n: Seq<char>)
    requires
        lowercase(command) == "open file "@ + n,
        !contains_seq("open file "@ + n, "show me files"@),
        !contains_seq("open file "@ + n, "list files"@),
    ensures
        command_meaning(command) == CommandTypeView::OpenFile(n),
{
    reveal_strlit("open file ");
    reveal_strlit("open file");
    let l = "open file "@ + n;
    assert(l.subrange(0, 9) =~= "open file"@);
    assert(l[4] == ' ' && l[9] == ' ');
    assert(find_char_from(l, ' ', 4) == 4);
    assert(find_char_from(l, ' ', 3) == 4);
    assert(find_char_from(l, ' ', 2) == 4);
    assert(find_char_from(l, ' ', 1) == 4);
    assert(find_char_from(l, ' ', 0) == 4);
    assert(find_char_from(l, ' ', 9) == 9);
    assert(find_char_from(l, ' ', 8) == 9);
    assert(find_char_from(l, ' ', 7) == 9);
    assert(find_char_from(l, ' ', 6) == 9);
    assert(find_char_from(l, ' ', 5) == 9);
    assert(l.skip(10) =~= n);
}

/// "search for" followed by a space and terms searches for all of those terms: the
/// argument is everything after the second space, spaces included (unless the text asks
/// to list files, which is checked first).
pub proof fn law_search_takes_the_rest(command: Seq<char>, n: Seq<char>)
    requires
        lowercase(command) == "search for "@ + n,
        !contains_seq("search for "@ + n, "show me files"@),
        !contains_seq("search for "@ + n, "list files"@),
    ensures
        command_meaning(command) == CommandTypeView::Search(n),
{
    reveal_strlit("search for ");
    reveal_strlit("search for");
    reveal_strlit("open file");
    let l = "search for "@ + n;
    assert(l.subrange(0, 10) =~= "search for"@);
    assert(l.subrange(0, 9) != "open file"@) by {
        assert(l.subrange(0, 9)[0] != "open file"@[0]);
    }
    assert(l[6] == ' ' && l[10] == ' ');
    assert(find_char_from(l, ' ', 6) == 6);
    assert(find_char_from(l, ' ', 5) == 6);
    assert(find_char_from(l, ' ', 4) == 6);
    assert(find_char_from(l, ' ', 3) == 6);
    assert(find_char_from(l, ' ', 2) == 6);
    assert(find_char_from(l, ' ', 1) == 6);
    assert(find_char_from(l, ' ', 0) == 6);
    assert(find_char_from(l, ' ', 10) == 10);
    assert(find_char_from(l, ' ', 9) == 10);
    assert(find_char_from(l, ' ', 8) == 10);
    assert(find_char_from(l, ' ', 7) == 10);
    assert(l.skip(11) =~= n);
}

/// A command whose lowercase text mentions "show me files" or "list files" anywhere
/// lists the files, whatever else it says; one that does not, and starts with neither
/// "open file" nor "search for", is not understood.
pub proof fn law_list_files_or_unknown(command: Seq<char>)
    ensures
        contains_seq(lowercase(command), "show me files"@) || contains_seq(lowercase(command), "list files"@)
            ==> command_meaning(command) == CommandTypeView::ListFiles,
        !contains_seq(lowercase(command), "show me files"@) && !contains_seq(lowercase(command), "list files"@)
            && !starts_with_seq(lowercase(command), "open file"@) && !starts_with_seq(lowercase(command), "search for"@)
            ==> command_meaning(command) == CommandTypeView::Unknown,
{
}

proof fn lemma_find_char_from(s: Seq<char>, c: char, from: int)
    requires
        0 <= from,
    ensures
        -1 <= find_char_from(s, c, from) < s.len(),
        find_char_from(s, c, from) >= 0 ==> find_char_from(s, c, from) >= from && s[find_char_from(s, c, from)] == c,
    decreases s.len() - from,
{
    if from < s.len() && s[from] != c {
        lemma_find_char_from(s, c, from + 1);
    }
}

fn find_char(v: &Vec<char>, c: char, from: usize) -> (r: Option<usize>)
    ensures
        r matches Some(i) ==> i == find_char_from(v@, c, from as int) && i < v.len(),
        r is None ==> find_char_from(v@, c, from as int) == -1,
{
    let mut i = from;
    while i < v.len()
        invariant
            from <= i,
            find_char_from(v@, c, from as int) == find_char_from(v@, c, i as int),
        decreases v.len() - i,
    {
        if v[i] == c {
            return Some(i);
        }
        i = i + 1;
    }
    None
}

/// The text after the second space of `v`, if there are two spaces.
fn third_piece_exec(v: &Vec<char>) -> (r: Option<String>)
    ensures
        (match r {
            Some(p) => third_piece(v@) == Some(p@),
            None => third_piece(v@) is None,
        }),
{
    match find_char(v, ' ', 0) {
        Some(i) => match find_char(v, ' ', i + 1) {
            Some(j) => {
                let p = string_from_range(v, j + 1, v.len());
                assert(p@ =~= v@.skip(j + 1));
                Some(p)
            },
            None => None,
        },
        None => None,
    }
}

fn starts_with_chars(v: &Vec<char>, p: &str) -> (r: bool)
    ensures
        r == starts_with_seq(v@, p@),
{
    let pv = chars_of(p);
    if pv.len() > v.len() {
        return false;
    }
    let mut k: usize = 0;
    while k < pv.len()
        invariant
            pv@ == p@,
            pv.len() <= v.len(),
            k <= pv.len(),
            forall|j: int| 0 <= j < k ==> v@[j] == pv@[j],
        decreases pv.len() - k,
    {
        if v[k] != pv[k] {
            assert(v@.subrange(0, pv.len() as int)[k as int] != pv@[k as int]);
            return false;
        }
        k = k + 1;
    }
    assert(v@.subrange(0, pv.len() as int) =~= pv@);
    true
}

/// Interprets plain-language commands.
pub struct LanguageProcessor {}

impl LanguageProcessor {
    pub fn new() -> Self {
        LanguageProcessor {}
    }

    /// Reads what `command` asks for, ignoring letter case: listing files (the text
    /// contains "show me files" or "list files"), opening a file ("open file ..."),
    /// searching ("search for ..."); the argument is the lowercase text after the
    /// second space.
    pub fn process_command(&self, command: &str) -> (r: CommandType)
        ensures
            r.view() == command_meaning(command@),
    {
        let lower = to_lowercase(command);
        let v = chars_of(lower.as_str());
        let a = chars_of("show me files");
        let b = chars_of("list files");
        if vec_contains(&v, &a) || vec_contains(&v, &b) {
            CommandType::ListFiles
        } else if starts_with_chars(&v, "open file") {
            match third_piece_exec(&v) {
                Some(p) => CommandType::OpenFile(p),
                None => CommandType::Unknown,
            }
        } else if starts_with_chars(&v, "search for") {
            match third_piece_exec(&v) {
                Some(p) => CommandType::Search(p),
                None => CommandType::Unknown,
            }
        } else {
            CommandType::Unknown
        }
    }
}

} // verus!

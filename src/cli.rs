use vstd::prelude::*;
use crate::text::{trim_of, trimmed};

verus! {

/// The command line: the words of an optional first prompt.
pub struct CliArgs {
    pub prompt: Vec<String>,
}

/// `words` joined with single spaces.
pub open spec fn join_words(words: Seq<Seq<char>>) -> Seq<char>
    decreases words.len(),
{
    if words.len() == 0 {
        Seq::empty()
    } else if words.len() == 1 {
        words[0]
    } else {
        join_words(words.drop_last()) + " "@ + words.last()
    }
}

/// The characters of each string of `v`.
pub open spec fn words_of(v: Seq<String>) -> Seq<Seq<char>> {
    v.map_values(|s: String| s@)
}

impl CliArgs {
    /// The first prompt: the words given, joined with spaces; none where no
    /// word was given.
    pub fn initial_prompt(&self) -> (r: Option<String>)
        ensures
            match r {
                Some(p) => self.prompt@.len() > 0 && p@ == join_words(words_of(self.prompt@)),
                None => self.prompt@.len() == 0,
            },
    {
        if self.prompt.len() == 0 {
            return None;
        }
        let mut joined = self.prompt[0].clone();
        let mut i: usize = 1;
        while i < self.prompt.len()
            invariant
                1 <= i <= self.prompt@.len(),
                joined@ == join_words(words_of(self.prompt@.take(i as int))),
            decreases self.prompt@.len() - i,
        {
            let ghost before = words_of(self.prompt@.take(i as int));
            assert(words_of(self.prompt@.take(i + 1)).drop_last() =~= before);
            joined.append(" ");
            joined.append(self.prompt[i].as_str());
            i = i + 1;
        }
        assert(self.prompt@.take(i as int) =~= self.prompt@);
        Some(joined)
    }
}

/// What the REPL does with one input line.
#[derive(Debug, Clone, PartialEq, Eq)]
pub enum ReplInput {
    /// Leave the REPL.
    Exit,
    /// Nothing to send.
    Skip,
    /// Send this message.
    Submit(String),
}

/// What the REPL does with a line whose trimmed form is `t`: `exit` and
/// `quit` leave, an empty line is ignored, anything else is sent as it is.
pub open spec fn classified(t: Seq<char>, r: ReplInput) -> bool {
    match r {
        ReplInput::Exit => t == "exit"@ || t == "quit"@,
        ReplInput::Skip => t.len() == 0,
        ReplInput::Submit(m) => m@ == t && t.len() > 0 && t != "exit"@ && t != "quit"@,
    }
}

/// Classifies an input line from its trimmed form `t`.
pub fn classify_trimmed(t: String) -> (r: ReplInput)
    ensures
        classified(t@, r),
{
    let exit = String::from_str("exit");
    let quit = String::from_str("quit");
    if t == exit || t == quit {
        ReplInput::Exit
    } else if t.as_str().is_empty() {
        ReplInput::Skip
    } else {
        ReplInput::Submit(t)
    }
}

/// Classifies an input line of the REPL.
pub fn classify_line(line: &str) -> (r: ReplInput)
    ensures
        classified(trim_of(line@), r),
{
    classify_trimmed(trimmed(line))
}

} // verus!

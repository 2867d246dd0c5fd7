use vstd::prelude::*;

verus! {

/// Why the Codex CLI could not be started.
#[derive(Debug)]
pub enum ProcessError {
    NotFound,
    Start(String),
}

/// Index of the first `'\n'` in `s` at or after `i`, or `s.len()`.
pub open spec fn newline_from(s: Seq<char>, i: int) -> int
    decreases s.len() - i,
{
    if i < 0 || i >= s.len() {
        s.len() as int
    } else if s[i] == '\n' {
        i
    } else {
        newline_from(s, i + 1)
    }
}

/// The first line of `s` as `str::lines` yields it: text up to the first
/// `"\n"` or `"\r\n"`; `None` for an empty text.
pub open spec fn spec_first_line(s: Seq<char>) -> Option<Seq<char>> {
    if s.len() == 0 {
        None
    } else {
        let end = newline_from(s, 0);
        if end < s.len() && end > 0 && s[end - 1] == '\r' {
            Some(s.take(end - 1))
        } else {
            Some(s.take(end))
        }
    }
}

proof fn lemma_newline_from_bounds(s: Seq<char>, i: int)
    requires
        0 <= i <= s.len(),
    ensures
        i <= newline_from(s, i) <= s.len(),
    decreases s.len() - i,
{
    if i < s.len() && s[i] != '\n' {
        lemma_newline_from_bounds(s, i + 1);
    }
}

/// The first line of a command's output (as from `where.exe`).
pub fn first_line(output: &str) -> (r: Option<String>)
    ensures
        match r {
            Some(line) => spec_first_line(output@) == Some(line@),
            None => spec_first_line(output@) is None,
        },
{
    let n = output.unicode_len();
    if n == 0 {
        return None;
    }
    let mut end: usize = 0;
    while end < n && output.get_char(end) != '\n'
        invariant
            n == output@.len(),
            end <= n,
            newline_from(output@, 0) == newline_from(output@, end as int),
        decreases n - end,
    {
        end = end + 1;
    }
    proof {
        lemma_newline_from_bounds(output@, 0);
    }
    let keep = if end < n && end > 0 && output.get_char(end - 1) == '\r' { end - 1 } else { end };
    let line = String::from_str(output.substring_char(0, keep));
    assert(output@.subrange(0, keep as int) =~= output@.take(keep as int));
    Some(line)
}

} // verus!

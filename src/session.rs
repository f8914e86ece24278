//! Reading an operator's line in interactive mode.
use vstd::prelude::*;
use vstd::string::*;

verus! {

/// What one line typed by the operator asks for.
pub enum UserInput {
    /// Stop the session.
    Exit,
    /// Nothing to ask; read the next line.
    Empty,
    /// Ask this question about recent traffic.
    Query(String),
}

/// A character's code with ASCII upper case folded to lower case.
pub open spec fn ascii_folded(c: char) -> int {
    let v = c as u32 as int;
    if 65 <= v && v <= 90 {
        v + 32
    } else {
        v
    }
}

/// Equality of two texts when ASCII letters are compared without case.
pub open spec fn eq_ascii_case_insensitive(a: Seq<char>, b: Seq<char>) -> bool {
    &&& a.len() == b.len()
    &&& forall|i: int| 0 <= i < a.len() ==> ascii_folded(#[trigger] a[i]) == ascii_folded(b[i])
}

/// The words that end a session, in any ASCII case.
pub open spec fn is_exit_word(t: Seq<char>) -> bool {
    eq_ascii_case_insensitive(t, "exit"@) || eq_ascii_case_insensitive(t, "quit"@)
        || eq_ascii_case_insensitive(t, "/q"@)
}

/// A line without its leading and trailing whitespace.
pub uninterp spec fn trimmed_of(s: Seq<char>) -> Seq<char>;

/// Relies on `str::trim`, which removes leading and trailing Unicode
/// whitespace and depends on the text alone.
#[verifier::external_body]
fn trim(s: &str) -> (r: &str)
    ensures
        r@ == trimmed_of(s@),
{
    s.trim()
}

fn fold(c: char) -> (r: u32)
    ensures
        r as int == ascii_folded(c),
{
    let v = c as u32;
    if 65 <= v && v <= 90 {
        v + 32
    } else {
        v
    }
}

/// Compares two texts, ASCII letters without regard to case.
pub fn eq_ignore_ascii_case(a: &str, b: &str) -> (r: bool)
    ensures
        r == eq_ascii_case_insensitive(a@, b@),
{
    let n = a.unicode_len();
    if n != b.unicode_len() {
        return false;
    }
    let mut i: usize = 0;
    while i < n
        invariant
            n == a@.len(),
            n == b@.len(),
            i <= n,
            forall|j: int| 0 <= j < i ==> ascii_folded(#[trigger] a@[j]) == ascii_folded(b@[j]),
        decreases n - i,
    {
        let x = a.get_char(i);
        let y = b.get_char(i);
        if fold(x) != fold(y) {
            return false;
        }
        i = i + 1;
    }
    true
}

/// Reads an already trimmed line: an exit word ends the session, an empty
/// line asks nothing, anything else is a question.
pub fn classify_trimmed(t: &str) -> (r: UserInput)
    ensures
        match r {
            UserInput::Exit => is_exit_word(t@),
            UserInput::Empty => !is_exit_word(t@) && t@.len() == 0,
            UserInput::Query(q) => !is_exit_word(t@) && t@.len() > 0 && q@ == t@,
        },
{
    if eq_ignore_ascii_case(t, "exit") || eq_ignore_ascii_case(t, "quit") || eq_ignore_ascii_case(
        t,
        "/q",
    ) {
        UserInput::Exit
    } else if t.is_empty() {
        UserInput::Empty
    } else {
        UserInput::Query(String::from_str(t))
    }
}

/// Reads one line typed by the operator, ignoring surrounding whitespace.
pub fn classify_input(line: &str) -> (r: UserInput)
    ensures
        match r {
            UserInput::Exit => is_exit_word(trimmed_of(line@)),
            UserInput::Empty => !is_exit_word(trimmed_of(line@)) && trimmed_of(line@).len() == 0,
            UserInput::Query(q) => !is_exit_word(trimmed_of(line@)) && trimmed_of(line@).len() > 0
                && q@ == trimmed_of(line@),
        },
{
    classify_trimmed(trim(line))
}

} // verus!

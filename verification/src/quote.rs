//! Quoting text for the POSIX shell.

use vstd::prelude::*;
use crate::text::{chars_of, push_char};

verus! {

/// How one character is written inside a single-quoted shell word: a single
/// quote closes the quotes, is written inside double quotes, and reopens them.
pub open spec fn quoted_char(c: char) -> Seq<char> {
    if c == '\'' {
        seq!['\'', '"', '\'', '"', '\'']
    } else {
        seq![c]
    }
}

/// The characters of `s`, each written as inside single quotes.
pub open spec fn quoted_body(s: Seq<char>) -> Seq<char>
    decreases s.len(),
{
    if s.len() == 0 {
        Seq::empty()
    } else {
        quoted_body(s.drop_last()) + quoted_char(s.last())
    }
}

/// `s` as one single-quoted shell word.
pub open spec fn shell_quoted(s: Seq<char>) -> Seq<char> {
    seq!['\''] + quoted_body(s) + seq!['\'']
}

/// Quotes `value` as one shell word: in single quotes, with each single
/// quote written as `'"'"'`.
pub fn shell_quote(value: &str) -> (q: String)
    ensures
        q@ == shell_quoted(value@),
{
    let chars = chars_of(value);
    let mut q = String::new();
    push_char(&mut q, '\'');
    for i in 0..chars.len()
        invariant
            chars@ == value@,
            q@ == seq!['\''] + quoted_body(chars@.take(i as int)),
    {
        assert(chars@.take(i + 1).drop_last() == chars@.take(i as int));
        let c = chars[i];
        if c == '\'' {
            push_char(&mut q, '\'');
            push_char(&mut q, '"');
            push_char(&mut q, '\'');
            push_char(&mut q, '"');
            push_char(&mut q, '\'');
        } else {
            push_char(&mut q, c);
        }
    }
    assert(chars@.take(chars@.len() as int) == chars@);
    push_char(&mut q, '\'');
    q
}

/// Where a reader of a shell word stands: outside quotes, inside single
/// quotes, or inside double quotes.
#[derive(PartialEq, Eq, Structural)]
pub enum QuoteMode {
    Bare,
    Single,
    Double,
}

/// Whether a character outside quotes would end the word or be expanded.
pub open spec fn bare_special(c: char) -> bool {
    c == ' ' || c == '\t' || c == '\n' || c == '\\' || c == '$' || c == '`' || c == '"' || c == '\''
        || c == '|' || c == '&' || c == ';' || c == '<' || c == '>' || c == '(' || c == ')' || c
        == '*' || c == '?' || c == '[' || c == '#' || c == '~' || c == '='
}

/// `c` in front of a read word, if there is one.
pub open spec fn prepend(c: Seq<char>, rest: Option<Seq<char>>) -> Option<Seq<char>> {
    match rest {
        Some(r) => Some(c + r),
        None => None,
    }
}

/// The text a POSIX shell reads from `w` as one word by quote removal, or
/// `None` when `w` is not one plain word: when it has a special character
/// outside quotes, an expansion inside double quotes, or an unclosed quote.
pub open spec fn shell_read(w: Seq<char>, mode: QuoteMode) -> Option<Seq<char>>
    decreases w.len(),
{
    if w.len() == 0 {
        if mode == QuoteMode::Bare {
            Some(Seq::empty())
        } else {
            None
        }
    } else {
        let c = w[0];
        let rest = w.drop_first();
        match mode {
            QuoteMode::Bare => if c == '\'' {
                shell_read(rest, QuoteMode::Single)
            } else if c == '"' {
                shell_read(rest, QuoteMode::Double)
            } else if bare_special(c) {
                None
            } else {
                prepend(seq![c], shell_read(rest, QuoteMode::Bare))
            },
            QuoteMode::Single => if c == '\'' {
                shell_read(rest, QuoteMode::Bare)
            } else {
                prepend(seq![c], shell_read(rest, QuoteMode::Single))
            },
            QuoteMode::Double => if c == '"' {
                shell_read(rest, QuoteMode::Bare)
            } else if c == '$' || c == '`' || c == '\\' {
                None
            } else {
                prepend(seq![c], shell_read(rest, QuoteMode::Double))
            },
        }
    }
}

proof fn lemma_read_quoted_char(c: char, t: Seq<char>)
    ensures
        shell_read(quoted_char(c) + t, QuoteMode::Single) == prepend(
            seq![c],
            shell_read(t, QuoteMode::Single),
        ),
{
    let w = quoted_char(c) + t;
    if c == '\'' {
        assert(w.drop_first() == seq!['"', '\'', '"', '\''] + t);
        assert(w.drop_first().drop_first() == seq!['\'', '"', '\''] + t);
        assert(w.drop_first().drop_first().drop_first() == seq!['"', '\''] + t);
        assert(w.drop_first().drop_first().drop_first().drop_first() == seq!['\''] + t);
        assert((seq!['\''] + t).drop_first() == t);
        reveal_with_fuel(shell_read, 6);
    } else {
        assert(w.drop_first() == t);
    }
}

proof fn lemma_read_quoted_body(s: Seq<char>, t: Seq<char>)
    ensures
        shell_read(quoted_body(s) + t, QuoteMode::Single) == prepend(
            s,
            shell_read(t, QuoteMode::Single),
        ),
    decreases s.len(),
{
    if s.len() == 0 {
        assert(quoted_body(s) + t == t);
        match shell_read(t, QuoteMode::Single) {
            Some(r) => assert(s + r == r),
            None => {},
        }
    } else {
        let front = s.drop_last();
        let c = s.last();
        assert(quoted_body(s) + t == quoted_body(front) + (quoted_char(c) + t));
        lemma_read_quoted_body(front, quoted_char(c) + t);
        lemma_read_quoted_char(c, t);
        match shell_read(t, QuoteMode::Single) {
            Some(r) => assert(front + (seq![c] + r) == s + r),
            None => {},
        }
    }
}

/// The shell reads a quoted word back as exactly the text that was quoted,
/// whatever characters it holds.
pub proof fn lemma_shell_reads_quoted_text_back(s: Seq<char>)
    ensures
        shell_read(shell_quoted(s), QuoteMode::Bare) == Some(s),
{
    let w = shell_quoted(s);
    assert(w.drop_first() == quoted_body(s) + seq!['\'']);
    lemma_read_quoted_body(s, seq!['\'']);
    assert(seq!['\''].drop_first() == Seq::<char>::empty());
    assert(seq!['\''][0] == '\'');
    assert(shell_read(Seq::<char>::empty(), QuoteMode::Bare) == Some(Seq::<char>::empty()));
    assert(shell_read(seq!['\''], QuoteMode::Single) == Some(Seq::<char>::empty()));
    assert(s + Seq::<char>::empty() == s);
}

} // verus!

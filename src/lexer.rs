//! The quoting and escaping rules that split a command line into words.
//!
//! The rules are a state machine over characters: `step` says what one
//! character does to the quoting state and to the word being built, and
//! `lex` runs it over the rest of a line, collecting the finished words.
use vstd::prelude::*;

verus! {

/// The quoting state of one scan: inside single quotes, inside double
/// quotes, and whether the previous character was an escaping backslash.
#[derive(Clone, Copy, Debug, PartialEq, Eq, Structural)]
pub struct Quoting {
    pub single: bool,
    pub double: bool,
    pub escape: bool,
}

impl Quoting {
    /// Single and double quoting exclude each other, and no backslash
    /// escapes inside single quotes.
    pub open spec fn wf(self) -> bool {
        &&& !(self.single && self.double)
        &&& (self.escape ==> !self.single)
    }

    /// The state at the start of a line: no quoting, no pending escape.
    pub open spec fn is_unquoted(self) -> bool {
        !self.single && !self.double && !self.escape
    }

    pub fn unquoted() -> (r: Quoting)
        ensures
            r == unquoted(),
    {
        Quoting { single: false, double: false, escape: false }
    }
}

pub open spec fn unquoted() -> Quoting {
    Quoting { single: false, double: false, escape: false }
}

/// Characters that a backslash escapes inside double quotes; before any
/// other character the backslash stays.
pub open spec fn is_escapable(c: char) -> bool {
    c == '\\' || c == '$' || c == '"' || c == '\n'
}

/// One character of the scan: the next quoting state, the word being built,
/// and whether the character ended that word (an unquoted space).
pub open spec fn step(q: Quoting, cur: Seq<char>, c: char) -> (Quoting, Seq<char>, bool) {
    if q.escape {
        let kept = if q.double && !is_escapable(c) {
            cur.push('\\').push(c)
        } else {
            cur.push(c)
        };
        (Quoting { escape: false, ..q }, kept, false)
    } else if c == '\'' && !q.double {
        (Quoting { single: !q.single, ..q }, cur, false)
    } else if c == '"' && !q.single {
        (Quoting { double: !q.double, ..q }, cur, false)
    } else if c == '\\' && !q.single {
        (Quoting { escape: true, ..q }, cur, false)
    } else if c == ' ' && !q.single && !q.double {
        (q, cur, true)
    } else {
        (q, cur.push(c), false)
    }
}

/// The word being built, as a list of zero or one finished words: an empty
/// word is never emitted.
pub open spec fn emit(cur: Seq<char>) -> Seq<Seq<char>> {
    if cur.len() > 0 {
        seq![cur]
    } else {
        Seq::empty()
    }
}

/// The words that the rest of a line yields, from quoting state `q` with
/// `cur` built so far. At the end of the line the word being built is
/// emitted whatever the quoting state: unbalanced quotes are no error.
pub open spec fn lex(q: Quoting, cur: Seq<char>, rest: Seq<char>) -> Seq<Seq<char>>
    decreases rest.len(),
{
    if rest.len() == 0 {
        emit(cur)
    } else {
        let (q2, cur2, ends) = step(q, cur, rest[0]);
        if ends {
            emit(cur) + lex(q2, Seq::empty(), rest.drop_first())
        } else {
            lex(q2, cur2, rest.drop_first())
        }
    }
}

/// The words of a line.
pub open spec fn tokens(line: Seq<char>) -> Seq<Seq<char>> {
    lex(unquoted(), Seq::empty(), line)
}

/// The words of a line from position `i` on, scanned from the unquoted state.
pub open spec fn words_from(line: Seq<char>, i: int) -> Seq<Seq<char>> {
    tokens(line.subrange(i, line.len() as int))
}

/// Where the first word of `line` from position `i` on ends, scanning from
/// state `q` with `cur` built so far: one past the unquoted space that ends
/// the first non-empty word, or the end of the line if no space ends one.
pub open spec fn first_word_end(q: Quoting, cur: Seq<char>, line: Seq<char>, i: int) -> int
    decreases line.len() - i,
{
    if i < 0 || i >= line.len() {
        line.len() as int
    } else {
        let (q2, cur2, ends) = step(q, cur, line[i]);
        if ends && cur.len() > 0 {
            i + 1
        } else {
            first_word_end(q2, cur2, line, i + 1)
        }
    }
}

/// Where the command word of a line ends and its arguments start.
pub open spec fn command_end(line: Seq<char>) -> int {
    first_word_end(unquoted(), Seq::empty(), line, 0)
}

pub proof fn lemma_step_wf(q: Quoting, cur: Seq<char>, c: char)
    requires
        q.wf(),
    ensures
        step(q, cur, c).0.wf(),
        step(q, cur, c).2 ==> step(q, cur, c).0.is_unquoted() && q.is_unquoted(),
{
}

/// No word is empty, whatever the line and the state the scan starts in.
pub proof fn lemma_lex_words_nonempty(q: Quoting, cur: Seq<char>, rest: Seq<char>)
    ensures
        forall|k: int| 0 <= k < lex(q, cur, rest).len() ==> #[trigger] lex(q, cur, rest)[k].len() > 0,
    decreases rest.len(),
{
    if rest.len() > 0 {
        let (q2, cur2, ends) = step(q, cur, rest[0]);
        let all = lex(q, cur, rest);
        if ends {
            lemma_lex_words_nonempty(q2, Seq::empty(), rest.drop_first());
            let tail = lex(q2, Seq::empty(), rest.drop_first());
            assert(all == emit(cur) + tail);
            assert forall|k: int| 0 <= k < all.len() implies #[trigger] all[k].len() > 0 by {
                if k >= emit(cur).len() {
                    assert(all[k] == tail[k - emit(cur).len()]);
                } else {
                    assert(all[k] == cur);
                }
            }
        } else {
            lemma_lex_words_nonempty(q2, cur2, rest.drop_first());
            assert(all == lex(q2, cur2, rest.drop_first()));
        }
    }
}

/// Whitespace separates words and never makes an empty one: every word of
/// every line is non-empty.
pub proof fn law_no_empty_words(line: Seq<char>)
    ensures
        forall|k: int| 0 <= k < tokens(line).len() ==> #[trigger] tokens(line)[k].len() > 0,
{
    lemma_lex_words_nonempty(unquoted(), Seq::empty(), line);
}

/// An unquoted space ends the word being built, if any, and a run of
/// unquoted spaces counts as one: after any number of spaces the scan goes
/// on as if the next word started the line.
pub proof fn law_spaces_separate(cur: Seq<char>, n: nat, rest: Seq<char>)
    requires
        n > 0,
    ensures
        lex(unquoted(), cur, Seq::new(n, |i: int| ' ') + rest) == emit(cur) + lex(
            unquoted(),
            Seq::empty(),
            rest,
        ),
    decreases n,
{
    let spaces = Seq::new(n, |i: int| ' ');
    let line = spaces + rest;
    assert(line[0] == ' ');
    assert(line.drop_first() =~= Seq::new((n - 1) as nat, |i: int| ' ') + rest);
    if n > 1 {
        law_spaces_separate(Seq::empty(), (n - 1) as nat, rest);
        assert(emit(cur) + Seq::<Seq<char>>::empty() =~= emit(cur));
        assert(emit(Seq::<char>::empty()) =~= Seq::<Seq<char>>::empty());
        assert(emit(Seq::<char>::empty()) + lex(unquoted(), Seq::empty(), rest) =~= lex(
            unquoted(),
            Seq::empty(),
            rest,
        ));
    }
}

/// Inside single quotes every character up to the closing quote is taken
/// as it is, spaces and backslashes included.
pub proof fn lemma_single_quoted(cur: Seq<char>, body: Seq<char>, rest: Seq<char>)
    requires
        forall|k: int| 0 <= k < body.len() ==> body[k] != '\'',
    ensures
        lex(Quoting { single: true, double: false, escape: false }, cur, body + rest) == lex(
            Quoting { single: true, double: false, escape: false },
            cur + body,
            rest,
        ),
    decreases body.len(),
{
    let inside = Quoting { single: true, double: false, escape: false };
    if body.len() > 0 {
        let line = body + rest;
        assert(line[0] == body[0]);
        assert(line.drop_first() =~= body.drop_first() + rest);
        assert(step(inside, cur, body[0]) == (inside, cur.push(body[0]), false));
        lemma_single_quoted(cur.push(body[0]), body.drop_first(), rest);
        assert(cur.push(body[0]) + body.drop_first() =~= cur + body);
    } else {
        assert(body + rest =~= rest);
        assert(cur + body =~= cur);
    }
}

/// A single-quoted part outside any quoting adds exactly the characters
/// between its quotes to the word being built; the quotes themselves are
/// dropped.
pub proof fn law_single_quotes_verbatim(cur: Seq<char>, body: Seq<char>, rest: Seq<char>)
    requires
        forall|k: int| 0 <= k < body.len() ==> body[k] != '\'',
    ensures
        lex(unquoted(), cur, seq!['\''] + body + seq!['\''] + rest) == lex(
            unquoted(),
            cur + body,
            rest,
        ),
{
    let inside = Quoting { single: true, double: false, escape: false };
    let line = seq!['\''] + body + seq!['\''] + rest;
    assert(line[0] == '\'');
    assert(line.drop_first() =~= body + (seq!['\''] + rest));
    lemma_single_quoted(cur, body, seq!['\''] + rest);
    let after = seq!['\''] + rest;
    assert(after[0] == '\'');
    assert(after.drop_first() =~= rest);
}

/// Inside double quotes a backslash before `\`, `$`, `"` or a newline
/// gives that character alone; before any other character both stay.
pub proof fn law_double_quote_escapes(cur: Seq<char>, c: char, rest: Seq<char>)
    ensures
        lex(
            Quoting { single: false, double: true, escape: false },
            cur,
            seq!['\\', c] + rest,
        ) == lex(
            Quoting { single: false, double: true, escape: false },
            if is_escapable(c) {
                cur.push(c)
            } else {
                cur.push('\\').push(c)
            },
            rest,
        ),
{
    let inside = Quoting { single: false, double: true, escape: false };
    let line = seq!['\\', c] + rest;
    assert(line[0] == '\\');
    assert(line.drop_first()[0] == c);
    assert(line.drop_first().drop_first() =~= rest);
    let pending = Quoting { escape: true, ..inside };
    assert(lex(inside, cur, line) == lex(pending, cur, line.drop_first()));
}

/// Outside any quoting a backslash makes the next character, whatever it
/// is, part of the word as it is, and the backslash is dropped.
pub proof fn law_unquoted_escape(cur: Seq<char>, c: char, rest: Seq<char>)
    ensures
        lex(unquoted(), cur, seq!['\\', c] + rest) == lex(unquoted(), cur.push(c), rest),
{
    let line = seq!['\\', c] + rest;
    assert(line[0] == '\\');
    assert(line.drop_first()[0] == c);
    assert(line.drop_first().drop_first() =~= rest);
    let pending = Quoting { escape: true, ..unquoted() };
    assert(lex(unquoted(), cur, line) == lex(pending, cur, line.drop_first()));
}

} // verus!

//! Splitting a line into the command word and its arguments.
use vstd::prelude::*;

use crate::lexer::{
    command_end, emit, first_word_end, lemma_step_wf, lex, step, tokens, unquoted, words_from,
    Quoting,
};
use crate::shell::{arguments_of, command_of, opt_words_view, words_view, Shell};
use crate::text::{to_chars, trim, trimmed};

verus! {

impl Shell {
    /// Reads a line: white space around it is dropped, then the first word
    /// becomes the command and the others its arguments.
    pub fn parse_input(&mut self, input: &str)
        ensures
            final(self).cmd@ == command_of(trim(input@)),
            opt_words_view(final(self).args) == arguments_of(trim(input@)),
    {
        let line = trimmed(input);
        let chars = to_chars(line);
        let (cmd, next) = Self::parse_cmd(&chars);
        self.cmd = cmd;
        self.args = Self::parse_args(&chars, next);
        proof {
            let all = tokens(chars@);
            if cmd@.len() > 0 {
                assert(all.drop_first() =~= words_from(chars@, next as int));
            } else {
                assert(words_from(chars@, next as int).len() == 0) by {
                    assert(chars@.subrange(next as int, chars@.len() as int) =~= Seq::<char>::empty());
                }
            }
        }
    }

    /// Flips a flag.
    pub fn toggle_bool(b: &mut bool)
        ensures
            *final(b) == !*old(b),
    {
        *b = !*b;
    }

    /// Moves a finished word to the list, leaving the word empty; an empty
    /// word is not added.
    pub fn save_arg(arg: &mut String, args: &mut Vec<String>)
        ensures
            words_view(*final(args)) == words_view(*old(args)) + emit(old(arg)@),
            final(arg)@.len() == 0,
    {
        if !arg.as_str().is_empty() {
            let mut word = String::new();
            std::mem::swap(arg, &mut word);
            args.push(word);
            assert(words_view(*args) =~= words_view(*old(args)) + emit(old(arg)@));
        } else {
            assert(words_view(*args) =~= words_view(*old(args)) + emit(old(arg)@));
        }
    }

    /// Applies one character to the quoting state and the word being built;
    /// returns whether the character ended the word.
    fn scan_char(q: &mut Quoting, cur: &mut String, c: char) -> (ends: bool)
        ensures
            (*final(q), final(cur)@, ends) == step(*old(q), old(cur)@, c),
    {
        if q.escape {
            if q.double && !(c == '\\' || c == '$' || c == '"' || c == '\n') {
                cur.push('\\');
            }
            cur.push(c);
            Self::toggle_bool(&mut q.escape);
            false
        } else if c == '\'' && !q.double {
            Self::toggle_bool(&mut q.single);
            false
        } else if c == '"' && !q.single {
            Self::toggle_bool(&mut q.double);
            false
        } else if c == '\\' && !q.single {
            Self::toggle_bool(&mut q.escape);
            false
        } else if c == ' ' && !q.single && !q.double {
            true
        } else {
            cur.push(c);
            false
        }
    }

    /// Reads the command word: the first word of the line. Returns it, empty
    /// when the line has no word, and the position where the arguments start.
    pub fn parse_cmd(chars: &Vec<char>) -> (r: (String, usize))
        ensures
            r.1 == command_end(chars@),
            r.1 <= chars.len(),
            r.0@.len() > 0 ==> tokens(chars@) == seq![r.0@] + words_from(chars@, r.1 as int),
            r.0@.len() == 0 ==> tokens(chars@).len() == 0 && r.1 == chars.len(),
    {
        let n = chars.len();
        let mut q = Quoting::unquoted();
        let mut cur = String::new();
        let mut i: usize = 0;
        assert(chars@.subrange(0, n as int) =~= chars@);
        while i < n
            invariant
                n == chars.len(),
                i <= n,
                q.wf(),
                lex(q, cur@, chars@.subrange(i as int, n as int)) == tokens(chars@),
                first_word_end(q, cur@, chars@, i as int) == command_end(chars@),
            decreases n - i,
        {
            let ghost rest = chars@.subrange(i as int, n as int);
            let ghost before = cur@;
            let ghost q0 = q;
            proof {
                lemma_step_wf(q, cur@, chars@[i as int]);
                assert(rest.drop_first() =~= chars@.subrange(i + 1, n as int));
            }
            let ends = Self::scan_char(&mut q, &mut cur, chars[i]);
            i = i + 1;
            if ends && !cur.as_str().is_empty() {
                assert(q == unquoted());
                return (cur, i);
            }
            if ends {
                assert(cur@ =~= Seq::<char>::empty());
                assert(emit(before) =~= Seq::<Seq<char>>::empty());
                assert(emit(before) + lex(q, Seq::empty(), rest.drop_first()) =~= lex(
                    q,
                    cur@,
                    rest.drop_first(),
                ));
            }
            assert(lex(q0, before, rest) == lex(q, cur@, chars@.subrange(i as int, n as int)));
            assert(first_word_end(q0, before, chars@, i - 1) == first_word_end(q, cur@, chars@, i as int));
        }
        assert(words_from(chars@, n as int) =~= Seq::<Seq<char>>::empty()) by {
            assert(chars@.subrange(n as int, n as int) =~= Seq::<char>::empty());
            assert(emit(Seq::<char>::empty()) =~= Seq::<Seq<char>>::empty());
        }
        assert(seq![cur@] + Seq::<Seq<char>>::empty() =~= seq![cur@]);
        (cur, n)
    }

    /// Reads the arguments: the words of the line from position `start` on;
    /// `None` when there are none.
    pub fn parse_args(chars: &Vec<char>, start: usize) -> (r: Option<Vec<String>>)
        requires
            start <= chars.len(),
        ensures
            match r {
                Some(v) => v.len() > 0 && words_view(v) == words_from(chars@, start as int),
                None => words_from(chars@, start as int).len() == 0,
            },
    {
        let n = chars.len();
        let mut args: Vec<String> = Vec::new();
        let mut q = Quoting::unquoted();
        let mut cur = String::new();
        let mut i: usize = start;
        assert(words_view(args) + lex(q, cur@, chars@.subrange(i as int, n as int)) =~= words_from(
            chars@,
            start as int,
        ));
        while i < n
            invariant
                n == chars.len(),
                start <= i <= n,
                q.wf(),
                words_view(args) + lex(q, cur@, chars@.subrange(i as int, n as int))
                    == words_from(chars@, start as int),
            decreases n - i,
        {
            let ghost rest = chars@.subrange(i as int, n as int);
            let ghost done = words_view(args);
            let ghost q0 = q;
            let ghost before = cur@;
            proof {
                lemma_step_wf(q, cur@, chars@[i as int]);
                assert(rest.drop_first() =~= chars@.subrange(i + 1, n as int));
            }
            let ends = Self::scan_char(&mut q, &mut cur, chars[i]);
            i = i + 1;
            if ends {
                assert(lex(q0, before, rest) == emit(before) + lex(q, Seq::empty(), rest.drop_first()));
                Self::save_arg(&mut cur, &mut args);
                assert(cur@ =~= Seq::<char>::empty());
                assert(words_view(args) + lex(q, cur@, chars@.subrange(i as int, n as int))
                    =~= done + (emit(before) + lex(q, Seq::empty(), rest.drop_first())));
            } else {
                assert(lex(q0, before, rest) == lex(q, cur@, rest.drop_first()));
            }
        }
        let ghost last = cur@;
        Self::save_arg(&mut cur, &mut args);
        assert(words_view(args) =~= words_from(chars@, start as int));
        if args.len() == 0 {
            None
        } else {
            Some(args)
        }
    }
}

} // verus!

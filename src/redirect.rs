//! Output redirections: the operators among a command's arguments, and the
//! destinations that follow them.
use vstd::prelude::*;

use crate::shell::{opt_words_view, words_view, Shell};
use crate::text::{opt_chars, same_text};

verus! {

/// An output stream of a command.
#[derive(Clone, Copy, Debug, PartialEq, Eq, Structural)]
pub enum Stream {
    Stdout,
    Stderr,
}

/// The stream that an operator word redirects: `>`, `1>`, `>>` and `1>>`
/// redirect standard output, `2>` and `2>>` standard error. Any other word
/// is no operator.
pub open spec fn stream_of(w: Seq<char>) -> Option<Stream> {
    if w == seq!['>'] || w == seq!['1', '>'] || w == seq!['>', '>'] || w == seq!['1', '>', '>'] {
        Some(Stream::Stdout)
    } else if w == seq!['2', '>'] || w == seq!['2', '>', '>'] {
        Some(Stream::Stderr)
    } else {
        None
    }
}

/// One redirection, in the order of the line: the stream, and the word after
/// the operator as its destination; `None` where the operator ends the line.
/// Each destination is opened for appending, and created if absent; a later
/// redirection of the same stream replaces an earlier one.
#[derive(Debug, PartialEq, Eq)]
pub struct Redirection {
    pub stream: Stream,
    pub path: Option<String>,
}

/// A command's arguments split into the plain arguments and the
/// redirections.
#[derive(Debug, PartialEq, Eq)]
pub struct Redirects {
    pub args: Vec<String>,
    pub redirections: Vec<Redirection>,
}

impl Redirection {
    pub open spec fn view(self) -> (Stream, Option<Seq<char>>) {
        (self.stream, opt_chars(self.path))
    }
}

impl Redirects {
    pub open spec fn redirections_view(self) -> Seq<(Stream, Option<Seq<char>>)> {
        self.redirections@.map_values(|r: Redirection| r.view())
    }

    /// The position among the redirections of the one whose destination
    /// stream `s` goes to, if any: a later redirection of a stream replaces
    /// an earlier one.
    pub fn target(&self, s: Stream) -> (r: Option<usize>)
        ensures
            match r {
                Some(k) => target_of(self.redirections_view(), s) == Some(k as int),
                None => target_of(self.redirections_view(), s) is None,
            },
    {
        let ghost rs = self.redirections_view();
        let mut i: usize = self.redirections.len();
        assert(rs.take(i as int) =~= rs);
        while i > 0
            invariant
                rs == self.redirections_view(),
                i <= rs.len(),
                last_of(rs, s) == last_of(rs.take(i as int), s),
            decreases i,
        {
            let ghost pre = rs.take(i as int);
            assert(pre.drop_last() =~= rs.take(i - 1));
            assert(pre.last() == rs[i - 1]);
            if self.redirections[i - 1].stream == s {
                let k = i - 1;
                assert(last_of(rs, s) == Some(k as int));
                if self.redirections[k].path.is_some() {
                    return Some(k);
                } else {
                    return None;
                }
            }
            i = i - 1;
        }
        assert(rs.take(0) =~= Seq::<(Stream, Option<Seq<char>>)>::empty());
        None
    }
}

/// The plain arguments and the redirections of a list of words, scanned
/// left to right: an operator takes the next word, whatever it is, as its
/// destination; every other word is a plain argument, in its order.
pub open spec fn extract(w: Seq<Seq<char>>) -> (Seq<Seq<char>>, Seq<(Stream, Option<Seq<char>>)>)
    decreases w.len(),
{
    if w.len() == 0 {
        (Seq::empty(), Seq::empty())
    } else if let Some(s) = stream_of(w[0]) {
        if w.len() >= 2 {
            let rest = extract(w.skip(2));
            (rest.0, seq![(s, Some(w[1]))] + rest.1)
        } else {
            (Seq::empty(), seq![(s, None)])
        }
    } else {
        let rest = extract(w.drop_first());
        (seq![w[0]] + rest.0, rest.1)
    }
}

/// The position of the last redirection of stream `s`, if there is one.
pub open spec fn last_of(rs: Seq<(Stream, Option<Seq<char>>)>, s: Stream) -> Option<int>
    decreases rs.len(),
{
    if rs.len() == 0 {
        None
    } else if rs.last().0 == s {
        Some(rs.len() - 1)
    } else {
        last_of(rs.drop_last(), s)
    }
}

/// The redirection whose destination a stream ends up with: the last one
/// of that stream, unless it has no destination, which leaves the stream
/// where it was.
pub open spec fn target_of(rs: Seq<(Stream, Option<Seq<char>>)>, s: Stream) -> Option<int> {
    match last_of(rs, s) {
        Some(k) => if rs[k].1 is Some {
            Some(k)
        } else {
            None
        },
        None => None,
    }
}

/// Words among which there is no operator are all plain arguments, in
/// their order, and redirect nothing.
pub proof fn law_words_without_operators(w: Seq<Seq<char>>)
    requires
        forall|k: int| 0 <= k < w.len() ==> stream_of(#[trigger] w[k]) is None,
    ensures
        extract(w) == (w, Seq::<(Stream, Option<Seq<char>>)>::empty()),
    decreases w.len(),
{
    if w.len() > 0 {
        assert(stream_of(w[0]) is None);
        law_words_without_operators(w.drop_first());
        assert(seq![w[0]] + w.drop_first() =~= w);
    }
}

/// The stream that an operator word redirects, if it is one.
pub fn operator_stream(w: &str) -> (r: Option<Stream>)
    ensures
        r == stream_of(w@),
{
    proof {
        reveal_strlit(">");
        reveal_strlit("1>");
        reveal_strlit(">>");
        reveal_strlit("1>>");
        reveal_strlit("2>");
        reveal_strlit("2>>");
        assert(">"@ =~= seq!['>']);
        assert("1>"@ =~= seq!['1', '>']);
        assert(">>"@ =~= seq!['>', '>']);
        assert("1>>"@ =~= seq!['1', '>', '>']);
        assert("2>"@ =~= seq!['2', '>']);
        assert("2>>"@ =~= seq!['2', '>', '>']);
    }
    if same_text(w, ">") || same_text(w, "1>") || same_text(w, ">>") || same_text(w, "1>>") {
        Some(Stream::Stdout)
    } else if same_text(w, "2>") || same_text(w, "2>>") {
        Some(Stream::Stderr)
    } else {
        None
    }
}

impl Shell {
    /// Splits the arguments into plain arguments and redirections.
    pub fn handle_redirect(&self) -> (r: Redirects)
        ensures
            (words_view(r.args), r.redirections_view()) == extract(
                match opt_words_view(self.args) {
                    Some(w) => w,
                    None => Seq::empty(),
                },
            ),
    {
        let mut args: Vec<String> = Vec::new();
        let mut redirections: Vec<Redirection> = Vec::new();
        let words = match &self.args {
            Some(w) => w,
            None => {
                return Redirects { args, redirections };
            },
        };
        let ghost all = words_view(*words);
        let n = words.len();
        let mut i: usize = 0;
        assert(all.skip(0) =~= all);
        assert(words_view(args) + extract(all).0 =~= extract(all).0);
        assert(redirections@.map_values(|r: Redirection| r.view()) + extract(all).1 =~= extract(all).1);
        while i < n
            invariant
                n == words.len(),
                all == words_view(*words),
                i <= n,
                ({
                    let rest = extract(all.skip(i as int));
                    (words_view(args) + rest.0, redirections@.map_values(|r: Redirection| r.view())
                        + rest.1) == extract(all)
                }),
            decreases n - i,
        {
            let ghost a0 = words_view(args);
            let ghost r0 = redirections@.map_values(|r: Redirection| r.view());
            let ghost ws = all.skip(i as int);
            assert(ws[0] == words[i as int]@);
            match operator_stream(words[i].as_str()) {
                Some(stream) => {
                    if i + 1 < n {
                        let path = words[i + 1].clone();
                        redirections.push(Redirection { stream, path: Some(path) });
                        assert(ws[1] == words[i + 1]@);
                        assert(ws.skip(2) =~= all.skip(i + 2));
                        assert(redirections@.map_values(|r: Redirection| r.view()) =~= r0 + seq![
                            (stream, Some(ws[1])),
                        ]);
                        i = i + 2;
                    } else {
                        redirections.push(Redirection { stream, path: None });
                        assert(redirections@.map_values(|r: Redirection| r.view()) =~= r0 + seq![
                            (stream, None),
                        ]);
                        assert(all.skip(n as int) =~= Seq::<Seq<char>>::empty());
                        i = n;
                    }
                },
                None => {
                    args.push(words[i].clone());
                    assert(words_view(args) =~= a0 + seq![ws[0]]);
                    assert(ws.drop_first() =~= all.skip(i + 1));
                    i = i + 1;
                },
            }
        }
        assert(all.skip(n as int) =~= Seq::<Seq<char>>::empty());
        Redirects { args, redirections }
    }
}

} // verus!

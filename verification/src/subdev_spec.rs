//! Daughterboard subdevice specifications: an ordered list of markup tokens
//! such as `A:0`, written and parsed as one space-separated markup string.

use vstd::prelude::*;
use vstd::string::StrSliceExecFns;
use vstd::string::StringExecFns;

verus! {

/// The tokens of a markup string: maximal runs of non-space characters, in
/// order, with `tokens` already collected and `cur` the run in progress.
pub open spec fn split_state(
    tokens: Seq<Seq<char>>,
    cur: Seq<char>,
    s: Seq<char>,
) -> Seq<Seq<char>>
    decreases s.len(),
{
    if s.len() == 0 {
        if cur.len() == 0 {
            tokens
        } else {
            tokens.push(cur)
        }
    } else if s[0] == ' ' {
        if cur.len() == 0 {
            split_state(tokens, cur, s.skip(1))
        } else {
            split_state(tokens.push(cur), Seq::empty(), s.skip(1))
        }
    } else {
        split_state(tokens, cur.push(s[0]), s.skip(1))
    }
}

/// The space-separated tokens of a markup string.
pub open spec fn split_markup(s: Seq<char>) -> Seq<Seq<char>> {
    split_state(Seq::empty(), Seq::empty(), s)
}

/// The markup string of a token list: the tokens joined by single spaces.
pub open spec fn join_markup(tokens: Seq<Seq<char>>) -> Seq<char>
    decreases tokens.len(),
{
    if tokens.len() == 0 {
        Seq::empty()
    } else if tokens.len() == 1 {
        tokens[0]
    } else {
        join_markup(tokens.drop_last()) + " "@ + tokens.last()
    }
}

/// Splits a markup string into its space-separated tokens.
fn split_whitespace_tokens(markup: &str) -> (r: Vec<String>)
    ensures
        r.deep_view() == split_markup(markup@),
{
    let n = markup.unicode_len();
    let mut tokens: Vec<String> = Vec::new();
    let mut start: usize = 0;
    let mut i: usize = 0;
    proof {
        assert(markup@.skip(0) =~= markup@);
        assert(markup@.subrange(0, 0) =~= Seq::<char>::empty());
        assert(tokens.deep_view() =~= Seq::<Seq<char>>::empty());
    }
    while i < n
        invariant
            start <= i <= n,
            n == markup@.len(),
            split_state(
                tokens.deep_view(),
                markup@.subrange(start as int, i as int),
                markup@.skip(i as int),
            ) == split_markup(markup@),
        decreases n - i,
    {
        let c = markup.get_char(i);
        let ghost cur = markup@.subrange(start as int, i as int);
        let ghost prior = tokens.deep_view();
        proof {
            assert(markup@.skip(i as int)[0] == markup@[i as int]);
            assert(markup@.skip(i as int).skip(1) =~= markup@.skip(i as int + 1));
        }
        if c == ' ' {
            if start < i {
                proof {
                    assert(cur.len() > 0);
                    assert(split_state(prior, cur, markup@.skip(i as int)) == split_state(
                        prior.push(cur),
                        Seq::<char>::empty(),
                        markup@.skip(i as int + 1),
                    ));
                }
                let token = markup.substring_char(start, i).to_owned();
                let ghost t = token@;
                tokens.push(token);
                proof {
                    assert(tokens.deep_view() =~= prior.push(t));
                    assert(t =~= cur);
                }
            } else {
                proof {
                    assert(cur =~= Seq::<char>::empty());
                    assert(split_state(prior, cur, markup@.skip(i as int)) == split_state(
                        prior,
                        cur,
                        markup@.skip(i as int + 1),
                    ));
                }
            }
            start = i + 1;
            proof {
                assert(markup@.subrange(start as int, i as int + 1) =~= Seq::<char>::empty());
            }
        } else {
            proof {
                assert(split_state(prior, cur, markup@.skip(i as int)) == split_state(
                    prior,
                    cur.push(markup@[i as int]),
                    markup@.skip(i as int + 1),
                ));
                assert(markup@.subrange(start as int, i as int + 1) =~= cur.push(
                    markup@[i as int],
                ));
            }
        }
        i = i + 1;
    }
    if start < n {
        let ghost prior = tokens.deep_view();
        let token = markup.substring_char(start, n).to_owned();
        let ghost t = token@;
        tokens.push(token);
        proof {
            assert(tokens.deep_view() =~= prior.push(t));
        }
    } else {
        proof {
            assert(markup@.subrange(start as int, n as int).len() == 0);
        }
    }
    tokens
}

/// An ordered list of subdevice markup tokens.
pub struct SubdevSpec {
    entries: Vec<String>,
}

impl View for SubdevSpec {
    type V = Seq<Seq<char>>;

    closed spec fn view(&self) -> Seq<Seq<char>> {
        self.entries.deep_view()
    }
}

impl SubdevSpec {
    /// Parses a space-separated markup string: one entry per token, none for
    /// an empty string.
    pub fn new(markup: &str) -> (r: Result<SubdevSpec, &'static str>)
        ensures
            r matches Ok(s) && s@ == split_markup(markup@),
    {
        Ok(SubdevSpec { entries: split_whitespace_tokens(markup) })
    }

    /// Appends one markup token.
    pub fn push_back(&mut self, markup: &str) -> (r: Result<(), &'static str>)
        ensures
            r == Ok::<(), &'static str>(()),
            final(self)@ == old(self)@.push(markup@),
    {
        let ghost prior = self.entries.deep_view();
        let token = markup.to_owned();
        let ghost t = token@;
        self.entries.push(token);
        proof {
            assert(self.entries.deep_view() =~= prior.push(t));
        }
        Ok(())
    }

    pub fn len(&self) -> (r: Result<usize, &'static str>)
        ensures
            r matches Ok(n) && n == self@.len(),
    {
        Ok(self.entries.len())
    }

    /// The whole specification as one markup string: the tokens joined by
    /// single spaces.
    pub fn to_string(&self) -> (r: Result<String, &'static str>)
        ensures
            r matches Ok(s) && s@ == join_markup(self@),
    {
        let mut out = String::new();
        let mut i: usize = 0;
        proof {
            assert(self@.take(0) =~= Seq::<Seq<char>>::empty());
        }
        while i < self.entries.len()
            invariant
                i <= self@.len(),
                self@.len() == self.entries.len(),
                out@ == join_markup(self@.take(i as int)),
            decreases self@.len() - i,
        {
            if i > 0 {
                out.append(" ");
            }
            out.append(self.entries[i].as_str());
            proof {
                assert(self@.take(i as int + 1).drop_last() =~= self@.take(i as int));
                assert(self@.take(i as int + 1).last() == self@[i as int]);
                assert(self.entries[i as int]@ == self@[i as int]);
            }
            i = i + 1;
        }
        proof {
            assert(self@.take(self@.len() as int) =~= self@);
        }
        Ok(out)
    }
}

} // verus!

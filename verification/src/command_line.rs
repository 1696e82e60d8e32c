//! Splitting a command line into an executable token and argument tokens.
//!
//! A command line is split on spaces; the tokens are the maximal runs of
//! non-space characters, so a run of several spaces separates tokens just
//! as one space does, and a command line of spaces alone has no tokens.
use vstd::prelude::*;
use vstd::string::StrSliceExecFns;

verus! {

/// Length of the leading run of non-space characters.
pub open spec fn spec_token_len(s: Seq<char>) -> int
    decreases s.len(),
{
    if s.len() == 0 || s[0] == ' ' {
        0
    } else {
        1 + spec_token_len(s.skip(1))
    }
}

pub proof fn lemma_token_len_bounds(s: Seq<char>)
    ensures
        0 <= spec_token_len(s) <= s.len(),
    decreases s.len(),
{
    if s.len() > 0 && s[0] != ' ' {
        lemma_token_len_bounds(s.skip(1));
    }
}

/// The tokens of a command line: the maximal runs of non-space characters,
/// in order.
pub open spec fn spec_tokens(s: Seq<char>) -> Seq<Seq<char>>
    decreases s.len(),
    via spec_tokens_decreases
{
    if s.len() == 0 {
        Seq::empty()
    } else if s[0] == ' ' {
        spec_tokens(s.skip(1))
    } else {
        seq![s.take(spec_token_len(s))] + spec_tokens(s.skip(spec_token_len(s)))
    }
}

#[via_fn]
proof fn spec_tokens_decreases(s: Seq<char>) {
    lemma_token_len_bounds(s);
    if s.len() > 0 && s[0] != ' ' {
        lemma_token_len_bounds(s.skip(1));
    }
}

/// A run of exactly `n` non-space characters at the front, delimited by the
/// end of the sequence or a space, is the leading token.
proof fn lemma_token_len_run(s: Seq<char>, n: int)
    requires
        0 <= n <= s.len(),
        forall|k: int| 0 <= k < n ==> s[k] != ' ',
        n == s.len() || s[n] == ' ',
    ensures
        spec_token_len(s) == n,
    decreases n,
{
    if n == 0 {
    } else {
        assert(s[0] != ' ');
        assert forall|k: int| 0 <= k < n - 1 implies s.skip(1)[k] != ' ' by {
            assert(s.skip(1)[k] == s[k + 1]);
        }
        if n - 1 < s.skip(1).len() {
            assert(s.skip(1)[n - 1] == s[n]);
        }
        lemma_token_len_run(s.skip(1), n - 1);
    }
}

/// A command line of spaces alone has no tokens.
pub proof fn lemma_all_spaces_no_tokens(s: Seq<char>)
    requires
        forall|k: int| 0 <= k < s.len() ==> s[k] == ' ',
    ensures
        spec_tokens(s).len() == 0,
    decreases s.len(),
{
    if s.len() > 0 {
        assert forall|k: int| 0 <= k < s.skip(1).len() implies s.skip(1)[k] == ' ' by {
            assert(s.skip(1)[k] == s[k + 1]);
        }
        lemma_all_spaces_no_tokens(s.skip(1));
    }
}

/// Splits a command line into its tokens.
pub fn tokenize(command: &str) -> (tokens: Vec<String>)
    ensures
        tokens.deep_view() == spec_tokens(command@),
{
    let len = command.unicode_len();
    let mut tokens: Vec<String> = Vec::new();
    let mut i: usize = 0;
    proof {
        assert(command@.skip(0) =~= command@);
        assert(tokens.deep_view() + spec_tokens(command@) =~= spec_tokens(command@));
    }
    while i < len
        invariant
            len == command@.len(),
            i <= len,
            spec_tokens(command@) == tokens.deep_view() + spec_tokens(command@.skip(i as int)),
        decreases len - i,
    {
        let ghost s = command@;
        let c = command.get_char(i);
        if c == ' ' {
            proof {
                assert(s.skip(i as int).skip(1) =~= s.skip(i + 1));
            }
            i = i + 1;
        } else {
            let start = i;
            i = i + 1;
            while i < len && command.get_char(i) != ' '
                invariant
                    len == command@.len(),
                    start < i <= len,
                    forall|k: int| start <= k < i ==> command@[k] != ' ',
                decreases len - i,
            {
                i = i + 1;
            }
            let tok = command.substring_char(start, i);
            proof {
                let suffix = s.skip(start as int);
                assert forall|k: int| 0 <= k < i - start implies suffix[k] != ' ' by {
                    assert(suffix[k] == s[k + start]);
                }
                if i < len {
                    assert(suffix[i - start] == s[i as int]);
                }
                lemma_token_len_run(suffix, i - start);
                assert(suffix.take(i - start) =~= tok@);
                assert(suffix.skip(i - start) =~= s.skip(i as int));
                assert(spec_tokens(suffix) == seq![tok@] + spec_tokens(s.skip(i as int)));
            }
            let ghost pre = tokens.deep_view();
            tokens.push(tok.to_owned());
            proof {
                assert(tokens.deep_view() =~= pre + seq![tok@]);
                assert(pre + seq![tok@] + spec_tokens(s.skip(i as int)) =~= pre + (seq![tok@]
                    + spec_tokens(s.skip(i as int))));
            }
        }
    }
    proof {
        assert(command@.skip(len as int) =~= Seq::<char>::empty());
        assert(tokens.deep_view() + Seq::<Seq<char>>::empty() =~= tokens.deep_view());
    }
    tokens
}

} // verus!

use vstd::prelude::*;

use crate::bytes::views_of;
use crate::context::WrapperEnv;
use crate::errors::WrapperError;

verus! {

/// The ASCII space byte, the only delimiter of the flag string. Splitting
/// on this single byte is safe around arbitrary binary payloads because its
/// encoding is invariant across ASCII-compatible text encodings.
pub const SPACE: u8 = 32;

/// Index of the first space byte of `s`, or `s.len()` when there is none.
pub open spec fn first_space(s: Seq<u8>) -> int
    decreases s.len(),
{
    if s.len() == 0 {
        0
    } else if s[0] == SPACE {
        0
    } else {
        1 + first_space(s.drop_first())
    }
}

/// `first_space` is what its name says: it lies in bounds, no space byte
/// stands before it, and it lands on a space byte unless there is none.
pub proof fn lemma_first_space_bounds(s: Seq<u8>)
    ensures
        0 <= first_space(s) <= s.len(),
        forall|k: int| 0 <= k < first_space(s) ==> s[k] != SPACE,
        first_space(s) < s.len() ==> s[first_space(s)] == SPACE,
    decreases s.len(),
{
    if s.len() == 0 {
    } else if s[0] == SPACE {
    } else {
        lemma_first_space_bounds(s.drop_first());
        assert forall|k: int| 0 <= k < first_space(s) implies s[k] != SPACE by {
            if k > 0 {
                assert(s.drop_first()[k - 1] == s[k]);
            }
        }
        if first_space(s) < s.len() {
            assert(s.drop_first()[first_space(s.drop_first())] == s[first_space(s)]);
        }
    }
}

/// `first_space(s)` is the unique position with no space byte before it
/// that is either the end of `s` or a space byte.
proof fn lemma_first_space_at(s: Seq<u8>, j: int)
    requires
        0 <= j <= s.len(),
        forall|k: int| 0 <= k < j ==> s[k] != SPACE,
        j == s.len() || s[j] == SPACE,
    ensures
        first_space(s) == j,
    decreases s.len(),
{
    if s.len() == 0 {
    } else if s[0] == SPACE {
        assert(j == 0);
    } else {
        assert(j >= 1);
        assert forall|k: int| 0 <= k < j - 1 implies s.drop_first()[k] != SPACE by {
            assert(s.drop_first()[k] == s[k + 1]);
        }
        if j - 1 < s.drop_first().len() {
            assert(s.drop_first()[j - 1] == s[j]);
        }
        lemma_first_space_at(s.drop_first(), j - 1);
    }
}

/// The tokens of `s`: the maximal runs of non-space bytes, in order. Runs
/// of spaces, and spaces at either end, produce no empty tokens.
pub open spec fn split_tokens(s: Seq<u8>) -> Seq<Seq<u8>>
    decreases s.len(),
    via split_tokens_decreases
{
    if s.len() == 0 {
        Seq::empty()
    } else if s[0] == SPACE {
        split_tokens(s.drop_first())
    } else {
        seq![s.take(first_space(s))] + split_tokens(s.skip(first_space(s)))
    }
}

#[via_fn]
proof fn split_tokens_decreases(s: Seq<u8>) {
    lemma_first_space_bounds(s);
}

/// Skipping a space byte leaves the tokens of the rest unchanged.
proof fn lemma_split_skip_space(s: Seq<u8>, i: int)
    requires
        0 <= i < s.len(),
        s[i] == SPACE,
    ensures
        split_tokens(s.skip(i)) == split_tokens(s.skip(i + 1)),
{
    assert(s.skip(i)[0] == s[i]);
    assert(s.skip(i).drop_first() =~= s.skip(i + 1));
}

/// A maximal non-space run `s[i..j]` is the next token: splitting from `i`
/// yields that run, then the tokens of the rest.
proof fn lemma_split_take_token(s: Seq<u8>, i: int, j: int)
    requires
        0 <= i < j <= s.len(),
        forall|k: int| i <= k < j ==> s[k] != SPACE,
        j == s.len() || s[j] == SPACE,
    ensures
        split_tokens(s.skip(i)) == seq![s.subrange(i, j)] + split_tokens(s.skip(j)),
{
    let t = s.skip(i);
    assert forall|k: int| 0 <= k < j - i implies t[k] != SPACE by {
        assert(t[k] == s[i + k]);
    }
    if j - i < t.len() {
        assert(t[j - i] == s[j]);
    }
    lemma_first_space_at(t, j - i);
    assert(t[0] == s[i]);
    assert(t.take(j - i) =~= s.subrange(i, j));
    assert(t.skip(j - i) =~= s.skip(j));
}

/// Splitting never yields an empty token and never leaves a delimiter
/// inside a token, however the spaces in `s` are run together or placed at
/// its ends.
pub proof fn lemma_tokens_well_formed(s: Seq<u8>)
    ensures
        forall|i: int| 0 <= i < split_tokens(s).len() ==> (#[trigger] split_tokens(s)[i]).len()
            > 0,
        forall|i: int, k: int|
            0 <= i < split_tokens(s).len() && 0 <= k < split_tokens(s)[i].len()
                ==> #[trigger] split_tokens(s)[i][k] != SPACE,
    decreases s.len(),
{
    if s.len() == 0 {
    } else if s[0] == SPACE {
        lemma_tokens_well_formed(s.drop_first());
        assert(split_tokens(s) == split_tokens(s.drop_first()));
    } else {
        lemma_first_space_bounds(s);
        lemma_tokens_well_formed(s.skip(first_space(s)));
        let head = s.take(first_space(s));
        let rest = split_tokens(s.skip(first_space(s)));
        assert(split_tokens(s) == seq![head] + rest);
        assert(head.len() > 0);
        assert(forall|k: int| 0 <= k < head.len() ==> head[k] != SPACE);
        assert(forall|i: int| 0 <= i < split_tokens(s).len() ==> split_tokens(s)[i] == (
        if i == 0 {
            head
        } else {
            rest[i - 1]
        }));
    }
}

/// A string that is one single token - nonempty, with no space byte -
/// tokenizes to exactly itself.
pub proof fn lemma_single_token(t: Seq<u8>)
    requires
        t.len() > 0,
        forall|k: int| 0 <= k < t.len() ==> t[k] != SPACE,
    ensures
        split_tokens(t) == seq![t],
{
    lemma_first_space_at(t, t.len() as int);
    assert(t.take(t.len() as int) =~= t);
    assert(t.skip(t.len() as int) =~= Seq::<u8>::empty());
    assert(seq![t.take(t.len() as int)] + split_tokens(t.skip(t.len() as int)) =~= seq![t]);
}

/// Tokenization is idempotent: every token that splitting yields, split
/// again, is itself the only token.
pub proof fn lemma_tokenization_idempotent(s: Seq<u8>, i: int)
    requires
        0 <= i < split_tokens(s).len(),
    ensures
        split_tokens(split_tokens(s)[i]) == seq![split_tokens(s)[i]],
{
    lemma_tokens_well_formed(s);
    lemma_single_token(split_tokens(s)[i]);
}

/// Split a flag string into its space-delimited tokens, preserving their
/// order and dropping empty ones.
pub fn split_flags(s: &Vec<u8>) -> (r: Vec<Vec<u8>>)
    ensures
        views_of(r@) == split_tokens(s@),
{
    let mut r: Vec<Vec<u8>> = Vec::new();
    let mut i: usize = 0;
    proof {
        assert(s@.skip(0) =~= s@);
        assert(views_of(r@) =~= Seq::<Seq<u8>>::empty());
    }
    while i < s.len()
        invariant
            i <= s@.len(),
            split_tokens(s@) == views_of(r@) + split_tokens(s@.skip(i as int)),
        decreases s@.len() - i,
    {
        if s[i] == SPACE {
            proof {
                lemma_split_skip_space(s@, i as int);
            }
            i = i + 1;
        } else {
            let start = i;
            let mut j: usize = i;
            while j < s.len() && s[j] != SPACE
                invariant
                    start <= j <= s@.len(),
                    start < s@.len(),
                    s@[start as int] != SPACE,
                    forall|k: int| start <= k < j ==> s@[k] != SPACE,
                decreases s@.len() - j,
            {
                j = j + 1;
            }
            let mut tok: Vec<u8> = Vec::new();
            let mut m: usize = start;
            while m < j
                invariant
                    start <= m <= j <= s@.len(),
                    tok@ == s@.subrange(start as int, m as int),
                decreases j - m,
            {
                tok.push(s[m]);
                proof {
                    assert(tok@ =~= s@.subrange(start as int, m as int + 1));
                }
                m = m + 1;
            }
            let ghost r0 = r@;
            proof {
                assert(start < j);
                lemma_split_take_token(s@, start as int, j as int);
            }
            r.push(tok);
            proof {
                assert(views_of(r@) =~= views_of(r0) + seq![tok@]);
                assert(views_of(r0) + (seq![s@.subrange(start as int, j as int)]
                    + split_tokens(s@.skip(j as int))) =~= (views_of(r0) + seq![tok@])
                    + split_tokens(s@.skip(j as int)));
            }
            i = j;
        }
    }
    proof {
        assert(s@.skip(s@.len() as int) =~= Seq::<u8>::empty());
        assert(views_of(r@) + split_tokens(s@.skip(s@.len() as int)) =~= views_of(r@));
    }
    r
}

/// Whether `s` is well-formed UTF-8.
pub uninterp spec fn is_utf8(s: Seq<u8>) -> bool;

/// Relies on std::str::from_utf8: it accepts exactly the byte strings that
/// are well-formed UTF-8.
#[verifier::external_body]
fn utf8_check(b: &Vec<u8>) -> (r: bool)
    ensures
        r == is_utf8(b@),
{
    std::str::from_utf8(b).is_ok()
}

/// The splitting operation for a platform whose command-line data must be
/// interpreted as text: the flag string must then be well-formed UTF-8,
/// and an ill-formed one is an error. On well-formed UTF-8 the space byte
/// never occurs inside a multi-byte character, so the tokens are the same
/// maximal non-space runs that [`split_flags`] yields.
pub fn split_flags_text(s: &Vec<u8>) -> (r: Result<Vec<Vec<u8>>, WrapperError>)
    ensures
        is_utf8(s@) ==> (r matches Ok(v) && views_of(v@) == split_tokens(s@)),
        !is_utf8(s@) ==> r == Result::<Vec<Vec<u8>>, WrapperError>::Err(
            WrapperError::InvalidFlagEncoding,
        ),
{
    if utf8_check(s) {
        Ok(split_flags(s))
    } else {
        Err(WrapperError::InvalidFlagEncoding)
    }
}

/// The argument vector after injection: the tokens of the flag string, when
/// one is present, followed by the original arguments; the original
/// arguments alone when none is.
pub open spec fn with_flags_injected(flags: Option<Vec<u8>>, orig: Seq<Seq<u8>>) -> Seq<Seq<u8>> {
    match flags {
        Option::Some(f) => split_tokens(f@) + orig,
        Option::None => orig,
    }
}

/// Prepend the tokens of the environment's flag string, when one is
/// present, to `args`, keeping the original arguments in order behind them.
/// An absent flag string injects nothing and is no error.
pub fn add_coverage_flags(env: &WrapperEnv, args: &mut Vec<Vec<u8>>)
    ensures
        views_of(final(args)@) == with_flags_injected(env.flags, views_of(old(args)@)),
{
    match &env.flags {
        Option::None => {}
        Option::Some(f) => {
            let mut injected = split_flags(f);
            let ghost injected0 = injected@;
            injected.append(args);
            proof {
                assert(views_of(injected@) =~= views_of(injected0) + views_of(old(args)@));
                assert(views_of(injected@) =~= split_tokens(f@) + views_of(old(args)@));
            }
            *args = injected;
        }
    }
}

} // verus!

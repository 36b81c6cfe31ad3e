//! String helpers for building import paths: separator normalization and
//! concatenation, with their specifications.

use vstd::prelude::*;

verus! {

/// `s` with every run of consecutive `/` characters collapsed to a single `/`.
pub open spec fn collapse_slashes(s: Seq<char>) -> Seq<char>
    decreases s.len(),
{
    if s.len() == 0 {
        Seq::empty()
    } else if s.len() >= 2 && s[0] == '/' && s[1] == '/' {
        collapse_slashes(s.drop_first())
    } else {
        seq![s[0]] + collapse_slashes(s.drop_first())
    }
}

/// A collapsed string is never empty when its source is not, and keeps its
/// source's first character.
pub proof fn lemma_collapse_first(s: Seq<char>)
    requires
        s.len() > 0,
    ensures
        collapse_slashes(s).len() > 0,
        collapse_slashes(s)[0] == s[0],
    decreases s.len(),
{
    if s.len() >= 2 && s[0] == '/' && s[1] == '/' {
        lemma_collapse_first(s.drop_first());
        assert(s.drop_first()[0] == s[1]);
    } else {
        assert(collapse_slashes(s)[0] == s[0]);
    }
}

/// A collapsed string holds no doubled `/` anywhere.
pub proof fn lemma_no_doubled_separator(s: Seq<char>)
    ensures
        forall|i: int|
            0 <= i && i + 1 < collapse_slashes(s).len() ==> !((#[trigger] collapse_slashes(s)[i])
                == '/' && collapse_slashes(s)[i + 1] == '/'),
    decreases s.len(),
{
    if s.len() == 0 {
    } else if s.len() >= 2 && s[0] == '/' && s[1] == '/' {
        lemma_no_doubled_separator(s.drop_first());
        assert(collapse_slashes(s) == collapse_slashes(s.drop_first()));
        assert forall|i: int| 0 <= i && i + 1 < collapse_slashes(s).len() implies !((
        #[trigger] collapse_slashes(s)[i]) == '/' && collapse_slashes(s)[i + 1] == '/') by {
            assert(!(collapse_slashes(s.drop_first())[i] == '/' && collapse_slashes(
                s.drop_first(),
            )[i + 1] == '/'));
        }
    } else {
        lemma_no_doubled_separator(s.drop_first());
        let c = collapse_slashes(s.drop_first());
        assert forall|i: int| 0 <= i && i + 1 < collapse_slashes(s).len() implies !((
        #[trigger] collapse_slashes(s)[i]) == '/' && collapse_slashes(s)[i + 1] == '/') by {
            if i == 0 {
                if s[0] == '/' && c.len() > 0 {
                    lemma_collapse_first(s.drop_first());
                    assert(collapse_slashes(s)[1] == c[0]);
                    assert(c[0] == s[1]);
                }
            } else {
                assert(collapse_slashes(s)[i] == c[i - 1]);
                assert(collapse_slashes(s)[i + 1] == c[i]);
            }
        }
    }
}

/// Relies on `String: FromIterator<char>` (`collect`): the resulting string
/// holds exactly the given characters, in order.
#[verifier::external_body]
fn chars_to_string(v: &Vec<char>) -> (r: String)
    ensures
        r@ == v@,
{
    v.iter().collect()
}

/// Collapses every run of consecutive `/` characters in `s` to a single `/`.
pub fn normalize_slashes(s: &str) -> (r: String)
    ensures
        r@ == collapse_slashes(s@),
{
    let n = s.unicode_len();
    let mut out: Vec<char> = Vec::new();
    let mut i: usize = 0;
    proof {
        assert(s@.skip(0) =~= s@);
        assert(out@ + collapse_slashes(s@) =~= collapse_slashes(s@));
    }
    while i < n
        invariant
            n == s@.len(),
            i <= n,
            out@ + collapse_slashes(s@.skip(i as int)) == collapse_slashes(s@),
        decreases n - i,
    {
        let c = s.get_char(i);
        proof {
            assert(s@.skip(i as int).drop_first() =~= s@.skip(i + 1 as int));
            assert(s@.skip(i as int)[0] == s@[i as int]);
        }
        if c == '/' && i + 1 < n && s.get_char(i + 1) == '/' {
            proof {
                assert(s@.skip(i as int)[1] == s@[i + 1 as int]);
                assert(out@ + collapse_slashes(s@.skip(i + 1 as int)) =~= collapse_slashes(s@));
            }
        } else {
            out.push(c);
            proof {
                assert(collapse_slashes(s@.skip(i as int)) =~= seq![s@[i as int]]
                    + collapse_slashes(s@.skip(i + 1 as int)));
                assert(out@ + collapse_slashes(s@.skip(i + 1 as int)) =~= collapse_slashes(s@));
            }
        }
        i = i + 1;
    }
    proof {
        assert(s@.skip(n as int) =~= Seq::<char>::empty());
        assert(out@ =~= collapse_slashes(s@));
    }
    chars_to_string(&out)
}

/// `package + "/" + dir + "/" + seg`, before separator normalization.
pub fn join_segments(package: &str, dir: &str, seg: &str) -> (r: String)
    ensures
        r@ == package@ + seq!['/'] + dir@ + seq!['/'] + seg@,
{
    proof {
        reveal_strlit("/");
        assert("/"@ =~= seq!['/']);
    }
    let r = String::from_str(package);
    let r = r.concat("/");
    let r = r.concat(dir);
    let r = r.concat("/");
    let r = r.concat(seg);
    proof {
        assert(r@ =~= package@ + seq!['/'] + dir@ + seq!['/'] + seg@);
    }
    r
}

} // verus!


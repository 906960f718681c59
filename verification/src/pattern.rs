//! The pattern compiler: translates a wildcard path pattern into an anchored
//! regular expression together with the ordered list of `{name}` parameters
//! it captures.
//!
//! The dialect: `**` matches any characters including `/`; `*` matches any
//! run of characters without `/`; `{name}` captures one or more characters
//! without `/`; regex metacharacters are escaped; everything else is emitted
//! verbatim. The result is anchored at both ends. A pattern that ends in
//! `/**` also matches an empty remainder: `/files/**` matches `/files`.

use vstd::prelude::*;

verus! {

/// Characters that must be escaped when they appear literally in a pattern.
pub open spec fn is_special(c: char) -> bool {
    ||| c == '.'
    ||| c == '^'
    ||| c == '$'
    ||| c == '('
    ||| c == ')'
    ||| c == '['
    ||| c == ']'
    ||| c == '|'
    ||| c == '+'
    ||| c == '?'
    ||| c == '\\'
}

/// Index of the first `}` in `s`, or `s.len()` when there is none.
pub open spec fn brace_end(s: Seq<char>) -> nat
    decreases s.len(),
{
    if s.len() == 0 {
        0
    } else if s[0] == '}' {
        0
    } else {
        1 + brace_end(s.skip(1))
    }
}

/// `brace_end` computed from a scan: if nothing before `m` is a `}` and `m`
/// is a `}` or the end, then `brace_end` is `m`.
pub proof fn lemma_brace_end_at(s: Seq<char>, m: int)
    requires
        0 <= m <= s.len(),
        forall|k: int| 0 <= k < m ==> s[k] != '}',
        m < s.len() ==> s[m] == '}',
    ensures
        brace_end(s) == m,
    decreases m,
{
    if m == 0 {
    } else {
        lemma_brace_end_at(s.skip(1), m - 1);
    }
}

/// The regular-expression body (without the surrounding anchors) that a
/// wildcard pattern compiles to.
pub open spec fn wild_body(p: Seq<char>) -> Seq<char>
    decreases p.len(),
{
    if p.len() == 0 {
        Seq::<char>::empty()
    } else if p[0] == '/' && p.len() == 3 && p[1] == '*' && p[2] == '*' {
        "(?:/.*)?"@ + wild_body(p.skip(3))
    } else if p[0] == '*' && p.len() >= 2 && p[1] == '*' {
        ".*"@ + wild_body(p.skip(2))
    } else if p[0] == '*' {
        "[^/]*"@ + wild_body(p.skip(1))
    } else if p[0] == '{' {
        let rest = p.skip(1);
        let m = brace_end(rest);
        let name = rest.take(m as int);
        let after = if m < rest.len() {
            rest.skip(m + 1 as int)
        } else {
            Seq::<char>::empty()
        };
        (if name.len() > 0 {
            "([^/]+)"@
        } else {
            Seq::<char>::empty()
        }) + wild_body(after)
    } else if is_special(p[0]) {
        seq!['\\', p[0]] + wild_body(p.skip(1))
    } else {
        seq![p[0]] + wild_body(p.skip(1))
    }
}

/// The capture-parameter names of a wildcard pattern, in source order.
pub open spec fn wild_names(p: Seq<char>) -> Seq<Seq<char>>
    decreases p.len(),
{
    if p.len() == 0 {
        Seq::<Seq<char>>::empty()
    } else if p[0] == '/' && p.len() == 3 && p[1] == '*' && p[2] == '*' {
        wild_names(p.skip(3))
    } else if p[0] == '*' && p.len() >= 2 && p[1] == '*' {
        wild_names(p.skip(2))
    } else if p[0] == '*' {
        wild_names(p.skip(1))
    } else if p[0] == '{' {
        let rest = p.skip(1);
        let m = brace_end(rest);
        let name = rest.take(m as int);
        let after = if m < rest.len() {
            rest.skip(m + 1 as int)
        } else {
            Seq::<char>::empty()
        };
        (if name.len() > 0 {
            seq![name]
        } else {
            Seq::<Seq<char>>::empty()
        }) + wild_names(after)
    } else {
        wild_names(p.skip(1))
    }
}

/// The full anchored regular expression for a wildcard pattern.
pub open spec fn wildcard_regex(p: Seq<char>) -> Seq<char> {
    seq!['^'] + wild_body(p) + seq!['$']
}

/// Translates a wildcard pattern into its anchored regular expression and
/// the ordered capture-parameter names.
pub fn compile_wildcard_pattern(pattern: &str) -> (res: (String, Vec<String>))
    ensures
        res.0@ == wildcard_regex(pattern@),
        res.1.deep_view() == wild_names(pattern@),
{
    let n = pattern.unicode_len();
    let mut out = String::from_str("^");
    let mut names: Vec<String> = Vec::new();
    let mut i: usize = 0;
    proof {
        assert(pattern@.skip(0) =~= pattern@);
        reveal_strlit("^");
        assert(out@ =~= seq!['^']);
    }
    while i < n
        invariant
            n == pattern@.len(),
            i <= n,
            seq!['^'] + wild_body(pattern@) =~= out@ + wild_body(pattern@.skip(i as int)),
            wild_names(pattern@) =~~= names.deep_view() + wild_names(pattern@.skip(i as int)),
        decreases n - i,
    {
        let ghost pre = pattern@.skip(i as int);
        let c = pattern.get_char(i);
        assert(pre[0] == c);
        if c == '/' && n - i == 3 && pattern.get_char(i + 1) == '*' && pattern.get_char(i + 2)
            == '*' {
            // A trailing `/**` also matches an empty remainder: the
            // separator becomes optional together with the rest.
            out.append("(?:/.*)?");
            proof {
                assert(pre.len() == 3 && pre[1] == '*' && pre[2] == '*');
                assert(pre.skip(3) =~= pattern@.skip(i + 3 as int));
            }
            i = i + 3;
        } else if c == '*' {
            if i + 1 < n && pattern.get_char(i + 1) == '*' {
                out.append(".*");
                proof {
                    assert(pre.len() >= 2 && pre[1] == '*');
                    assert(pre.skip(2) =~= pattern@.skip(i + 2 as int));
                }
                i = i + 2;
            } else {
                out.append("[^/]*");
                proof {
                    assert(!(pre.len() >= 2 && pre[1] == '*'));
                    assert(pre.skip(1) =~= pattern@.skip(i + 1 as int));
                }
                i = i + 1;
            }
        } else if c == '{' {
            let mut j = i + 1;
            while j < n && pattern.get_char(j) != '}'
                invariant
                    n == pattern@.len(),
                    i + 1 <= j <= n,
                    forall|k: int| i + 1 <= k < j ==> pattern@[k] != '}',
                decreases n - j,
            {
                j = j + 1;
            }
            // j is the index of the first `}` at or after i + 1, or n.
            let ghost rest = pre.skip(1);
            proof {
                assert(rest =~= pattern@.skip(i + 1 as int));
                assert forall|k: int| 0 <= k < j - (i + 1) implies rest[k] != '}' by {
                    assert(pattern@[k + i + 1] != '}');
                }
                lemma_brace_end_at(rest, j - (i + 1));
            }
            let name = pattern.substring_char(i + 1, j);
            proof {
                assert(name@ =~= rest.take(brace_end(rest) as int));
            }
            if name.unicode_len() > 0 {
                names.push(String::from_str(name));
                out.append("([^/]+)");
            }
            proof {
                let after = if brace_end(rest) < rest.len() {
                    rest.skip(brace_end(rest) + 1 as int)
                } else {
                    Seq::<char>::empty()
                };
                if j < n {
                    assert(after =~= pattern@.skip(j + 1 as int));
                } else {
                    assert(after =~= pattern@.skip(n as int));
                }
            }
            i = if j < n {
                j + 1
            } else {
                n
            };
        } else {
            let piece = pattern.substring_char(i, i + 1);
            let is_sp = {
                let cu = c as u32;
                cu == '.' as u32 || cu == '^' as u32 || cu == '$' as u32 || cu == '(' as u32
                    || cu == ')' as u32 || cu == '[' as u32 || cu == ']' as u32 || cu == '|' as u32
                    || cu == '+' as u32 || cu == '?' as u32 || cu == '\\' as u32
            };
            if is_sp {
                out.append("\\");
                proof {
                    reveal_strlit("\\");
                }
            }
            out.append(piece);
            proof {
                assert(piece@ =~= seq![pre[0]]);
                assert(pre.skip(1) =~= pattern@.skip(i + 1 as int));
            }
            i = i + 1;
        }
    }
    out.append("$");
    proof {
        reveal_strlit("$");
        assert(pattern@.skip(n as int) =~= Seq::<char>::empty());
        assert(out@ =~= wildcard_regex(pattern@));
        assert(names.deep_view() =~~= wild_names(pattern@));
    }
    (out, names)
}

} // verus!

//! Splitting a body of text into lines.
//!
//! A line ends at a `'\n'`, and a `'\r'` standing immediately before that
//! `'\n'` belongs to the terminator, not to the line. A `'\r'` anywhere else
//! is an ordinary character. A trailing terminator closes the last line
//! without opening an empty one.

use vstd::prelude::*;

verus! {

/// The position of the first `'\n'` in `s`, or `s.len()` when there is none.
pub open spec fn first_newline(s: Seq<char>) -> nat
    decreases s.len(),
{
    if s.len() == 0 {
        0
    } else if s[0] == '\n' {
        0
    } else {
        1 + first_newline(s.subrange(1, s.len() as int))
    }
}

/// What `first_newline` finds: no `'\n'` before it, and a `'\n'` at it
/// unless the text holds none at all.
pub proof fn lemma_first_newline(s: Seq<char>)
    ensures
        first_newline(s) <= s.len(),
        forall|j: int| 0 <= j < first_newline(s) ==> s[j] != '\n',
        first_newline(s) < s.len() ==> s[first_newline(s) as int] == '\n',
    decreases s.len(),
{
    if s.len() != 0 && s[0] != '\n' {
        let tail = s.subrange(1, s.len() as int);
        lemma_first_newline(tail);
        assert forall|j: int| 0 <= j < first_newline(s) implies s[j] != '\n' by {
            if j > 0 {
                assert(s[j] == tail[j - 1]);
            }
        }
    }
}

/// `first_newline` is the one position with nothing but plain characters
/// before it and a `'\n'` at it (or the length, when no `'\n'` occurs).
pub proof fn lemma_first_newline_at(s: Seq<char>, k: int)
    requires
        0 <= k <= s.len(),
        forall|j: int| 0 <= j < k ==> s[j] != '\n',
        k < s.len() ==> s[k] == '\n',
    ensures
        first_newline(s) == k,
    decreases s.len(),
{
    if k == 0 {
        if s.len() > 0 {
            assert(s[0] == '\n');
        }
    } else {
        let tail = s.subrange(1, s.len() as int);
        assert(s[0] != '\n');
        assert forall|j: int| 0 <= j < k - 1 implies tail[j] != '\n' by {
            assert(tail[j] == s[j + 1]);
        }
        assert(k - 1 < tail.len() ==> tail[k - 1] == s[k]);
        lemma_first_newline_at(tail, k - 1);
    }
}

/// The lines of `s`, in their order of appearance.
pub open spec fn lines_spec(s: Seq<char>) -> Seq<Seq<char>>
    decreases s.len(),
{
    if s.len() == 0 {
        Seq::empty()
    } else {
        let k = first_newline(s) as int;
        if k >= s.len() {
            seq![s]
        } else {
            let end = if k > 0 && s[k - 1] == '\r' {
                k - 1
            } else {
                k
            };
            seq![s.subrange(0, end)] + lines_spec(s.subrange(k + 1, s.len() as int))
        }
    }
}

/// The text after a line's terminator contributes exactly the later lines.
pub proof fn lemma_lines_step(s: Seq<char>, k: int)
    requires
        0 <= k < s.len(),
        first_newline(s) == k,
    ensures
        lines_spec(s) == seq![
            s.subrange(
                0,
                if k > 0 && s[k - 1] == '\r' {
                    k - 1
                } else {
                    k
                },
            ),
        ] + lines_spec(s.subrange(k + 1, s.len() as int)),
{
}

/// The lines of `contents`, each a view into `contents` itself.
pub fn split_lines<'a>(contents: &'a str) -> (lines: Vec<&'a str>)
    ensures
        lines.deep_view() == lines_spec(contents@),
{
    let n = contents.unicode_len();
    let mut lines: Vec<&'a str> = Vec::new();
    let mut start: usize = 0;
    let mut i: usize = 0;
    proof {
        assert(contents@.subrange(0, n as int) =~= contents@);
        assert(lines.deep_view() + lines_spec(contents@) =~= lines_spec(contents@));
    }
    while i < n
        invariant
            n == contents@.len(),
            start <= i <= n,
            forall|j: int| start <= j < i ==> contents@[j] != '\n',
            lines.deep_view() + lines_spec(contents@.subrange(start as int, n as int))
                =~= lines_spec(contents@),
        decreases n - i,
    {
        if contents.get_char(i) == '\n' {
            let end = if i > start && contents.get_char(i - 1) == '\r' {
                i - 1
            } else {
                i
            };
            let line = contents.substring_char(start, end);
            let ghost rest = contents@.subrange(start as int, n as int);
            proof {
                assert forall|j: int| 0 <= j < i - start implies rest[j] != '\n' by {
                    assert(rest[j] == contents@[start + j]);
                }
                assert(rest[i - start] == contents@[i as int]);
                lemma_first_newline_at(rest, i - start);
                lemma_lines_step(rest, i - start);
                assert(rest.subrange(0, end - start) =~= contents@.subrange(
                    start as int,
                    end as int,
                ));
                assert(rest.subrange(i - start + 1, rest.len() as int) =~= contents@.subrange(
                    i + 1,
                    n as int,
                ));
            }
            lines.push(line);
            proof {
                assert(lines.deep_view() + lines_spec(contents@.subrange(i + 1, n as int))
                    =~= lines_spec(contents@));
            }
            start = i + 1;
        }
        i += 1;
    }
    if start < n {
        let line = contents.substring_char(start, n);
        let ghost rest = contents@.subrange(start as int, n as int);
        proof {
            assert forall|j: int| 0 <= j < rest.len() implies rest[j] != '\n' by {
                assert(rest[j] == contents@[start + j]);
            }
            lemma_first_newline_at(rest, rest.len() as int);
            assert(lines_spec(rest) == seq![rest]);
            assert(rest =~= contents@.subrange(start as int, n as int));
        }
        lines.push(line);
        proof {
            assert(lines.deep_view() =~= lines_spec(contents@));
        }
    } else {
        proof {
            assert(lines_spec(contents@.subrange(start as int, n as int)) =~= Seq::empty());
            assert(lines.deep_view() =~= lines_spec(contents@));
        }
    }
    lines
}

} // verus!

use vstd::prelude::*;
use vstd::string::StrSliceExecFns;

verus! {

/// The longest stretch, in characters, that one mustache expression (from
/// its `{{` to its `}}`) may span in a template the scaffolder accepts.
pub const MAX_MUSTACHE_SPAN: usize = 130;

/// How many block-opening mustaches (`{{#...}}`) a template the scaffolder
/// accepts may hold in all.
pub const MAX_BLOCK_OPENS: usize = 64;

/// Characters with no meaning of their own right after a mustache opener:
/// whitespace, and the tilde that trims surrounding whitespace.
pub open spec fn skippable_char(c: char) -> bool {
    c == ' ' || c == '\t' || c == '\r' || c == '\n' || c == '~'
}

/// Characters the scaffolder refuses between mustache braces: `>` and `*`
/// open partial inclusion and decorators (through which the rendering
/// engine can recurse without bound), quotes can hide a `}}` inside a
/// string argument, and `(` and `[` nest subexpressions and arrays to any
/// depth.
pub open spec fn refused_char(c: char) -> bool {
    c == '>' || c == '*' || c == '"' || c == '\'' || c == '(' || c == '['
}

/// A mustache opener (`{{`) stands at position `i`.
pub open spec fn mustache_at(t: Seq<char>, i: int) -> bool {
    0 <= i && i + 1 < t.len() && t[i] == '{' && t[i + 1] == '{'
}

/// A mustache closer (`}}`) stands at position `j`.
pub open spec fn close_at(t: Seq<char>, j: int) -> bool {
    0 <= j && j + 1 < t.len() && t[j] == '}' && t[j + 1] == '}'
}

/// No refused character stands between the opener at `i` and position `j`.
pub open spec fn clean_before(t: Seq<char>, i: int, j: int) -> bool {
    forall|k: int| i + 2 <= k < j ==> !refused_char(t[k])
}

/// The mustache opened at `i` is harmless: a closer follows within
/// [`MAX_MUSTACHE_SPAN`] characters, with no refused character in between.
pub open spec fn mustache_ok(t: Seq<char>, i: int) -> bool {
    exists|j: int|
        i + 2 <= j <= i + MAX_MUSTACHE_SPAN && #[trigger] close_at(t, j) && clean_before(t, i, j)
}

/// The mustache at `i` opens a helper block: the first character after the
/// run of whitespace and tildes is `#`.
pub open spec fn block_open_at(t: Seq<char>, i: int) -> bool {
    mustache_at(t, i) && exists|m: int|
        i + 2 <= m < t.len() && t[m] == '#' && (forall|k: int|
            i + 2 <= k < m ==> skippable_char(t[k]))
}

/// How many block-opening mustaches stand before position `upto`.
pub open spec fn count_block_opens(t: Seq<char>, upto: int) -> nat
    decreases upto,
{
    if upto <= 0 {
        0
    } else {
        count_block_opens(t, upto - 1) + (if block_open_at(t, upto - 1) {
            1nat
        } else {
            0nat
        })
    }
}

proof fn lemma_count_block_opens_mono(t: Seq<char>, a: int, b: int)
    requires
        a <= b,
    ensures
        count_block_opens(t, a) <= count_block_opens(t, b),
    decreases b - a,
{
    if a < b {
        lemma_count_block_opens_mono(t, a, b - 1);
    }
}

/// A template text on which the rendering engine is known to return: every
/// mustache closes promptly and holds no partial-inclusion, decorator,
/// quote or grouping character, and at most [`MAX_BLOCK_OPENS`] helper
/// blocks open in all.  The engine's grammar puts the `>` of a partial and
/// the `*` of a decorator right after the opener, behind nothing but
/// whitespace, tildes and `#`, so such a text reaches no partial expansion;
/// with quotes and grouping characters refused as well, every expression
/// ends at the first `}}` and is as short as its span, and the engine's
/// recursion is bounded by the block count.  The scan looks at every
/// occurrence of `{{`, whether or not the engine would read it as an
/// opener, so it errs only towards refusing.
pub open spec fn safe_template(t: Seq<char>) -> bool {
    (forall|i: int| mustache_at(t, i) ==> mustache_ok(t, i)) && count_block_opens(
        t,
        t.len() as int,
    ) <= MAX_BLOCK_OPENS
}

/// Whether the mustache opened at `i` is harmless.
fn mustache_ok_at(text: &str, n: usize, i: usize) -> (b: bool)
    requires
        n == text@.len(),
        i + 1 < n,
    ensures
        b == mustache_ok(text@, i as int),
{
    let mut j: usize = i + 2;
    while j < n - 1 && j - i <= MAX_MUSTACHE_SPAN
        invariant
            n == text@.len(),
            1 <= n,
            i + 2 <= j,
            j <= i + MAX_MUSTACHE_SPAN + 1,
            forall|k: int| i + 2 <= k < j ==> !(#[trigger] refused_char(text@[k])),
            forall|k: int| i + 2 <= k < j ==> !(#[trigger] close_at(text@, k)),
        decreases i + MAX_MUSTACHE_SPAN + 1 - j,
    {
        let c = text.get_char(j);
        if c == '}' {
            if text.get_char(j + 1) == '}' {
                proof {
                    assert(close_at(text@, j as int));
                    assert(clean_before(text@, i as int, j as int));
                }
                return true;
            }
        } else if c == '>' || c == '*' || c == '"' || c == '\'' || c == '(' || c == '[' {
            proof {
                assert(refused_char(text@[j as int]));
                assert forall|j2: int|
                    i + 2 <= j2 <= i + MAX_MUSTACHE_SPAN && #[trigger] close_at(
                        text@,
                        j2,
                    ) implies !clean_before(text@, i as int, j2) by {
                    assert(!close_at(text@, j as int));
                    assert(j2 > j);
                    assert(i + 2 <= j < j2 && refused_char(text@[j as int]));
                }
                assert(!mustache_ok(text@, i as int));
            }
            return false;
        }
        proof {
            assert(!refused_char(text@[j as int]));
            assert(!close_at(text@, j as int));
        }
        j += 1;
    }
    proof {
        assert forall|j2: int|
            i + 2 <= j2 <= i + MAX_MUSTACHE_SPAN && #[trigger] close_at(text@, j2) implies false by {
            assert(j2 < j);
            assert(!close_at(text@, j2));
        }
        assert(!mustache_ok(text@, i as int));
    }
    false
}

/// Whether the mustache at `i` opens a helper block.
fn block_open_scan(text: &str, n: usize, i: usize) -> (b: bool)
    requires
        n == text@.len(),
        i + 1 < n,
        mustache_at(text@, i as int),
    ensures
        b == block_open_at(text@, i as int),
{
    let mut m: usize = i + 2;
    while m < n
        invariant
            n == text@.len(),
            i + 2 <= m <= n,
            mustache_at(text@, i as int),
            forall|k: int| i + 2 <= k < m ==> skippable_char(text@[k]),
        decreases n - m,
    {
        let c = text.get_char(m);
        if c == '#' {
            assert(block_open_at(text@, i as int));
            return true;
        }
        if !(c == ' ' || c == '\t' || c == '\r' || c == '\n' || c == '~') {
            proof {
                assert forall|m2: int|
                    i + 2 <= m2 < text@.len() && text@[m2] == '#' implies !(forall|k: int|
                    i + 2 <= k < m2 ==> skippable_char(text@[k])) by {
                    assert(!skippable_char(text@[m as int]));
                    assert(m2 != m);
                    if m2 < m {
                        assert(skippable_char(text@[m2]));
                    } else {
                        assert(i + 2 <= m < m2 && !skippable_char(text@[m as int]));
                    }
                }
                assert(!block_open_at(text@, i as int));
            }
            return false;
        }
        m += 1;
    }
    proof {
        assert forall|m2: int|
            i + 2 <= m2 < text@.len() && text@[m2] == '#' implies false by {
            assert(skippable_char(text@[m2]));
        }
        assert(!block_open_at(text@, i as int));
    }
    false
}

/// Decide [`safe_template`] for a text, before the rendering engine ever
/// sees it.
pub fn template_is_safe(text: &str) -> (b: bool)
    ensures
        b == safe_template(text@),
{
    let n = text.unicode_len();
    let mut opens: usize = 0;
    let mut i: usize = 0;
    while i < n
        invariant
            n == text@.len(),
            i <= n,
            forall|p: int| 0 <= p < i ==> (mustache_at(text@, p) ==> mustache_ok(text@, p)),
            opens == count_block_opens(text@, i as int),
            opens <= MAX_BLOCK_OPENS,
        decreases n - i,
    {
        proof {
            assert(count_block_opens(text@, i as int + 1) == count_block_opens(text@, i as int)
                + (if block_open_at(text@, i as int) {
                1nat
            } else {
                0nat
            }));
        }
        let c = text.get_char(i);
        if c == '{' && i + 1 < n && text.get_char(i + 1) == '{' {
            assert(mustache_at(text@, i as int));
            if !mustache_ok_at(text, n, i) {
                assert(!safe_template(text@));
                return false;
            }
            if block_open_scan(text, n, i) {
                if opens == MAX_BLOCK_OPENS {
                    proof {
                        lemma_count_block_opens_mono(text@, i as int + 1, n as int);
                        assert(!safe_template(text@));
                    }
                    return false;
                }
                opens += 1;
            }
        } else {
            assert(!mustache_at(text@, i as int));
        }
        i += 1;
    }
    assert(safe_template(text@)) by {
        assert(forall|p: int| mustache_at(text@, p) ==> 0 <= p < n);
    }
    true
}

} // verus!

//! Scene paths: a glTF file, optionally followed by `#Scene<n>` to pick its `n`-th scene.
use vstd::prelude::*;

verus! {

pub open spec fn is_digit(c: char) -> bool {
    '0' <= c && c <= '9'
}

pub open spec fn digit_value(c: char) -> nat {
    ((c as u32) - ('0' as u32)) as nat
}

pub open spec fn all_digits(t: Seq<char>) -> bool {
    forall|i: int| 0 <= i < t.len() ==> is_digit(#[trigger] t[i])
}

/// The number that a string of decimal digits writes.
pub open spec fn digits_value(t: Seq<char>) -> nat
    decreases t.len(),
{
    if t.len() == 0 {
        0
    } else {
        digits_value(t.drop_last()) * 10 + digit_value(t.last())
    }
}

/// What follows an optional leading `+`.
pub open spec fn unsigned_body(t: Seq<char>) -> Seq<char> {
    if t.len() > 0 && t[0] == '+' {
        t.drop_first()
    } else {
        t
    }
}

/// How an unsigned index is read: an optional `+`, then one or more decimal digits, whose
/// value must fit in `usize`; nothing else, not even spaces.
pub open spec fn parse_index_spec(t: Seq<char>) -> Option<usize> {
    let b = unsigned_body(t);
    if b.len() > 0 && all_digits(b) && digits_value(b) <= usize::MAX {
        Some(digits_value(b) as usize)
    } else {
        None
    }
}

/// The position of the last `c` in `s`, or -1.
pub open spec fn last_index_of(s: Seq<char>, c: char) -> int
    decreases s.len(),
{
    if s.len() == 0 {
        -1
    } else if s.last() == c {
        s.len() - 1
    } else {
        last_index_of(s.drop_last(), c)
    }
}

pub open spec fn scene_prefix() -> Seq<char> {
    "Scene"@
}

/// The file and the scene index that a scene path names: where the part after the last `#`
/// is `Scene` followed by an index, the file is what precedes that `#`; otherwise the whole
/// path is the file and the scene is the first.
pub open spec fn parse_scene_spec(s: Seq<char>) -> (Seq<char>, usize) {
    let k = last_index_of(s, '#');
    let suffix = s.subrange(k + 1, s.len() as int);
    if k >= 0 && suffix.len() >= scene_prefix().len() && suffix.subrange(
        0,
        scene_prefix().len() as int,
    ) == scene_prefix() && parse_index_spec(
        suffix.subrange(scene_prefix().len() as int, suffix.len() as int),
    ) is Some {
        (
            s.subrange(0, k),
            parse_index_spec(
                suffix.subrange(scene_prefix().len() as int, suffix.len() as int),
            )->Some_0,
        )
    } else {
        (s, 0)
    }
}

proof fn lemma_last_index_of_range(s: Seq<char>, c: char)
    ensures
        -1 <= last_index_of(s, c) < s.len(),
        last_index_of(s, c) >= 0 ==> s[last_index_of(s, c)] == c,
    decreases s.len(),
{
    if s.len() > 0 && s.last() != c {
        lemma_last_index_of_range(s.drop_last(), c);
    }
}

/// A prefix of a string of digits never writes a larger number than the whole.
proof fn lemma_digits_value_prefix(t: Seq<char>, i: int)
    requires
        0 <= i <= t.len(),
    ensures
        digits_value(t.subrange(0, i)) <= digits_value(t),
    decreases t.len(),
{
    if i < t.len() {
        assert(t.drop_last() =~= t.subrange(0, t.len() - 1));
        assert(t.subrange(0, i) =~= t.drop_last().subrange(0, i));
        lemma_digits_value_prefix(t.drop_last(), i);
    } else {
        assert(t.subrange(0, i) =~= t);
    }
}

/// Reads an unsigned index the way `str::parse::<usize>` does.
pub fn parse_index(t: &str) -> (r: Option<usize>)
    ensures
        r == parse_index_spec(t@),
{
    let n = t.unicode_len();
    let mut start: usize = 0;
    if n > 0 && t.get_char(0) == '+' {
        start = 1;
    }
    let ghost body = unsigned_body(t@);
    assert(body =~= t@.subrange(start as int, n as int));
    if start == n {
        return None;
    }
    let mut acc: usize = 0;
    let mut i: usize = start;
    while i < n
        invariant
            n == t@.len(),
            start <= i <= n,
            body == unsigned_body(t@),
            body =~= t@.subrange(start as int, n as int),
            all_digits(t@.subrange(start as int, i as int)),
            acc == digits_value(t@.subrange(start as int, i as int)),
        decreases n - i,
    {
        let ghost prefix = t@.subrange(start as int, i as int);
        let ghost next = t@.subrange(start as int, i + 1);
        let c = t.get_char(i);
        if !('0' <= c && c <= '9') {
            assert(!is_digit(body[i - start]));
            return None;
        }
        assert(next.drop_last() =~= prefix);
        let d = ((c as u32) - ('0' as u32)) as usize;
        assert(digits_value(next) == acc * 10 + d);
        proof {
            if all_digits(body) {
                assert(next =~= body.subrange(0, i + 1 - start));
                lemma_digits_value_prefix(body, i + 1 - start);
            }
        }
        let m = match acc.checked_mul(10) {
            Some(m) => m,
            None => {
                assert(all_digits(body) ==> digits_value(body) > usize::MAX);
                return None;
            },
        };
        let v = match m.checked_add(d) {
            Some(v) => v,
            None => {
                assert(all_digits(body) ==> digits_value(body) > usize::MAX);
                return None;
            },
        };
        acc = v;
        i = i + 1;
    }
    assert(t@.subrange(start as int, i as int) =~= body);
    Some(acc)
}

/// Splits a scene path into the file to load and the index of the scene in it.
pub fn parse_scene(scene_path: String) -> (r: (String, usize))
    ensures
        (r.0@, r.1) == parse_scene_spec(scene_path@),
{
    let s = scene_path.as_str();
    let n = s.unicode_len();
    let mut i: usize = n;
    assert(s@.subrange(0, n as int) =~= s@);
    while i > 0 && s.get_char(i - 1) != '#'
        invariant
            i <= n == s@.len(),
            last_index_of(s@, '#') == last_index_of(s@.subrange(0, i as int), '#'),
        decreases i,
    {
        assert(s@.subrange(0, i as int).drop_last() =~= s@.subrange(0, i - 1));
        i = i - 1;
    }
    proof {
        lemma_last_index_of_range(s@, '#');
        if i == 0 {
            assert(s@.subrange(0, 0).len() == 0);
        }
    }
    if i == 0 {
        return (scene_path, 0);
    }
    let k = i - 1;
    assert(last_index_of(s@, '#') == k);
    let suffix = s.substring_char(i, n);
    proof {
        reveal_strlit("Scene");
    }
    let m = suffix.unicode_len();
    if m < 5 {
        return (scene_path, 0);
    }
    let head = suffix.substring_char(0, 5);
    let head = String::from_str(head);
    let scene = String::from_str("Scene");
    if !head.eq(&scene) {
        return (scene_path, 0);
    }
    match parse_index(suffix.substring_char(5, m)) {
        Some(index) => {
            let path = String::from_str(s.substring_char(0, k));
            (path, index)
        },
        None => (scene_path, 0),
    }
}

} // verus!

use vstd::prelude::*;

verus! {

/// Appends one character to a string.
/// Wraps `String::push`, whose documentation says it appends the given char to the end.
#[verifier::external_body]
pub(crate) fn push_char(s: &mut String, c: char)
    ensures
        final(s)@ == old(s)@.push(c),
{
    s.push(c);
}

/// The characters of a string slice, in order.
pub fn chars_of(s: &str) -> (chars: Vec<char>)
    ensures
        chars@ == s@,
{
    let mut chars: Vec<char> = Vec::new();
    for c in it: s.chars()
        invariant
            chars@ == it.seq().take(it.index() as int),
    {
        chars.push(c);
    }
    chars
}


/// The string made of `chars[from..to]`.
pub fn string_from(chars: &Vec<char>, from: usize, to: usize) -> (s: String)
    requires
        from <= to <= chars@.len(),
    ensures
        s@ == chars@.subrange(from as int, to as int),
{
    let mut s = String::new();
    let mut i = from;
    while i < to
        invariant
            from <= i <= to <= chars@.len(),
            s@ == chars@.subrange(from as int, i as int),
        decreases to - i,
    {
        push_char(&mut s, chars[i]);
        i = i + 1;
    }
    s
}

/// Unicode `White_Space`, the property that `char::is_whitespace` tests.
pub open spec fn is_whitespace_spec(c: char) -> bool {
    let u = c as u32;
    ||| 0x9 <= u <= 0xd
    ||| u == 0x20
    ||| u == 0x85
    ||| u == 0xa0
    ||| u == 0x1680
    ||| 0x2000 <= u <= 0x200a
    ||| u == 0x2028
    ||| u == 0x2029
    ||| u == 0x202f
    ||| u == 0x205f
    ||| u == 0x3000
}

/// Whether `c` is a whitespace character.
pub fn is_whitespace(c: char) -> (b: bool)
    ensures
        b == is_whitespace_spec(c),
{
    let u = c as u32;
    (0x9 <= u && u <= 0xd) || u == 0x20 || u == 0x85 || u == 0xa0 || u == 0x1680 || (0x2000
        <= u && u <= 0x200a) || u == 0x2028 || u == 0x2029 || u == 0x202f || u == 0x205f || u
        == 0x3000
}

/// `s` without its leading whitespace.
pub open spec fn trim_start_spec(s: Seq<char>) -> Seq<char>
    decreases s.len(),
{
    if s.len() > 0 && is_whitespace_spec(s[0]) {
        trim_start_spec(s.drop_first())
    } else {
        s
    }
}

/// `s` without its trailing whitespace.
pub open spec fn trim_end_spec(s: Seq<char>) -> Seq<char>
    decreases s.len(),
{
    if s.len() > 0 && is_whitespace_spec(s.last()) {
        trim_end_spec(s.drop_last())
    } else {
        s
    }
}

/// `s` without leading and trailing whitespace, as `str::trim` gives it.
pub open spec fn trim_spec(s: Seq<char>) -> Seq<char> {
    trim_end_spec(trim_start_spec(s))
}

/// The bounds `(start, end)` of `chars[from..to]` once trimmed.
pub fn trimmed_bounds(chars: &Vec<char>, from: usize, to: usize) -> (bounds: (usize, usize))
    requires
        from <= to <= chars@.len(),
    ensures
        from <= bounds.0 <= bounds.1 <= to,
        chars@.subrange(bounds.0 as int, bounds.1 as int) == trim_spec(
            chars@.subrange(from as int, to as int),
        ),
{
    let ghost whole = chars@.subrange(from as int, to as int);
    let mut start = from;
    while start < to && is_whitespace(chars[start])
        invariant
            from <= start <= to <= chars@.len(),
            trim_start_spec(whole) == trim_start_spec(chars@.subrange(start as int, to as int)),
        decreases to - start,
    {
        assert(chars@.subrange(start as int, to as int).drop_first() =~= chars@.subrange(
            start + 1,
            to as int,
        ));
        start = start + 1;
    }
    let ghost rest = chars@.subrange(start as int, to as int);
    assert(trim_start_spec(whole) == rest);
    let mut end = to;
    while end > start && is_whitespace(chars[end - 1])
        invariant
            from <= start <= end <= to <= chars@.len(),
            trim_end_spec(rest) == trim_end_spec(chars@.subrange(start as int, end as int)),
        decreases end - start,
    {
        assert(chars@.subrange(start as int, end as int).drop_last() =~= chars@.subrange(
            start as int,
            end - 1,
        ));
        end = end - 1;
    }
    (start, end)
}

/// The index of the first `c` in `s`, or `s.len()` where there is none.
pub open spec fn find_spec(s: Seq<char>, c: char) -> int
    decreases s.len(),
{
    if s.len() == 0 {
        0
    } else if s[0] == c {
        0
    } else {
        1 + find_spec(s.drop_first(), c)
    }
}

proof fn lemma_find_is_first(s: Seq<char>, c: char, i: int)
    requires
        0 <= i <= s.len(),
        i < s.len() ==> s[i] == c,
        forall|j: int| 0 <= j < i ==> s[j] != c,
    ensures
        find_spec(s, c) == i,
    decreases s.len(),
{
    if s.len() > 0 && s[0] != c {
        lemma_find_is_first(s.drop_first(), c, i - 1);
    }
}

/// The index of the first `c` in `chars[from..to]`, counted from `from`,
/// or `to - from` where there is none.
pub fn find_char(chars: &Vec<char>, from: usize, to: usize, c: char) -> (i: usize)
    requires
        from <= to <= chars@.len(),
    ensures
        i == find_spec(chars@.subrange(from as int, to as int), c),
        i <= to - from,
{
    let ghost part = chars@.subrange(from as int, to as int);
    let mut i = from;
    while i < to && chars[i] != c
        invariant
            from <= i <= to <= chars@.len(),
            forall|j: int| from <= j < i ==> chars@[j] != c,
        decreases to - i,
    {
        i = i + 1;
    }
    proof {
        lemma_find_is_first(part, c, i - from);
    }
    i - from
}

/// The pieces of `s` between the occurrences of `sep`, as `str::split` gives them.
pub open spec fn split_spec(s: Seq<char>, sep: char) -> Seq<Seq<char>>
    decreases s.len(),
{
    if s.len() == 0 {
        seq![Seq::empty()]
    } else {
        let init = split_spec(s.drop_last(), sep);
        if s.last() == sep {
            init.push(Seq::empty())
        } else {
            init.update(init.len() - 1, init.last().push(s.last()))
        }
    }
}

/// Whether `s` begins with `prefix`.
pub open spec fn starts_with_spec(s: Seq<char>, prefix: Seq<char>) -> bool {
    prefix.len() <= s.len() && s.subrange(0, prefix.len() as int) == prefix
}

/// Whether `chars[from..to]` begins with `prefix`.
pub fn starts_with(chars: &Vec<char>, from: usize, to: usize, prefix: &str) -> (b: bool)
    requires
        from <= to <= chars@.len(),
    ensures
        b == starts_with_spec(chars@.subrange(from as int, to as int), prefix@),
{
    let p = chars_of(prefix);
    let n = p.len();
    if n > to - from {
        return false;
    }
    let mut i: usize = 0;
    while i < n
        invariant
            i <= n == p@.len() <= to - from,
            from <= to <= chars@.len(),
            p@ == prefix@,
            forall|j: int| 0 <= j < i ==> chars@[from + j] == p@[j],
        decreases n - i,
    {
        if chars[from + i] != p[i] {
            let ghost head = chars@.subrange(from as int, to as int).subrange(0, n as int);
            assert(head[i as int] != p@[i as int]);
            return false;
        }
        i = i + 1;
    }
    assert(chars@.subrange(from as int, to as int).subrange(0, n as int) =~= p@);
    true
}


/// The concatenation of two strings.
pub fn concat(a: &str, b: &str) -> (s: String)
    ensures
        s@ == a@ + b@,
{
    let mut s = a.to_owned();
    s.append(b);
    s
}


/// The bounds of the pieces of `chars` between the occurrences of `sep`.
pub fn split_bounds(chars: &Vec<char>, sep: char) -> (bounds: Vec<(usize, usize)>)
    ensures
        bounds@.len() == split_spec(chars@, sep).len(),
        forall|k: int|
            0 <= k < bounds@.len() ==> {
                &&& (#[trigger] bounds@[k]).0 <= bounds@[k].1 <= chars@.len()
                &&& chars@.subrange(bounds@[k].0 as int, bounds@[k].1 as int) == split_spec(
                    chars@,
                    sep,
                )[k]
            },
{
    let mut done: Vec<(usize, usize)> = Vec::new();
    let mut start: usize = 0;
    let mut i: usize = 0;
    proof {
        assert(chars@.take(0) =~= Seq::<char>::empty());
    }
    while i < chars.len()
        invariant
            start <= i <= chars@.len(),
            split_spec(chars@.take(i as int), sep).len() == done@.len() + 1,
            split_spec(chars@.take(i as int), sep).last() == chars@.subrange(
                start as int,
                i as int,
            ),
            forall|k: int|
                0 <= k < done@.len() ==> {
                    &&& (#[trigger] done@[k]).0 <= done@[k].1 <= start
                    &&& chars@.subrange(done@[k].0 as int, done@[k].1 as int) == split_spec(
                        chars@.take(i as int),
                        sep,
                    )[k]
                },
        decreases chars@.len() - i,
    {
        let ghost prev = split_spec(chars@.take(i as int), sep);
        let ghost old_done = done@;
        let ghost old_start = start;
        assert(chars@.take(i + 1).drop_last() =~= chars@.take(i as int));
        assert(chars@.take(i + 1).last() == chars@[i as int]);
        let ghost cur = split_spec(chars@.take(i + 1), sep);
        if chars[i] == sep {
            done.push((start, i));
            start = i + 1;
            assert(cur == prev.push(Seq::<char>::empty()));
            assert(chars@.subrange(start as int, i + 1) =~= Seq::<char>::empty());
            assert forall|k: int| 0 <= k < done@.len() implies {
                &&& done@[k].0 <= done@[k].1 <= start
                &&& chars@.subrange(done@[k].0 as int, done@[k].1 as int) == cur[k]
            } by {
                assert(cur[k] == prev[k]);
                if k < old_done.len() {
                    assert(done@[k] == old_done[k]);
                } else {
                    assert(done@[k] == (old_start, i));
                }
            }
        } else {
            assert(cur == prev.update(prev.len() - 1, prev.last().push(chars@[i as int])));
            assert(chars@.subrange(start as int, i + 1) =~= chars@.subrange(
                start as int,
                i as int,
            ).push(chars@[i as int]));
            assert forall|k: int| 0 <= k < done@.len() implies {
                &&& done@[k].0 <= done@[k].1 <= start
                &&& chars@.subrange(done@[k].0 as int, done@[k].1 as int) == cur[k]
            } by {
                assert(cur[k] == prev[k]);
            }
        }
        i = i + 1;
    }
    let ghost old_done = done@;
    let ghost whole = split_spec(chars@.take(i as int), sep);
    assert(i == chars@.len());
    assert(whole.len() == old_done.len() + 1);
    assert(whole[old_done.len() as int] == chars@.subrange(start as int, i as int));
    done.push((start, i));
    assert(chars@.take(chars@.len() as int) =~= chars@);
    assert forall|k: int| 0 <= k < done@.len() implies {
        &&& done@[k].0 <= done@[k].1 <= chars@.len()
        &&& chars@.subrange(done@[k].0 as int, done@[k].1 as int) == whole[k]
    } by {
        if k < old_done.len() {
            assert(done@[k] == old_done[k]);
        } else {
            assert(done@[k] == (start, i));
        }
    }
    done
}

} // verus!

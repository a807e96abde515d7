//! Context paths, descriptor file names and the few path manipulations the
//! deployment needs, all on plain strings with `/` as the separator.

use vstd::prelude::*;

verus! {

/// What is left of `s` once every leading `/` is removed.
pub open spec fn strip_leading(s: Seq<char>) -> Seq<char>
    decreases s.len(),
{
    if s.len() > 0 && s[0] == '/' {
        strip_leading(s.drop_first())
    } else {
        s
    }
}

/// What is left of `s` once every trailing `/` is removed.
pub open spec fn strip_trailing(s: Seq<char>) -> Seq<char>
    decreases s.len(),
{
    if s.len() > 0 && s.last() == '/' {
        strip_trailing(s.drop_last())
    } else {
        s
    }
}

/// A context path without any leading or trailing `/`.
pub open spec fn trimmed(s: Seq<char>) -> Seq<char> {
    strip_trailing(strip_leading(s))
}

/// The normalised context path: the trimmed path behind exactly one `/`.
pub open spec fn normalized(s: Seq<char>) -> Seq<char> {
    seq!['/'] + trimmed(s)
}

/// `s` with every `/` replaced by `#`.
pub open spec fn slash_to_hash(s: Seq<char>) -> Seq<char> {
    Seq::new(s.len(), |i: int| if s[i] == '/' { '#' } else { s[i] })
}

/// The extension of a deployment descriptor.
pub open spec fn xml_ext() -> Seq<char> {
    seq!['.', 'x', 'm', 'l']
}

/// The descriptor's file name without its extension.
pub open spec fn descriptor_stem(context: Seq<char>) -> Seq<char> {
    slash_to_hash(trimmed(context))
}

/// The file name of the deployment descriptor of a context path.
pub open spec fn descriptor_name(context: Seq<char>) -> Seq<char> {
    descriptor_stem(context) + xml_ext()
}

proof fn lemma_strip_leading_step(s: Seq<char>, i: int)
    requires
        0 <= i < s.len(),
        s[i] == '/',
    ensures
        strip_leading(s.subrange(i, s.len() as int)) == strip_leading(
            s.subrange(i + 1, s.len() as int),
        ),
{
    assert(s.subrange(i, s.len() as int).drop_first() =~= s.subrange(i + 1, s.len() as int));
}

proof fn lemma_strip_trailing_step(s: Seq<char>, lo: int, hi: int)
    requires
        0 <= lo < hi <= s.len(),
        s[hi - 1] == '/',
    ensures
        strip_trailing(s.subrange(lo, hi)) == strip_trailing(s.subrange(lo, hi - 1)),
{
    assert(s.subrange(lo, hi).drop_last() =~= s.subrange(lo, hi - 1));
}

proof fn lemma_strip_leading_shape(s: Seq<char>)
    ensures
        strip_leading(s).len() > 0 ==> strip_leading(s)[0] != '/',
    decreases s.len(),
{
    if s.len() > 0 && s[0] == '/' {
        lemma_strip_leading_shape(s.drop_first());
    }
}

proof fn lemma_strip_trailing_shape(s: Seq<char>)
    ensures
        strip_trailing(s).len() <= s.len(),
        strip_trailing(s) =~= s.subrange(0, strip_trailing(s).len() as int),
        strip_trailing(s).len() > 0 ==> strip_trailing(s).last() != '/',
    decreases s.len(),
{
    if s.len() > 0 && s.last() == '/' {
        lemma_strip_trailing_shape(s.drop_last());
    }
}

/// A trimmed path starts and ends with something other than `/`.
pub proof fn lemma_trimmed_shape(s: Seq<char>)
    ensures
        trimmed(s).len() > 0 ==> trimmed(s)[0] != '/' && trimmed(s).last() != '/',
{
    let l = strip_leading(s);
    lemma_strip_leading_shape(s);
    lemma_strip_trailing_shape(l);
    if trimmed(s).len() > 0 {
        assert(trimmed(s)[0] == l[0]);
    }
}

/// Trimming a path that is already trimmed, even behind one more `/`,
/// changes nothing.
pub proof fn lemma_trim_normalized(s: Seq<char>)
    ensures
        trimmed(trimmed(s)) == trimmed(s),
        trimmed(normalized(s)) == trimmed(s),
{
    let t = trimmed(s);
    lemma_trimmed_shape(s);
    assert(strip_leading(t) == t);
    assert(strip_trailing(t) == t);
    assert(normalized(s).drop_first() =~= t);
    assert(strip_leading(normalized(s)) == strip_leading(t));
}

/// Normalisation is idempotent, and the descriptor name of a context path
/// (a function of the path alone) is that of its normalised form.
pub proof fn lemma_descriptor_name_of_normalized(p: Seq<char>)
    ensures
        normalized(normalized(p)) == normalized(p),
        descriptor_name(normalized(p)) == descriptor_name(p),
{
    lemma_trim_normalized(p);
}

/// Trims every leading and trailing `/` off a context path.
pub fn trim_slashes(s: &str) -> (r: String)
    ensures
        r@ == trimmed(s@),
{
    let n = s.unicode_len();
    let mut lo: usize = 0;
    assert(s@.subrange(0, n as int) =~= s@);
    while lo < n && s.get_char(lo) == '/'
        invariant
            n == s@.len(),
            lo <= n,
            strip_leading(s@) == strip_leading(s@.subrange(lo as int, n as int)),
        decreases n - lo,
    {
        proof {
            lemma_strip_leading_step(s@, lo as int);
        }
        lo = lo + 1;
    }
    assert(strip_leading(s@) =~= s@.subrange(lo as int, n as int));
    let mut hi: usize = n;
    while hi > lo && s.get_char(hi - 1) == '/'
        invariant
            n == s@.len(),
            lo <= hi <= n,
            strip_leading(s@) =~= s@.subrange(lo as int, n as int),
            trimmed(s@) == strip_trailing(s@.subrange(lo as int, hi as int)),
        decreases hi,
    {
        proof {
            lemma_strip_trailing_step(s@, lo as int, hi as int);
        }
        hi = hi - 1;
    }
    String::from_str(s.substring_char(lo, hi))
}

/// The normalised form of a context path: trimmed, behind exactly one `/`.
pub fn normalize(s: &str) -> (r: String)
    ensures
        r@ == normalized(s@),
{
    let t = trim_slashes(s);
    let mut r = String::from_str("/");
    r.append(t.as_str());
    proof {
        reveal_strlit("/");
    }
    assert(r@ =~= normalized(s@));
    r
}

/// Replaces every `/` of `s` by `#`.
pub fn replace_slashes(s: &str) -> (r: String)
    ensures
        r@ == slash_to_hash(s@),
{
    let n = s.unicode_len();
    let mut r = String::new();
    let mut i: usize = 0;
    while i < n
        invariant
            n == s@.len(),
            i <= n,
            r@ =~= slash_to_hash(s@.subrange(0, i as int)),
        decreases n - i,
    {
        let c = s.get_char(i);
        if c == '/' {
            r.append("#");
            proof {
                reveal_strlit("#");
            }
        } else {
            r.append(s.substring_char(i, i + 1));
        }
        i = i + 1;
        assert(r@ =~= slash_to_hash(s@.subrange(0, i as int)));
    }
    assert(s@.subrange(0, n as int) =~= s@);
    r
}

/// The file name of the deployment descriptor of a context path: the trimmed
/// path with `/` replaced by `#`, followed by `.xml`.
pub fn descriptor_file_name(context: &str) -> (r: String)
    ensures
        r@ == descriptor_name(context@),
{
    let t = trim_slashes(context);
    let mut r = replace_slashes(t.as_str());
    r.append(".xml");
    proof {
        reveal_strlit(".xml");
    }
    assert(r@ =~= descriptor_name(context@));
    r
}

/// `b` appended to the directory `a`, with one `/` between them.
pub open spec fn joined(a: Seq<char>, b: Seq<char>) -> Seq<char> {
    if a.len() == 0 {
        b
    } else if a.last() == '/' {
        a + b
    } else {
        a + seq!['/'] + b
    }
}

/// The index of the last `c` in `s`, or -1 where there is none.
pub open spec fn last_index(s: Seq<char>, c: char) -> int
    decreases s.len(),
{
    if s.len() == 0 {
        -1
    } else if s.last() == c {
        s.len() - 1
    } else {
        last_index(s.drop_last(), c)
    }
}

/// The stem of a directory entry's name: the name up to its last `.`,
/// unless that `.` is its first character or it has none, in which case the
/// whole name.
pub open spec fn file_stem(name: Seq<char>) -> Seq<char> {
    let d = last_index(name, '.');
    if d > 0 {
        name.subrange(0, d)
    } else {
        name
    }
}

/// The last index of `c` is -1 or the index of a `c` in `s`.
pub proof fn lemma_last_index_bounds(s: Seq<char>, c: char)
    ensures
        -1 <= last_index(s, c) < s.len(),
        last_index(s, c) >= 0 ==> s[last_index(s, c)] == c,
    decreases s.len(),
{
    if s.len() > 0 && s.last() != c {
        lemma_last_index_bounds(s.drop_last(), c);
    }
}

/// Finds the last occurrence of `c` in `s`.
pub fn find_last(s: &str, c: char) -> (r: Option<usize>)
    ensures
        match r {
            Some(i) => i as int == last_index(s@, c),
            None => last_index(s@, c) == -1,
        },
{
    let n = s.unicode_len();
    let mut i: usize = n;
    assert(s@.subrange(0, n as int) =~= s@);
    while i > 0
        invariant
            n == s@.len(),
            i <= n,
            last_index(s@, c) == last_index(s@.subrange(0, i as int), c),
        decreases i,
    {
        if s.get_char(i - 1) == c {
            return Some(i - 1);
        }
        assert(s@.subrange(0, i as int).drop_last() =~= s@.subrange(0, i - 1));
        i = i - 1;
    }
    None
}

/// The stem of a directory entry's name (see `file_stem`).
pub fn stem_of(name: &str) -> (r: String)
    ensures
        r@ == file_stem(name@),
{
    proof {
        lemma_last_index_bounds(name@, '.');
    }
    match find_last(name, '.') {
        Some(d) => {
            if d > 0 {
                String::from_str(name.substring_char(0, d))
            } else {
                String::from_str(name)
            }
        },
        None => String::from_str(name),
    }
}

/// Appends the entry `b` to the directory `a`.
pub fn join(a: &str, b: &str) -> (r: String)
    ensures
        r@ == joined(a@, b@),
{
    let n = a.unicode_len();
    let mut r = String::from_str(a);
    if n > 0 && a.get_char(n - 1) != '/' {
        r.append("/");
        proof {
            reveal_strlit("/");
        }
    }
    r.append(b);
    assert(r@ =~= joined(a@, b@));
    r
}

} // verus!

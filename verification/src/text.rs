//! Whitespace trimming over character sequences, the one text transformation
//! the normaliser applies.

use vstd::prelude::*;

verus! {

/// The code points that count as whitespace when trimming: the Unicode
/// `White_Space` set that `char::is_whitespace` recognises.
pub open spec fn is_space(c: char) -> bool {
    let u = c as u32;
    ||| u == 0x20
    ||| (0x09 <= u && u <= 0x0D)
    ||| u == 0x85
    ||| u == 0xA0
    ||| u == 0x1680
    ||| (0x2000 <= u && u <= 0x200A)
    ||| u == 0x2028
    ||| u == 0x2029
    ||| u == 0x202F
    ||| u == 0x205F
    ||| u == 0x3000
}

/// The sequence with its leading whitespace removed.
pub open spec fn trim_front(s: Seq<char>) -> Seq<char>
    decreases s.len(),
{
    if s.len() == 0 {
        s
    } else if is_space(s[0]) {
        trim_front(s.drop_first())
    } else {
        s
    }
}

/// The sequence with its trailing whitespace removed.
pub open spec fn trim_back(s: Seq<char>) -> Seq<char>
    decreases s.len(),
{
    if s.len() == 0 {
        s
    } else if is_space(s.last()) {
        trim_back(s.drop_last())
    } else {
        s
    }
}

/// The sequence with both leading and trailing whitespace removed.
pub open spec fn trim_seq(s: Seq<char>) -> Seq<char> {
    trim_back(trim_front(s))
}

/// `trim_front` keeps exactly the suffix that starts at the first
/// non-whitespace character.
proof fn lemma_trim_front_is_suffix(s: Seq<char>, k: int)
    requires
        0 <= k <= s.len(),
        forall|j: int| 0 <= j < k ==> is_space(s[j]),
        k == s.len() || !is_space(s[k]),
    ensures
        trim_front(s) == s.subrange(k, s.len() as int),
    decreases k,
{
    if k == 0 {
        assert(s.subrange(0, s.len() as int) =~= s);
    } else {
        let t = s.drop_first();
        assert(forall|j: int| 0 <= j < k - 1 ==> is_space(#[trigger] t[j]));
        lemma_trim_front_is_suffix(t, k - 1);
        assert(t.subrange(k - 1, t.len() as int) =~= s.subrange(k, s.len() as int));
    }
}

/// `trim_back` keeps exactly the prefix that ends after the last
/// non-whitespace character.
proof fn lemma_trim_back_is_prefix(s: Seq<char>, e: int)
    requires
        0 <= e <= s.len(),
        forall|j: int| e <= j < s.len() ==> is_space(s[j]),
        e == 0 || !is_space(s[e - 1]),
    ensures
        trim_back(s) == s.subrange(0, e),
    decreases s.len() - e,
{
    if e == s.len() {
        assert(s.subrange(0, e) =~= s);
    } else {
        let t = s.drop_last();
        assert(is_space(s.last()));
        assert(forall|j: int| e <= j < t.len() ==> is_space(#[trigger] t[j]));
        lemma_trim_back_is_prefix(t, e);
        assert(t.subrange(0, e) =~= s.subrange(0, e));
    }
}

/// The contained sequence, or the empty sequence for `None`: how an absent
/// field defaults to the empty string.
pub open spec fn str_or_empty(o: Option<Seq<char>>) -> Seq<char> {
    match o {
        Option::Some(s) => s,
        Option::None => Seq::empty(),
    }
}

/// The view of an optional string.
pub open spec fn opt_text(o: Option<String>) -> Option<Seq<char>> {
    match o {
        Option::Some(s) => Option::Some(s@),
        Option::None => Option::None,
    }
}

/// Whether `c` is a whitespace character in the sense of [`is_space`].
pub fn is_space_char(c: char) -> (b: bool)
    ensures
        b == is_space(c),
{
    let u = c as u32;
    u == 0x20 || (0x09 <= u && u <= 0x0D) || u == 0x85 || u == 0xA0 || u == 0x1680 || (0x2000 <= u
        && u <= 0x200A) || u == 0x2028 || u == 0x2029 || u == 0x202F || u == 0x205F || u == 0x3000
}

/// Returns `text` with leading and trailing whitespace removed.
pub fn trim_str(text: &str) -> (r: String)
    ensures
        r@ == trim_seq(text@),
{
    let len = text.unicode_len();
    let mut start: usize = 0;
    while start < len && is_space_char(text.get_char(start))
        invariant
            0 <= start <= len,
            len == text@.len(),
            forall|j: int| 0 <= j < start ==> is_space(text@[j]),
        decreases len - start,
    {
        start = start + 1;
    }
    if start == len {
        proof {
            lemma_trim_front_is_suffix(text@, start as int);
            assert(trim_front(text@) =~= Seq::<char>::empty());
        }
        String::new()
    } else {
        let mut end: usize = len;
        while end > start && is_space_char(text.get_char(end - 1))
            invariant
                start <= end <= len,
                len == text@.len(),
                forall|j: int| end <= j < len ==> is_space(text@[j]),
            decreases end,
        {
            end = end - 1;
        }
        proof {
            assert(!is_space(text@[start as int]));
            assert(end > start) by {
                if end == start {
                    assert(is_space(text@[start as int]));
                }
            }
            lemma_trim_front_is_suffix(text@, start as int);
            let suffix = text@.subrange(start as int, len as int);
            assert(forall|j: int| end - start <= j < suffix.len() ==> is_space(#[trigger] suffix[j]));
            assert(!is_space(suffix[end - start - 1]));
            lemma_trim_back_is_prefix(suffix, end - start);
            assert(suffix.subrange(0, end - start) =~= text@.subrange(start as int, end as int));
        }
        let sub = text.substring_char(start, end);
        sub.to_owned()
    }
}

} // verus!

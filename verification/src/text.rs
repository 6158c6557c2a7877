use vstd::prelude::*;

verus! {

/// Splitting a character sequence on a separator: the pieces between the
/// separators, in order. An empty sequence yields one empty piece, and a
/// separator at either end yields an empty piece there.
pub open spec fn spec_split(s: Seq<char>, sep: char) -> Seq<Seq<char>>
    decreases s.len(),
{
    if s.len() == 0 {
        seq![Seq::<char>::empty()]
    } else if s[0] == sep {
        seq![Seq::<char>::empty()] + spec_split(s.skip(1), sep)
    } else {
        let rest = spec_split(s.skip(1), sep);
        seq![seq![s[0]] + rest[0]] + rest.skip(1)
    }
}

pub proof fn lemma_split_nonempty(s: Seq<char>, sep: char)
    ensures
        spec_split(s, sep).len() >= 1,
    decreases s.len(),
{
    if s.len() != 0 && s[0] != sep {
        lemma_split_nonempty(s.skip(1), sep);
    }
}

/// A sequence without the separator splits into itself alone.
pub proof fn lemma_split_no_sep(s: Seq<char>, sep: char)
    requires
        forall|j: int| 0 <= j < s.len() ==> s[j] != sep,
    ensures
        spec_split(s, sep) =~~= seq![s],
    decreases s.len(),
{
    if s.len() != 0 {
        lemma_split_no_sep(s.skip(1), sep);
        assert(seq![s[0]] + s.skip(1) =~= s);
    }
}

/// Splitting at the first separator: everything before it is the first
/// piece, and the rest splits on its own.
pub proof fn lemma_split_at_first(s: Seq<char>, sep: char, k: int)
    requires
        0 <= k < s.len(),
        s[k] == sep,
        forall|j: int| 0 <= j < k ==> s[j] != sep,
    ensures
        spec_split(s, sep) =~~= seq![s.take(k)] + spec_split(s.skip(k + 1), sep),
    decreases k,
{
    if k == 0 {
        assert(s.take(0) =~= Seq::<char>::empty());
    } else {
        lemma_split_at_first(s.skip(1), sep, k - 1);
        lemma_split_nonempty(s.skip(1).skip(k), sep);
        assert(s.skip(1).skip(k) =~= s.skip(k + 1));
        assert(s.skip(1).take(k - 1) =~= s.take(k).skip(1));
        assert(seq![s[0]] + s.take(k).skip(1) =~= s.take(k));
    }
}

/// Split a string on a separator character, yielding the pieces between the
/// separators in order.
pub fn split_on(s: &String, sep: char) -> (r: Vec<String>)
    ensures
        r.deep_view() == spec_split(s@, sep),
{
    let len = s.as_str().unicode_len();
    let mut pieces: Vec<String> = Vec::new();
    proof {
        assert(s@.skip(0) =~= s@);
        assert(pieces.deep_view() =~= Seq::<Seq<char>>::empty());
    }
    let mut start: usize = 0;
    let mut i: usize = 0;
    while i < len
        invariant
            start <= i <= len == s@.len(),
            forall|j: int| start <= j < i ==> s@[j] != sep,
            spec_split(s@, sep) =~~= pieces.deep_view() + spec_split(s@.skip(start as int), sep),
        decreases len - i,
    {
        if s.as_str().get_char(i) == sep {
            let piece = String::from_str(s.as_str().substring_char(start, i));
            proof {
                let tail = s@.skip(start as int);
                lemma_split_at_first(tail, sep, i - start);
                assert(tail.take(i - start) =~= piece@);
                assert(tail.skip(i - start + 1) =~= s@.skip(i + 1));
            }
            pieces.push(piece);
            proof {
                assert(spec_split(s@, sep) =~~= pieces.deep_view() + spec_split(
                    s@.skip(i + 1),
                    sep,
                ));
            }
            start = i + 1;
        }
        i += 1;
    }
    let piece = String::from_str(s.as_str().substring_char(start, len));
    proof {
        let tail = s@.skip(start as int);
        lemma_split_no_sep(tail, sep);
        assert(tail =~= piece@);
    }
    pieces.push(piece);
    pieces
}

/// The needle occurs in the text starting at position `i`.
pub open spec fn spec_contains_at(text: Seq<char>, needle: Seq<char>, i: int) -> bool {
    0 <= i && i + needle.len() <= text.len() && text.subrange(i, i + needle.len()) == needle
}

/// The needle occurs somewhere in the text as a contiguous substring.
pub open spec fn spec_contains(text: Seq<char>, needle: Seq<char>) -> bool {
    exists|i: int| spec_contains_at(text, needle, i)
}

/// Whether `needle` occurs in `text` as a contiguous substring.
pub fn contains_substring(text: &String, needle: &String) -> (r: bool)
    ensures
        r == spec_contains(text@, needle@),
{
    let tlen = text.as_str().unicode_len();
    let nlen = needle.as_str().unicode_len();
    if nlen > tlen {
        assert(forall|i: int| !spec_contains_at(text@, needle@, i));
        return false;
    }
    if nlen == 0 {
        proof {
            assert(text@.subrange(0, 0) =~= needle@);
            assert(spec_contains_at(text@, needle@, 0));
        }
        return true;
    }
    let mut i: usize = 0;
    while i <= tlen - nlen
        invariant
            1 <= nlen <= tlen,
            tlen == text@.len(),
            nlen == needle@.len(),
            i <= tlen - nlen + 1,
            forall|k: int| 0 <= k < i ==> !spec_contains_at(text@, needle@, k),
        decreases tlen - nlen + 1 - i,
    {
        let mut j: usize = 0;
        let mut mismatch = false;
        while j < nlen
            invariant
                nlen <= tlen,
                tlen == text@.len(),
                nlen == needle@.len(),
                i + nlen <= tlen,
                j <= nlen,
                !mismatch ==> forall|k: int| 0 <= k < j ==> text@[i + k] == needle@[k],
                mismatch ==> !spec_contains_at(text@, needle@, i as int),
            decreases nlen - j,
        {
            if text.as_str().get_char(i + j) != needle.as_str().get_char(j) {
                proof {
                    let w = j as int;
                    assert(text@.subrange(i as int, i + nlen) == needle@ ==> text@.subrange(
                        i as int,
                        i + nlen,
                    )[w] == needle@[w]);
                }
                mismatch = true;
                j = nlen;
            } else {
                j += 1;
            }
        }
        if !mismatch {
            proof {
                assert(text@.subrange(i as int, i + nlen) =~= needle@);
                assert(spec_contains_at(text@, needle@, i as int));
            }
            return true;
        }
        i += 1;
    }
    proof {
        assert(forall|k: int| spec_contains_at(text@, needle@, k) ==> 0 <= k <= tlen - nlen);
    }
    false
}

/// A path separator as it appears in command lines: either direction of
/// slash.
pub open spec fn spec_is_path_sep(c: char) -> bool {
    c == '\\' || c == '/'
}

/// The index of the last path separator, if any.
pub open spec fn spec_last_path_sep(s: Seq<char>) -> Option<int>
    decreases s.len(),
{
    if s.len() == 0 {
        Option::None
    } else if spec_is_path_sep(s[s.len() - 1]) {
        Option::Some(s.len() - 1)
    } else {
        spec_last_path_sep(s.take(s.len() - 1))
    }
}

/// The containing directory of a path: everything before the last path
/// separator, or the empty string when the path has no directory part.
pub open spec fn spec_parent_dir(s: Seq<char>) -> Seq<char> {
    match spec_last_path_sep(s) {
        Option::Some(k) => s.take(k),
        Option::None => Seq::<char>::empty(),
    }
}

pub proof fn lemma_last_path_sep_props(s: Seq<char>)
    ensures
        match spec_last_path_sep(s) {
            Option::Some(k) => 0 <= k < s.len() && spec_is_path_sep(s[k]) && forall|j: int|
                k < j < s.len() ==> !spec_is_path_sep(s[j]),
            Option::None => forall|j: int| 0 <= j < s.len() ==> !spec_is_path_sep(s[j]),
        },
    decreases s.len(),
{
    if s.len() != 0 && !spec_is_path_sep(s[s.len() - 1]) {
        let t = s.take(s.len() - 1);
        lemma_last_path_sep_props(t);
        assert(forall|j: int| 0 <= j < t.len() ==> t[j] == s[j]);
    }
}

/// The directory part of a path: the prefix before the last path separator,
/// empty when there is none.
pub fn parent_directory(path: &String) -> (r: String)
    ensures
        r@ == spec_parent_dir(path@),
{
    let len = path.as_str().unicode_len();
    let mut i: usize = len;
    while i > 0
        invariant
            i <= len == path@.len(),
            forall|j: int| i <= j < len ==> !spec_is_path_sep(path@[j]),
        decreases i,
    {
        let c = path.as_str().get_char(i - 1);
        if c == '\\' || c == '/' {
            let r = String::from_str(path.as_str().substring_char(0, i - 1));
            proof {
                lemma_suffix_no_sep_last(path@, i - 1 as int);
                assert(r@ =~= path@.take(i - 1));
            }
            return r;
        }
        i -= 1;
    }
    proof {
        lemma_last_path_sep_props(path@);
        if spec_last_path_sep(path@) is Some {
            assert(false);
        }
    }
    String::new()
}

/// If position `k` holds a separator and nothing after it does, then `k` is
/// the last separator.
proof fn lemma_suffix_no_sep_last(s: Seq<char>, k: int)
    requires
        0 <= k < s.len(),
        spec_is_path_sep(s[k]),
        forall|j: int| k < j < s.len() ==> !spec_is_path_sep(s[j]),
    ensures
        spec_last_path_sep(s) == Option::<int>::Some(k),
    decreases s.len(),
{
    if k == s.len() - 1 {
    } else {
        lemma_suffix_no_sep_last(s.take(s.len() - 1), k);
    }
}

} // verus!

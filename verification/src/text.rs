//! Verified helpers on text: equality, whitespace, trimming and joining.
use vstd::prelude::*;
use vstd::utf8::encode_utf8_decode_utf8;

verus! {

/// Compares two string slices character by character.
pub fn str_eq(a: &str, b: &str) -> (res: bool)
    ensures
        res == (a@ == b@),
{
    let ab = a.as_bytes();
    let bb = b.as_bytes();
    proof {
        encode_utf8_decode_utf8(a@);
        encode_utf8_decode_utf8(b@);
    }
    if ab.len() != bb.len() {
        return false;
    }
    let n = ab.len();
    let mut i: usize = 0;
    while i < n
        invariant
            ab@ == vstd::utf8::encode_utf8(a@),
            bb@ == vstd::utf8::encode_utf8(b@),
            n == ab@.len(),
            n == bb@.len(),
            i <= n,
            forall|j: int| 0 <= j < i ==> ab@[j] == bb@[j],
        decreases n - i,
    {
        if ab[i] != bb[i] {
            return false;
        }
        i = i + 1;
    }
    assert(ab@ =~= bb@);
    true
}

/// The characters of a string slice, in order.
pub fn chars_of(s: &str) -> (v: Vec<char>)
    ensures
        v@ == s@,
{
    broadcast use vstd::string::group_string_axioms;

    let mut v: Vec<char> = Vec::new();
    for c in it: s.chars()
        invariant
            v@ == it.seq().take(it.index() as int),
            it.seq() == s@,
    {
        v.push(c);
    }
    v
}

/// The Unicode `White_Space` property: the characters that `str::trim` removes.
pub open spec fn is_white_space(c: char) -> bool {
    let u = c as u32;
    ||| 0x09 <= u <= 0x0d
    ||| u == 0x20
    ||| u == 0x85
    ||| u == 0xa0
    ||| u == 0x1680
    ||| 0x2000 <= u <= 0x200a
    ||| u == 0x2028
    ||| u == 0x2029
    ||| u == 0x202f
    ||| u == 0x205f
    ||| u == 0x3000
}

/// Whether `c` has the Unicode `White_Space` property.
pub fn char_is_white_space(c: char) -> (b: bool)
    ensures
        b == is_white_space(c),
{
    let u = c as u32;
    (0x09 <= u && u <= 0x0d) || u == 0x20 || u == 0x85 || u == 0xa0 || u == 0x1680 || (0x2000 <= u
        && u <= 0x200a) || u == 0x2028 || u == 0x2029 || u == 0x202f || u == 0x205f || u == 0x3000
}

/// `s` without its leading white space.
pub open spec fn trim_start_seq(s: Seq<char>) -> Seq<char>
    decreases s.len(),
{
    if s.len() > 0 && is_white_space(s[0]) {
        trim_start_seq(s.drop_first())
    } else {
        s
    }
}

/// `s` without its trailing white space.
pub open spec fn trim_end_seq(s: Seq<char>) -> Seq<char>
    decreases s.len(),
{
    if s.len() > 0 && is_white_space(s.last()) {
        trim_end_seq(s.drop_last())
    } else {
        s
    }
}

/// `s` without its leading and trailing white space, as `str::trim` gives it.
pub open spec fn trim_seq(s: Seq<char>) -> Seq<char> {
    trim_end_seq(trim_start_seq(s))
}

/// `s` without the copies of `c` at its end, as `str::trim_end_matches(c)` gives it.
pub open spec fn trim_end_char_seq(s: Seq<char>, c: char) -> Seq<char>
    decreases s.len(),
{
    if s.len() > 0 && s.last() == c {
        trim_end_char_seq(s.drop_last(), c)
    } else {
        s
    }
}

proof fn lemma_trim_start_first(s: Seq<char>)
    ensures
        trim_start_seq(s).len() > 0 ==> !is_white_space(trim_start_seq(s)[0]),
    decreases s.len(),
{
    if s.len() > 0 && is_white_space(s[0]) {
        lemma_trim_start_first(s.drop_first());
    }
}

proof fn lemma_trim_end_prefix(t: Seq<char>)
    ensures
        trim_end_seq(t).len() <= t.len(),
        trim_end_seq(t) == t.take(trim_end_seq(t).len() as int),
        trim_end_seq(t).len() > 0 ==> !is_white_space(trim_end_seq(t).last()),
    decreases t.len(),
{
    if t.len() > 0 && is_white_space(t.last()) {
        lemma_trim_end_prefix(t.drop_last());
        let r = trim_end_seq(t.drop_last());
        assert(t.drop_last().take(r.len() as int) =~= t.take(r.len() as int));
    } else {
        assert(t.take(t.len() as int) =~= t);
    }
}

/// What `trim` leaves neither starts nor ends with white space, and trimming
/// it again changes nothing.
pub proof fn law_trim_leaves_no_edge_space(s: Seq<char>)
    ensures
        trim_seq(s).len() > 0 ==> !is_white_space(trim_seq(s)[0]) && !is_white_space(
            trim_seq(s).last(),
        ),
        trim_seq(trim_seq(s)) == trim_seq(s),
{
    let t = trim_start_seq(s);
    lemma_trim_start_first(s);
    lemma_trim_end_prefix(t);
    let r = trim_seq(s);
    if r.len() > 0 {
        assert(r[0] == t[0]);
    }
    assert(trim_start_seq(r) == r);
    lemma_trim_end_prefix(r);
    assert(trim_end_seq(r) == r);
}

proof fn lemma_trim_start_cut(s: Seq<char>) -> (i: int)
    ensures
        0 <= i <= s.len(),
        trim_start_seq(s) == s.subrange(i, s.len() as int),
        forall|k: int| 0 <= k < i ==> is_white_space(s[k]),
        i < s.len() ==> !is_white_space(s[i]),
    decreases s.len(),
{
    if s.len() > 0 && is_white_space(s[0]) {
        let i0 = lemma_trim_start_cut(s.drop_first());
        assert(s.drop_first().subrange(i0, s.len() - 1) =~= s.subrange(i0 + 1, s.len() as int));
        assert forall|k: int| 0 <= k < i0 + 1 implies is_white_space(s[k]) by {
            if k > 0 {
                assert(s[k] == s.drop_first()[k - 1]);
            }
        }
        if i0 + 1 < s.len() {
            assert(s[i0 + 1] == s.drop_first()[i0]);
        }
        i0 + 1
    } else {
        assert(s.subrange(0, s.len() as int) =~= s);
        0
    }
}

proof fn lemma_trim_end_cut(t: Seq<char>) -> (j: int)
    ensures
        0 <= j <= t.len(),
        trim_end_seq(t) == t.subrange(0, j),
        forall|k: int| j <= k < t.len() ==> is_white_space(t[k]),
        j > 0 ==> !is_white_space(t[j - 1]),
    decreases t.len(),
{
    if t.len() > 0 && is_white_space(t.last()) {
        let j0 = lemma_trim_end_cut(t.drop_last());
        assert(t.drop_last().subrange(0, j0) =~= t.subrange(0, j0));
        assert forall|k: int| j0 <= k < t.len() implies is_white_space(t[k]) by {
            if k < t.len() - 1 {
                assert(t[k] == t.drop_last()[k]);
            }
        }
        if j0 > 0 {
            assert(t[j0 - 1] == t.drop_last()[j0 - 1]);
        }
        j0
    } else {
        assert(t.subrange(0, t.len() as int) =~= t);
        t.len() as int
    }
}

/// `trim` removes white space at both ends and nothing else: the text is
/// some white space, then the trimmed text, then some white space; the
/// trimmed text neither starts nor ends with white space, so it is empty
/// exactly when the whole text is white space.
pub proof fn law_trim_removes_only_edge_space(s: Seq<char>)
    ensures
        exists|i: int, j: int|
            #![trigger s.subrange(i, j)]
            0 <= i <= j <= s.len() && trim_seq(s) == s.subrange(i, j) && (forall|k: int|
                0 <= k < i ==> is_white_space(s[k])) && (forall|k: int|
                j <= k < s.len() ==> is_white_space(s[k])) && (i < j ==> !is_white_space(s[i])
                && !is_white_space(s[j - 1])),
        (trim_seq(s).len() == 0) == (forall|k: int| 0 <= k < s.len() ==> is_white_space(s[k])),
{
    let i = lemma_trim_start_cut(s);
    let t = s.subrange(i, s.len() as int);
    let jt = lemma_trim_end_cut(t);
    let j = i + jt;
    assert(t.subrange(0, jt) =~= s.subrange(i, j));
    assert forall|k: int| j <= k < s.len() implies is_white_space(s[k]) by {
        assert(s[k] == t[k - i]);
    }
    if i < j {
        assert(s[i] == t[0]);
        assert(s[j - 1] == t[jt - 1]);
    }
    assert(trim_seq(s) == s.subrange(i, j));
    if trim_seq(s).len() != 0 {
        assert(!is_white_space(s[i]));
    } else {
        assert forall|k: int| 0 <= k < s.len() implies is_white_space(s[k]) by {
            if k >= i {
                assert(k >= j);
            }
        }
    }
}

/// `s` without the copies of `c` at its end: all of `s` up to some point,
/// after which there are only copies of `c`, and which does not itself end with `c`.
pub proof fn law_trim_end_char_cuts_only_the_tail(s: Seq<char>, c: char)
    ensures
        exists|j: int|
            #![trigger s.subrange(0, j)]
            0 <= j <= s.len() && trim_end_char_seq(s, c) == s.subrange(0, j) && (forall|k: int|
                j <= k < s.len() ==> s[k] == c) && (j > 0 ==> s[j - 1] != c),
    decreases s.len(),
{
    if s.len() > 0 && s.last() == c {
        law_trim_end_char_cuts_only_the_tail(s.drop_last(), c);
        let j = choose|j: int|
            #![trigger s.drop_last().subrange(0, j)]
            0 <= j <= s.drop_last().len() && trim_end_char_seq(s.drop_last(), c)
                == s.drop_last().subrange(0, j) && (forall|k: int|
                j <= k < s.drop_last().len() ==> s.drop_last()[k] == c) && (j > 0
                ==> s.drop_last()[j - 1] != c);
        assert(s.drop_last().subrange(0, j) =~= s.subrange(0, j));
        assert forall|k: int| j <= k < s.len() implies s[k] == c by {
            if k < s.len() - 1 {
                assert(s[k] == s.drop_last()[k]);
            }
        }
        if j > 0 {
            assert(s[j - 1] == s.drop_last()[j - 1]);
        }
    } else {
        assert(s.subrange(0, s.len() as int) =~= s);
    }
}

/// `s` without leading and trailing white space (`str::trim`).
pub fn trim(s: &str) -> (res: String)
    ensures
        res@ == trim_seq(s@),
{
    let v = chars_of(s);
    let n = v.len();
    let mut i: usize = 0;
    assert(v@.subrange(0, n as int) =~= v@);
    while i < n && char_is_white_space(v[i])
        invariant
            v@ == s@,
            n == v@.len(),
            i <= n,
            trim_start_seq(s@) == trim_start_seq(v@.subrange(i as int, n as int)),
        decreases n - i,
    {
        assert(v@.subrange(i as int, n as int).drop_first() =~= v@.subrange(i + 1, n as int));
        i = i + 1;
    }
    assert(trim_start_seq(v@.subrange(i as int, n as int)) == v@.subrange(i as int, n as int)) by {
        if i < n {
            assert(v@.subrange(i as int, n as int)[0] == v@[i as int]);
        }
    }
    let mut j = n;
    while j > i && char_is_white_space(v[j - 1])
        invariant
            v@ == s@,
            n == v@.len(),
            i <= j <= n,
            trim_seq(s@) == trim_end_seq(v@.subrange(i as int, j as int)),
        decreases j,
    {
        assert(v@.subrange(i as int, j as int).drop_last() =~= v@.subrange(i as int, j - 1));
        j = j - 1;
    }
    assert(trim_end_seq(v@.subrange(i as int, j as int)) == v@.subrange(i as int, j as int)) by {
        if j > i {
            assert(v@.subrange(i as int, j as int).last() == v@[j - 1]);
        }
    }
    String::from_str(s.substring_char(i, j))
}

/// `s` without the slashes at its end (`str::trim_end_matches('/')`).
pub fn trim_trailing_slashes(s: &str) -> (res: String)
    ensures
        res@ == trim_end_char_seq(s@, '/'),
{
    let v = chars_of(s);
    let n = v.len();
    let mut j = n;
    assert(v@.subrange(0, n as int) =~= v@);
    while j > 0 && v[j - 1] == '/'
        invariant
            v@ == s@,
            n == v@.len(),
            j <= n,
            trim_end_char_seq(s@, '/') == trim_end_char_seq(v@.subrange(0, j as int), '/'),
        decreases j,
    {
        assert(v@.subrange(0, j as int).drop_last() =~= v@.subrange(0, j - 1));
        j = j - 1;
    }
    assert(trim_end_char_seq(v@.subrange(0, j as int), '/') == v@.subrange(0, j as int)) by {
        if j > 0 {
            assert(v@.subrange(0, j as int).last() == v@[j - 1]);
        }
    }
    String::from_str(s.substring_char(0, j))
}

/// The texts of `items` joined by `sep`.
pub open spec fn joined(items: Seq<Seq<char>>, sep: Seq<char>) -> Seq<char>
    decreases items.len(),
{
    if items.len() == 0 {
        Seq::empty()
    } else if items.len() == 1 {
        items[0]
    } else {
        joined(items.drop_last(), sep) + sep + items.last()
    }
}

/// The texts of a list of strings.
pub open spec fn texts(items: Seq<String>) -> Seq<Seq<char>> {
    items.map_values(|s: String| s@)
}

/// The Debug rendering of a list whose elements render as `items`:
/// `[` , the items separated by `, `, then `]`.
pub open spec fn debug_list_text(items: Seq<Seq<char>>) -> Seq<char> {
    seq!['['] + joined(items, seq![',', ' ']) + seq![']']
}

/// How a list renders: `[]` when empty, `[x]` for one element, and one more
/// element `x` adds `, x` before the closing bracket; each element is the
/// text of the corresponding string.
pub proof fn law_debug_list_grows_by_element(items: Seq<Seq<char>>, x: Seq<char>, strings: Seq<String>)
    ensures
        debug_list_text(Seq::empty()) == seq!['[', ']'],
        debug_list_text(seq![x]) == seq!['['] + x + seq![']'],
        items.len() > 0 ==> debug_list_text(items.push(x)) == debug_list_text(items).drop_last()
            + seq![',', ' '] + x + seq![']'],
        texts(strings).len() == strings.len(),
        forall|i: int| 0 <= i < strings.len() ==> #[trigger] texts(strings)[i] == strings[i]@,
{
    assert(debug_list_text(Seq::empty()) =~= seq!['[', ']']);
    assert(seq![x][0] == x);
    assert(debug_list_text(seq![x]) =~= seq!['['] + x + seq![']']);
    if items.len() > 0 {
        assert(items.push(x).drop_last() =~= items);
        let j = joined(items, seq![',', ' ']);
        assert((seq!['['] + j + seq![']']).drop_last() =~= seq!['['] + j);
        assert(debug_list_text(items.push(x)) =~= debug_list_text(items).drop_last() + seq![
            ',',
            ' ',
        ] + x + seq![']']);
    }
}

/// Renders a list of already rendered elements the way `{:?}` renders a `Vec`.
pub fn debug_list(items: &Vec<String>) -> (res: String)
    ensures
        res@ == debug_list_text(texts(items@)),
{
    proof {
        reveal_strlit("[");
        reveal_strlit(", ");
        reveal_strlit("]");
    }
    let ghost all = texts(items@);
    let mut res = String::from_str("[");
    let n = items.len();
    let mut i: usize = 0;
    while i < n
        invariant
            n == items@.len(),
            all == texts(items@),
            i <= n,
            res@ == seq!['['] + joined(all.take(i as int), seq![',', ' ']),
        decreases n - i,
    {
        proof {
            reveal_strlit(", ");
        }
        if i > 0 {
            res.append(", ");
        }
        res.append(items[i].as_str());
        proof {
            assert(all[i as int] == items@[i as int]@);
            assert(all.take(i + 1).drop_last() =~= all.take(i as int));
            assert(all.take(i + 1).last() == all[i as int]);
            if i == 0 {
                assert(all.take(1)[0] == all[0]);
            }
        }
        i = i + 1;
    }
    assert(all.take(n as int) =~= all);
    res.append("]");
    res
}

} // verus!

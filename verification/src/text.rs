//! Character-level text helpers shared by the server and the clients.

use vstd::prelude::*;

verus! {

broadcast use vstd::string::group_string_axioms;

/// The characters that carry the Unicode `White_Space` property.
pub open spec fn is_white_space(c: char) -> bool {
    let n = c as u32;
    ||| (9 <= n && n <= 13)
    ||| n == 32
    ||| n == 0x85
    ||| n == 0xa0
    ||| n == 0x1680
    ||| (0x2000 <= n && n <= 0x200a)
    ||| n == 0x2028
    ||| n == 0x2029
    ||| n == 0x202f
    ||| n == 0x205f
    ||| n == 0x3000
}

/// Whether `c` has the Unicode `White_Space` property.
pub fn is_whitespace_char(c: char) -> (b: bool)
    ensures
        b == is_white_space(c),
{
    let n = c as u32;
    (9 <= n && n <= 13) || n == 32 || n == 0x85 || n == 0xa0 || n == 0x1680 || (0x2000 <= n && n
        <= 0x200a) || n == 0x2028 || n == 0x2029 || n == 0x202f || n == 0x205f || n == 0x3000
}

/// The characters of `s`, in order.
pub fn chars_of(s: &str) -> (v: Vec<char>)
    ensures
        v@ == s@,
{
    let mut v: Vec<char> = Vec::new();
    for c in it: s.chars()
        invariant
            v@ == it.seq().take(it.index() as int),
            it.seq() == s@,
    {
        v.push(c);
    }
    v
}


/// `s` without its leading white space.
pub open spec fn trim_start(s: Seq<char>) -> Seq<char>
    decreases s.len(),
{
    if s.len() > 0 && is_white_space(s[0]) {
        trim_start(s.drop_first())
    } else {
        s
    }
}

/// `s` without its trailing white space.
pub open spec fn trim_end(s: Seq<char>) -> Seq<char>
    decreases s.len(),
{
    if s.len() > 0 && is_white_space(s.last()) {
        trim_end(s.drop_last())
    } else {
        s
    }
}

/// `s` without leading and trailing white space, as `str::trim` gives it.
pub open spec fn trim(s: Seq<char>) -> Seq<char> {
    trim_end(trim_start(s))
}

/// Whether `s` holds nothing but white space.
pub open spec fn is_blank(s: Seq<char>) -> bool {
    trim(s).len() == 0
}

/// The bounds `(a, b)` of the trimmed part of `v`.
pub fn trim_bounds(v: &Vec<char>) -> (r: (usize, usize))
    ensures
        r.0 <= r.1 <= v@.len(),
        trim(v@) == v@.subrange(r.0 as int, r.1 as int),
{
    let len = v.len();
    let mut a: usize = 0;
    assert(v@.subrange(0, len as int) =~= v@);
    while a < len && is_whitespace_char(v[a])
        invariant
            a <= len == v@.len(),
            trim_start(v@) == trim_start(v@.subrange(a as int, len as int)),
        decreases len - a,
    {
        assert(v@.subrange(a as int, len as int).drop_first() =~= v@.subrange(
            a + 1,
            len as int,
        ));
        a = a + 1;
    }
    assert(trim_start(v@) == v@.subrange(a as int, len as int));
    let ghost t = v@.subrange(a as int, len as int);
    let mut b: usize = len;
    assert(v@.subrange(a as int, b as int) =~= t);
    while b > a && is_whitespace_char(v[b - 1])
        invariant
            a <= b <= len == v@.len(),
            t == v@.subrange(a as int, len as int),
            trim_end(t) == trim_end(v@.subrange(a as int, b as int)),
        decreases b - a,
    {
        assert(v@.subrange(a as int, b as int).drop_last() =~= v@.subrange(
            a as int,
            b - 1,
        ));
        b = b - 1;
    }
    (a, b)
}

/// A copy of `s` without leading and trailing white space.
pub fn trim_str(s: &str) -> (r: String)
    ensures
        r@ == trim(s@),
{
    let v = chars_of(s);
    let (a, b) = trim_bounds(&v);
    s.substring_char(a, b).to_owned()
}

/// Whether `s` holds nothing but white space.
pub fn is_blank_str(s: &str) -> (b: bool)
    ensures
        b == is_blank(s@),
{
    let v = chars_of(s);
    let (a, b) = trim_bounds(&v);
    a == b
}

/// The string made of the characters of `v`, in order.
#[verifier::external_body]
pub fn string_from_chars(v: &[char]) -> (s: String)
    ensures
        s@ == v@,
{
    v.iter().collect()
}

/// Appends one character to `s`.
#[verifier::external_body]
pub fn push_char(s: &mut String, c: char)
    ensures
        final(s)@ == old(s)@.push(c),
{
    s.push(c)
}


/// Whether `a` and `b` hold the same characters.
pub fn str_eq(a: &str, b: &str) -> (r: bool)
    ensures
        r == (a@ == b@),
{
    let va = chars_of(a);
    let vb = chars_of(b);
    seq_eq(&va, &vb)
}

/// Whether `a` and `b` hold the same characters.
pub fn seq_eq(a: &Vec<char>, b: &Vec<char>) -> (r: bool)
    ensures
        r == (a@ == b@),
{
    if a.len() != b.len() {
        return false;
    }
    let mut i: usize = 0;
    while i < a.len()
        invariant
            a@.len() == b@.len(),
            i <= a@.len(),
            forall|j: int| 0 <= j < i ==> a@[j] == b@[j],
        decreases a.len() - i,
    {
        if a[i] != b[i] {
            return false;
        }
        i = i + 1;
    }
    assert(a@ =~= b@);
    true
}


/// The ASCII character of the decimal digit `d`.
pub open spec fn digit_char(d: nat) -> char {
    (48 + d) as char
}

/// The decimal digits of `n`, most significant first, with no leading zero.
pub open spec fn nat_text(n: nat) -> Seq<char>
    decreases n,
{
    if n < 10 {
        seq![digit_char(n)]
    } else {
        nat_text(n / 10).push(digit_char(n % 10))
    }
}

/// The decimal text of `i`, with a leading `-` when it is negative.
pub open spec fn int_text(i: int) -> Seq<char> {
    if i < 0 {
        seq!['-'] + nat_text((-i) as nat)
    } else {
        nat_text(i as nat)
    }
}

/// The decimal digits of `n`.
pub fn u64_to_text(n: u64) -> (s: String)
    ensures
        s@ == nat_text(n as nat),
{
    let mut q: u64 = n;
    let mut acc: Vec<char> = Vec::new();
    while q >= 10
        invariant
            nat_text(n as nat) == nat_text(q as nat) + acc@,
        decreases q,
    {
        let d = (q % 10) as u8;
        let c = (48u8 + d) as char;
        assert(nat_text(q as nat) == nat_text((q / 10) as nat).push(c));
        assert(nat_text((q / 10) as nat).push(c) + acc@ =~= nat_text((q / 10) as nat) + (seq![c]
            + acc@));
        let ghost before = acc@;
        acc.insert(0, c);
        assert(acc@ =~= seq![c] + before);
        q = q / 10;
    }
    let c = (48u8 + (q as u8)) as char;
    let ghost before = acc@;
    acc.insert(0, c);
    assert(acc@ =~= seq![c] + before);
    assert(nat_text(n as nat) =~= acc@);
    string_from_chars(acc.as_slice())
}


/// The decimal text of `n`, with a leading `-` when it is negative.
pub fn i64_to_text(n: i64) -> (s: String)
    ensures
        s@ == int_text(n as int),
{
    if n < 0 {
        let m: u64 = (0i128 - (n as i128)) as u64;
        let digits = u64_to_text(m);
        let mut s = "-".to_owned();
        s.append(digits.as_str());
        proof {
            reveal_strlit("-");
            assert("-"@ =~= seq!['-']);
        }
        s
    } else {
        u64_to_text(n as u64)
    }
}

/// The text of `a` followed by the text of `b`.
pub fn concat_str(a: &str, b: &str) -> (s: String)
    ensures
        s@ == a@ + b@,
{
    let mut s = a.to_owned();
    s.append(b);
    s
}


/// Whether `needle` occurs in `hay` as a contiguous run of characters.
pub open spec fn contains_seq(hay: Seq<char>, needle: Seq<char>) -> bool {
    exists|i: int| 0 <= i <= hay.len() - needle.len() && #[trigger] hay.subrange(i, i + needle.len()) == needle
}

/// Whether `needle` occurs in `hay`.
pub fn vec_contains(hay: &Vec<char>, needle: &Vec<char>) -> (r: bool)
    ensures
        r == contains_seq(hay@, needle@),
{
    if needle.len() > hay.len() {
        return false;
    }
    if needle.len() == 0 {
        assert(hay@.subrange(0, 0 + needle@.len() as int) =~= needle@);
        return true;
    }
    let hl = hay.len();
    let last = hl - needle.len();
    let mut i: usize = 0;
    while i <= last
        invariant
            hl == hay@.len(),
            last == hay@.len() - needle@.len(),
            1 <= needle@.len() <= hay@.len(),
            forall|k: int| 0 <= k < i ==> #[trigger] hay@.subrange(k, k + needle@.len()) != needle@,
        decreases last + 1 - i,
    {
        let mut j: usize = 0;
        let mut same = true;
        while j < needle.len()
            invariant
                i <= last,
                hl == hay@.len(),
                last == hay@.len() - needle@.len(),
                1 <= needle@.len() <= hay@.len(),
                j <= needle@.len(),
                same ==> forall|m: int| 0 <= m < j ==> hay@[i + m] == needle@[m],
                !same ==> hay@.subrange(i as int, i + needle@.len()) != needle@,
            decreases needle.len() - j,
        {
            if hay[i + j] != needle[j] {
                assert(hay@.subrange(i as int, i + needle@.len())[j as int] != needle@[j as int]);
                same = false;
            }
            j = j + 1;
        }
        if same {
            assert(hay@.subrange(i as int, i + needle@.len()) =~= needle@);
            return true;
        }
        i = i + 1;
    }
    proof {
        assert forall|k: int|
            0 <= k <= hay@.len() - needle@.len() implies #[trigger] hay@.subrange(k, k + needle@.len())
            != needle@ by {}
    }
    false
}

/// The lowercase form of `s` under Unicode case mapping, as `str::to_lowercase` gives it.
pub uninterp spec fn lowercase(s: Seq<char>) -> Seq<char>;

/// The lowercase form of `s` (std's `str::to_lowercase`).
#[verifier::external_body]
pub fn to_lowercase_str(s: &str) -> (r: String)
    ensures
        r@ == lowercase(s@),
{
    s.to_lowercase()
}

/// The length of the run of characters at the start of `s` that are not white space.
pub open spec fn word_len(s: Seq<char>) -> nat
    decreases s.len(),
{
    if s.len() == 0 || is_white_space(s[0]) {
        0
    } else {
        1 + word_len(s.drop_first())
    }
}

/// Trimming the start never lengthens a text.
pub proof fn trim_start_is_suffix(s: Seq<char>)
    ensures
        trim_start(s).len() <= s.len(),
        trim_start(s) == s.subrange(s.len() - trim_start(s).len(), s.len() as int),
        trim_start(s).len() > 0 ==> !is_white_space(trim_start(s)[0]),
    decreases s.len(),
{
    if s.len() > 0 && is_white_space(s[0]) {
        trim_start_is_suffix(s.drop_first());
        assert(s.drop_first().subrange(
            s.drop_first().len() - trim_start(s.drop_first()).len(),
            s.drop_first().len() as int,
        ) =~= s.subrange(s.len() - trim_start(s).len(), s.len() as int));
    } else {
        assert(s.subrange(0, s.len() as int) =~= s);
    }
}

/// Trimming the end of a text keeps a prefix of it, with no white space at its end.
pub proof fn trim_end_is_prefix(s: Seq<char>)
    ensures
        trim_end(s).len() <= s.len(),
        trim_end(s) == s.take(trim_end(s).len() as int),
        trim_end(s).len() > 0 ==> !is_white_space(trim_end(s).last()),
    decreases s.len(),
{
    if s.len() > 0 && is_white_space(s.last()) {
        trim_end_is_prefix(s.drop_last());
        assert(s.drop_last().take(trim_end(s).len() as int) =~= s.take(trim_end(s).len() as int));
    } else {
        assert(s.take(s.len() as int) =~= s);
    }
}

/// A text that neither starts nor ends with white space is its own trim.
pub proof fn trim_keeps_trimmed(s: Seq<char>)
    requires
        s.len() > 0,
        !is_white_space(s[0]),
        !is_white_space(s.last()),
    ensures
        trim(s) == s,
{
}

/// A trimmed text neither starts nor ends with white space.
pub proof fn trim_has_no_edge_space(s: Seq<char>)
    ensures
        trim(s).len() > 0 ==> !is_white_space(trim(s)[0]) && !is_white_space(trim(s).last()),
{
    trim_start_is_suffix(s);
    trim_end_is_prefix(trim_start(s));
    if trim(s).len() > 0 {
        assert(trim(s)[0] == trim_start(s)[0]);
    }
}

/// A run of non-white-space characters never outgrows its text.
pub proof fn word_len_bounded(s: Seq<char>)
    ensures
        word_len(s) <= s.len(),
        s.len() > 0 && !is_white_space(s[0]) ==> word_len(s) >= 1,
        forall|k: int| 0 <= k < word_len(s) ==> !is_white_space(#[trigger] s[k]),
        word_len(s) < s.len() ==> is_white_space(s[word_len(s) as int]),
    decreases s.len(),
{
    if s.len() == 0 || is_white_space(s[0]) {
    } else {
        word_len_bounded(s.drop_first());
        assert forall|k: int| 0 <= k < word_len(s) implies !is_white_space(#[trigger] s[k]) by {
            if k > 0 {
                assert(s[k] == s.drop_first()[k - 1]);
            }
        }
    }
}

/// The white-space separated words of `s`, in order, as `str::split_whitespace` gives them.
pub open spec fn words(s: Seq<char>) -> Seq<Seq<char>>
    decreases s.len(),
{
    let t = trim_start(s);
    if t.len() == 0 {
        seq![]
    } else {
        proof {
            trim_start_is_suffix(s);
            word_len_bounded(t);
        }
        seq![t.take(word_len(t) as int)] + words(t.skip(word_len(t) as int))
    }
}


/// The views of the character vectors of `ws`.
pub open spec fn views_of(ws: Seq<Vec<char>>) -> Seq<Seq<char>> {
    ws.map_values(|w: Vec<char>| w@)
}

/// The white-space separated words of `v`, in order.
pub fn split_words(v: &Vec<char>) -> (r: Vec<Vec<char>>)
    ensures
        views_of(r@) == words(v@),
{
    let len = v.len();
    let mut out: Vec<Vec<char>> = Vec::new();
    let mut i: usize = 0;
    assert(v@.skip(0) =~= v@);
    while i < len
        invariant
            i <= len == v@.len(),
            words(v@) == views_of(out@) + words(v@.skip(i as int)),
        decreases len - i,
    {
        if is_whitespace_char(v[i]) {
            assert(v@.skip(i as int).drop_first() =~= v@.skip(i + 1));
            assert(trim_start(v@.skip(i as int)) == trim_start(v@.skip(i + 1)));
            assert(words(v@.skip(i as int)) == words(v@.skip(i + 1)));
            i = i + 1;
        } else {
            let mut j: usize = i;
            let mut word: Vec<char> = Vec::new();
            while j < len && !is_whitespace_char(v[j])
                invariant
                    i <= j <= len == v@.len(),
                    word@ == v@.subrange(i as int, j as int),
                    word_len(v@.skip(i as int)) == (j - i) + word_len(v@.skip(j as int)),
                decreases len - j,
            {
                assert(v@.skip(j as int).drop_first() =~= v@.skip(j + 1));
                word.push(v[j]);
                assert(word@ =~= v@.subrange(i as int, j + 1));
                j = j + 1;
            }
            let ghost s = v@.skip(i as int);
            assert(word_len(s) == j - i);
            assert(trim_start(s) == s);
            assert(s.take(word_len(s) as int) =~= word@);
            assert(s.skip(word_len(s) as int) =~= v@.skip(j as int));
            let ghost before = out@;
            out.push(word);
            assert(views_of(out@) =~= views_of(before).push(word@));
            assert(views_of(out@) + words(v@.skip(j as int)) =~= views_of(before) + (seq![word@]
                + words(v@.skip(j as int))));
            i = j;
        }
    }
    assert(v@.skip(len as int) =~= Seq::<char>::empty());
    assert(views_of(out@) + words(v@.skip(len as int)) =~= views_of(out@));
    out
}


/// The texts of `ws` joined with `sep` between neighbours.
pub open spec fn join_with(ws: Seq<Seq<char>>, sep: Seq<char>) -> Seq<char>
    decreases ws.len(),
{
    if ws.len() == 0 {
        Seq::empty()
    } else if ws.len() == 1 {
        ws[0]
    } else {
        join_with(ws.drop_last(), sep) + sep + ws.last()
    }
}

/// The views of the strings of `ws`.
pub open spec fn string_views(ws: Seq<String>) -> Seq<Seq<char>> {
    ws.map_values(|w: String| w@)
}

/// The strings of `ws` joined with `sep` between neighbours.
pub fn join_strings(ws: &Vec<String>, sep: &str) -> (r: String)
    ensures
        r@ == join_with(string_views(ws@), sep@),
{
    let mut r = String::new();
    let mut i: usize = 0;
    while i < ws.len()
        invariant
            i <= ws@.len(),
            r@ == join_with(string_views(ws@).take(i as int), sep@),
        decreases ws.len() - i,
    {
        assert(string_views(ws@).take(i + 1).drop_last() =~= string_views(ws@).take(i as int));
        if i > 0 {
            r.append(sep);
        } else {
            assert(string_views(ws@).take(1) =~= seq![ws@[0]@]);
        }
        r.append(ws[i].as_str());
        i = i + 1;
    }
    assert(string_views(ws@).take(ws@.len() as int) =~= string_views(ws@));
    r
}

/// Whether `s` begins with `prefix`.
pub open spec fn starts_with(s: Seq<char>, prefix: Seq<char>) -> bool {
    prefix.len() <= s.len() && s.take(prefix.len() as int) == prefix
}

/// Whether `s` begins with `prefix`.
pub fn str_starts_with(s: &str, prefix: &str) -> (r: bool)
    ensures
        r == starts_with(s@, prefix@),
{
    let v = chars_of(s);
    let p = chars_of(prefix);
    if p.len() > v.len() {
        return false;
    }
    let mut i: usize = 0;
    while i < p.len()
        invariant
            v@ == s@,
            p@ == prefix@,
            p@.len() <= v@.len(),
            i <= p@.len(),
            forall|k: int| 0 <= k < i ==> v@[k] == p@[k],
        decreases p.len() - i,
    {
        if v[i] != p[i] {
            assert(v@.take(p@.len() as int)[i as int] != p@[i as int]);
            assert(v@.take(p@.len() as int) != p@);
            return false;
        }
        i = i + 1;
    }
    assert(v@.take(p@.len() as int) =~= p@);
    true
}

/// `s` without `prefix`, when it begins with it.
pub fn strip_prefix_str(s: &str, prefix: &str) -> (r: Option<String>)
    ensures
        r is Some <==> starts_with(s@, prefix@),
        r matches Some(rest) ==> rest@ == s@.skip(prefix@.len() as int),
{
    if str_starts_with(s, prefix) {
        let n = chars_of(prefix).len();
        let total = chars_of(s).len();
        Some(s.substring_char(n, total).to_owned())
    } else {
        None
    }
}

} // verus!

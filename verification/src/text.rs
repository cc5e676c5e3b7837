//! Character-level text helpers with exact specifications: decimal and
//! hexadecimal rendering, prefix tests, whitespace handling and UTF-16
//! conversion.
use vstd::prelude::*;

verus! {

/// The decimal digit character for a value below ten.
pub open spec fn digit_char(d: nat) -> char {
    if d == 0 { '0' } else if d == 1 { '1' } else if d == 2 { '2' } else if d == 3 { '3' }
    else if d == 4 { '4' } else if d == 5 { '5' } else if d == 6 { '6' } else if d == 7 { '7' }
    else if d == 8 { '8' } else { '9' }
}

/// The lower-case hexadecimal digit character for a value below sixteen.
pub open spec fn hex_char(d: nat) -> char {
    if d < 10 { digit_char(d) } else if d == 10 { 'a' } else if d == 11 { 'b' }
    else if d == 12 { 'c' } else if d == 13 { 'd' } else if d == 14 { 'e' } else { 'f' }
}

/// `n` written in decimal without leading zeros, as `{}` renders an integer.
pub open spec fn dec(n: nat) -> Seq<char>
    decreases n,
{
    if n < 10 { seq![digit_char(n)] } else { dec(n / 10).push(digit_char(n % 10)) }
}

/// `n` written in lower-case hexadecimal without leading zeros, as `{:x}` renders it.
pub open spec fn hex(n: nat) -> Seq<char>
    decreases n,
{
    if n < 16 { seq![hex_char(n)] } else { hex(n / 16).push(hex_char(n % 16)) }
}

/// `s` padded on the left with `'0'` up to `width` characters.
pub open spec fn zero_pad(s: Seq<char>, width: nat) -> Seq<char> {
    if s.len() >= width { s } else { Seq::new((width - s.len()) as nat, |i: int| '0') + s }
}

/// `n` as `{:0w$x}` renders it.
pub open spec fn hex_padded(n: nat, width: nat) -> Seq<char> {
    zero_pad(hex(n), width)
}

/// Appends one character to a `String` (std `String::push`).
#[verifier::external_body]
pub(crate) fn push_char(s: &mut String, c: char)
    ensures
        final(s)@ == old(s)@.push(c),
{
    s.push(c);
}

/// Appends a string slice.
pub fn push_str(s: &mut String, t: &str)
    ensures
        final(s)@ == old(s)@ + t@,
{
    s.append(t);
}

fn digit(d: u64) -> (c: char)
    requires
        d < 10,
    ensures
        c == digit_char(d as nat),
{
    if d == 0 { '0' } else if d == 1 { '1' } else if d == 2 { '2' } else if d == 3 { '3' }
    else if d == 4 { '4' } else if d == 5 { '5' } else if d == 6 { '6' } else if d == 7 { '7' }
    else if d == 8 { '8' } else { '9' }
}

fn hex_digit(d: u64) -> (c: char)
    requires
        d < 16,
    ensures
        c == hex_char(d as nat),
{
    if d < 10 { digit(d) } else if d == 10 { 'a' } else if d == 11 { 'b' }
    else if d == 12 { 'c' } else if d == 13 { 'd' } else if d == 14 { 'e' } else { 'f' }
}

/// Appends `n` in decimal.
pub fn push_dec(s: &mut String, n: u64)
    ensures
        final(s)@ == old(s)@ + dec(n as nat),
    decreases n,
{
    if n >= 10 {
        push_dec(s, n / 10);
    }
    push_char(s, digit(n % 10));
    proof {
        if n >= 10 {
            assert(old(s)@ + dec(n as nat) =~= old(s)@ + dec((n / 10) as nat) + seq![digit_char((n % 10) as nat)]);
        } else {
            assert(old(s)@ + dec(n as nat) =~= old(s)@.push(digit_char(n as nat)));
        }
    }
}

/// Appends `n` in lower-case hexadecimal.
pub fn push_hex(s: &mut String, n: u64)
    ensures
        final(s)@ == old(s)@ + hex(n as nat),
    decreases n,
{
    if n >= 16 {
        push_hex(s, n / 16);
    }
    push_char(s, hex_digit(n % 16));
    proof {
        if n >= 16 {
            assert(old(s)@ + hex(n as nat) =~= old(s)@ + hex((n / 16) as nat) + seq![hex_char((n % 16) as nat)]);
        } else {
            assert(old(s)@ + hex(n as nat) =~= old(s)@.push(hex_char(n as nat)));
        }
    }
}

/// The number of digits that `hex` produces.
fn hex_len(n: u64) -> (len: u64)
    ensures
        len == hex(n as nat).len(),
        len <= 16,
    decreases n,
{
    if n >= 16 {
        let l = hex_len(n / 16);
        proof { lemma_hex_len_bound(n as nat); }
        l + 1
    } else {
        1
    }
}

/// Sixteen to the power `k`.
pub open spec fn pow16(k: nat) -> nat
    decreases k,
{
    if k == 0 { 1 } else { 16 * pow16((k - 1) as nat) }
}

proof fn lemma_hex_len_below(n: nat, k: nat)
    requires
        k >= 1,
        n < pow16(k),
    ensures
        hex(n).len() <= k,
    decreases n,
{
    if n >= 16 {
        assert(k >= 2) by {
            if k == 1 { assert(pow16(1) == 16 * pow16(0)); }
        }
        assert(n / 16 < pow16((k - 1) as nat));
        lemma_hex_len_below(n / 16, (k - 1) as nat);
    }
}

proof fn lemma_hex_len_bound(n: nat)
    requires
        n <= u64::MAX,
    ensures
        hex(n).len() <= 16,
{
    reveal_with_fuel(pow16, 17);
    lemma_hex_len_below(n, 16);
}

/// Appends `n` in lower-case hexadecimal, padded with zeros to `width` digits.
pub fn push_hex_padded(s: &mut String, n: u64, width: u64)
    requires
        width <= 64,
    ensures
        final(s)@ == old(s)@ + hex_padded(n as nat, width as nat),
{
    let len = hex_len(n);
    let ghost start = s@;
    if len < width {
        let mut i: u64 = len;
        while i < width
            invariant
                len <= i <= width,
                s@ == start + Seq::new((i - len) as nat, |k: int| '0'),
            decreases width - i,
        {
            push_char(s, '0');
            i = i + 1;
            proof {
                assert(s@ =~= start + Seq::new((i - len) as nat, |k: int| '0'));
            }
        }
    }
    push_hex(s, n);
    proof {
        assert(s@ =~= start + hex_padded(n as nat, width as nat));
    }
}

} // verus!

verus! {

/// The characters of `s`, in order.
pub fn chars_of(s: &str) -> (v: Vec<char>)
    ensures
        v@ == s@,
{
    let mut v: Vec<char> = Vec::new();
    for c in it: s.chars()
        invariant
            it.seq() == s@,
            v@ == s@.take(it.index() as int),
    {
        v.push(c);
        proof {
            assert(v@ =~= s@.take(it.index() as int + 1));
        }
    }
    proof {
        assert(v@ =~= s@);
    }
    v
}

} // verus!

verus! {

/// `p` is a prefix of `s`.
pub open spec fn has_prefix(s: Seq<char>, p: Seq<char>) -> bool {
    p.len() <= s.len() && s.take(p.len() as int) == p
}

/// `n` occurs in `s` as a contiguous run of characters.
pub open spec fn contains_seq(s: Seq<char>, n: Seq<char>) -> bool {
    exists|i: int| 0 <= i && i + n.len() <= s.len() && #[trigger] s.subrange(i, i + n.len()) == n
}

/// Whether `p` is a prefix of `s`.
pub fn starts_with(s: &[char], p: &[char]) -> (b: bool)
    ensures
        b == has_prefix(s@, p@),
{
    if p.len() > s.len() {
        return false;
    }
    let mut i: usize = 0;
    while i < p.len()
        invariant
            p.len() <= s.len(),
            i <= p.len(),
            forall|k: int| 0 <= k < i ==> s@[k] == p@[k],
        decreases p.len() - i,
    {
        if s[i] != p[i] {
            proof {
                assert(s@.take(p@.len() as int)[i as int] != p@[i as int]);
            }
            return false;
        }
        i = i + 1;
    }
    proof {
        assert(s@.take(p@.len() as int) =~= p@);
    }
    true
}

/// Whether `a` and `b` hold the same characters.
pub fn chars_eq(a: &[char], b: &[char]) -> (r: bool)
    ensures
        r == (a@ == b@),
{
    if a.len() != b.len() {
        return false;
    }
    let r = starts_with(a, b);
    proof {
        if r {
            assert(a@ =~= a@.take(b@.len() as int));
        }
        if a@ == b@ {
            assert(a@.take(b@.len() as int) =~= b@);
        }
    }
    r
}

/// Whether `s` equals `t`.
pub fn str_eq(s: &str, t: &str) -> (r: bool)
    ensures
        r == (s@ == t@),
{
    let a = chars_of(s);
    let b = chars_of(t);
    chars_eq(a.as_slice(), b.as_slice())
}

/// Whether `needle` occurs in `s`.
pub fn contains_chars(s: &[char], needle: &[char]) -> (r: bool)
    ensures
        r == contains_seq(s@, needle@),
{
    if needle.len() > s.len() {
        return false;
    }
    let last = s.len() - needle.len();
    let mut i: usize = 0;
    while i <= last
        invariant
            needle.len() <= s.len(),
            last == s.len() - needle.len(),
            i <= last + 1,
            forall|k: int| 0 <= k < i ==> #[trigger] s@.subrange(k, k + needle@.len()) != needle@,
        decreases last + 1 - i,
    {
        let mut j: usize = 0;
        let mut matched = true;
        while j < needle.len()
            invariant
                needle.len() <= s.len(),
                i <= last,
                last == s.len() - needle.len(),
                j <= needle.len(),
                matched == (forall|k: int| 0 <= k < j ==> s@[i + k] == needle@[k]),
            decreases needle.len() - j,
        {
            if s[i + j] != needle[j] {
                matched = false;
            }
            j = j + 1;
        }
        if matched {
            proof {
                assert(s@.subrange(i as int, i + needle@.len()) =~= needle@);
            }
            return true;
        }
        proof {
            let k = choose|k: int| 0 <= k < needle@.len() && s@[i + k] != needle@[k];
            assert(s@.subrange(i as int, i + needle@.len())[k] != needle@[k]);
        }
        i = i + 1;
    }
    proof {
        assert forall|k: int| 0 <= k && k + needle@.len() <= s@.len() implies #[trigger] s@.subrange(k, k + needle@.len()) != needle@ by {
            assert(k < i);
        }
    }
    false
}

/// Whether `needle` occurs in `s`.
pub fn str_contains(s: &str, needle: &str) -> (r: bool)
    ensures
        r == contains_seq(s@, needle@),
{
    let a = chars_of(s);
    let b = chars_of(needle);
    contains_chars(a.as_slice(), b.as_slice())
}

/// Appends the characters `v[from..]`.
pub fn push_chars_from(s: &mut String, v: &[char], from: usize)
    requires
        from <= v.len(),
    ensures
        final(s)@ == old(s)@ + v@.skip(from as int),
{
    let ghost start = s@;
    let mut i = from;
    while i < v.len()
        invariant
            from <= i <= v.len(),
            s@ == start + v@.subrange(from as int, i as int),
        decreases v.len() - i,
    {
        push_char(s, v[i]);
        i = i + 1;
        proof {
            assert(s@ =~= start + v@.subrange(from as int, i as int));
        }
    }
    proof {
        assert(v@.subrange(from as int, v@.len() as int) =~= v@.skip(from as int));
    }
}

/// A `String` holding exactly the characters of `v`.
pub fn string_of_chars(v: &[char]) -> (s: String)
    ensures
        s@ == v@,
{
    let mut s = String::new();
    push_chars_from(&mut s, v, 0);
    proof {
        assert(v@.skip(0) =~= v@);
    }
    s
}

/// A `String` holding `t`.
pub fn string_of(t: &str) -> (s: String)
    ensures
        s@ == t@,
{
    String::from_str(t)
}

} // verus!

verus! {

/// `char::is_whitespace`: the Unicode `White_Space` characters.
pub open spec fn is_ws(c: char) -> bool {
    let n = c as u32;
    (0x09 <= n && n <= 0x0d) || n == 0x20 || n == 0x85 || n == 0xa0 || n == 0x1680
        || (0x2000 <= n && n <= 0x200a) || n == 0x2028 || n == 0x2029 || n == 0x202f || n == 0x205f
        || n == 0x3000
}

/// `char::is_whitespace`.
pub fn char_is_ws(c: char) -> (b: bool)
    ensures
        b == is_ws(c),
{
    let n = c as u32;
    (0x09 <= n && n <= 0x0d) || n == 0x20 || n == 0x85 || n == 0xa0 || n == 0x1680
        || (0x2000 <= n && n <= 0x200a) || n == 0x2028 || n == 0x2029 || n == 0x202f || n == 0x205f
        || n == 0x3000
}

/// `s` without its leading whitespace.
pub open spec fn skip_ws(s: Seq<char>) -> Seq<char>
    decreases s.len(),
{
    if s.len() > 0 && is_ws(s[0]) { skip_ws(s.drop_first()) } else { s }
}

/// The longest prefix of `s` without whitespace.
pub open spec fn token(s: Seq<char>) -> Seq<char>
    decreases s.len(),
{
    if s.len() > 0 && !is_ws(s[0]) { seq![s[0]] + token(s.drop_first()) } else { seq![] }
}

/// The first whitespace-separated word of `s` (empty when there is none).
pub open spec fn first_word(s: Seq<char>) -> Seq<char> {
    token(skip_ws(s))
}

/// What follows the first word of `s`.
pub open spec fn after_first_word(s: Seq<char>) -> Seq<char> {
    skip_ws(s).skip(first_word(s).len() as int)
}

/// The second whitespace-separated word of `s`, if any.
pub open spec fn second_word(s: Seq<char>) -> Option<Seq<char>> {
    let w = first_word(after_first_word(s));
    if w.len() == 0 { None } else { Some(w) }
}

proof fn lemma_token_len(s: Seq<char>)
    ensures
        token(s).len() <= s.len(),
        token(s) == s.take(token(s).len() as int),
    decreases s.len(),
{
    if s.len() > 0 && !is_ws(s[0]) {
        lemma_token_len(s.drop_first());
        assert(token(s) =~= s.take(token(s).len() as int));
    } else {
        assert(token(s) =~= s.take(0));
    }
}

/// The index of the first non-whitespace character of `v` at or after `i`.
fn skip_ws_from(v: &[char], i: usize) -> (r: usize)
    requires
        i <= v.len(),
    ensures
        i <= r <= v.len(),
        v@.skip(r as int) == skip_ws(v@.skip(i as int)),
{
    let mut j = i;
    while j < v.len() && char_is_ws(v[j])
        invariant
            i <= j <= v.len(),
            skip_ws(v@.skip(j as int)) == skip_ws(v@.skip(i as int)),
        decreases v.len() - j,
    {
        proof {
            assert(v@.skip(j as int).drop_first() =~= v@.skip(j as int + 1));
        }
        j = j + 1;
    }
    proof {
        if j < v.len() {
            assert(v@.skip(j as int)[0] == v@[j as int]);
        }
    }
    j
}

/// The end of the word of `v` that starts at `i`.
fn token_end(v: &[char], i: usize) -> (r: usize)
    requires
        i <= v.len(),
    ensures
        i <= r <= v.len(),
        v@.subrange(i as int, r as int) == token(v@.skip(i as int)),
{
    let mut j = i;
    while j < v.len() && !char_is_ws(v[j])
        invariant
            i <= j <= v.len(),
            token(v@.skip(i as int)) == v@.subrange(i as int, j as int) + token(v@.skip(j as int)),
        decreases v.len() - j,
    {
        proof {
            assert(v@.skip(j as int).drop_first() =~= v@.skip(j as int + 1));
            assert(v@.skip(j as int)[0] == v@[j as int]);
            assert(v@.subrange(i as int, j as int + 1) =~= v@.subrange(i as int, j as int) + seq![v@[j as int]]);
        }
        j = j + 1;
    }
    proof {
        if j < v.len() {
            assert(v@.skip(j as int)[0] == v@[j as int]);
        }
        assert(token(v@.skip(j as int)) =~= Seq::<char>::empty());
        assert(v@.subrange(i as int, j as int) + Seq::<char>::empty() =~= v@.subrange(i as int, j as int));
    }
    j
}

/// The first and the second whitespace-separated words of `s`.
pub fn split_first_words(s: &str) -> (r: (String, Option<String>))
    ensures
        r.0@ == first_word(s@),
        match r.1 {
            Some(w) => second_word(s@) == Some(w@),
            None => second_word(s@) is None,
        },
{
    let v = chars_of(s);
    let a = skip_ws_from(v.as_slice(), 0);
    let b = token_end(v.as_slice(), a);
    proof {
        assert(v@.skip(0) =~= v@);
        lemma_token_len(skip_ws(v@));
        assert(v@.subrange(a as int, b as int) =~= v@.skip(a as int).take((b - a) as int));
        assert(v@.skip(b as int) =~= skip_ws(v@).skip((b - a) as int));
    }
    let c = skip_ws_from(v.as_slice(), b);
    let d = token_end(v.as_slice(), c);
    let mut first = String::new();
    let mut k = a;
    while k < b
        invariant
            a <= k <= b <= v.len(),
            first@ == v@.subrange(a as int, k as int),
        decreases b - k,
    {
        push_char(&mut first, v[k]);
        k = k + 1;
        proof { assert(first@ =~= v@.subrange(a as int, k as int)); }
    }
    if c == d {
        proof {
            assert(v@.subrange(c as int, d as int) =~= Seq::<char>::empty());
        }
        return (first, None);
    }
    let mut second = String::new();
    let mut m = c;
    while m < d
        invariant
            c <= m <= d <= v.len(),
            second@ == v@.subrange(c as int, m as int),
        decreases d - m,
    {
        push_char(&mut second, v[m]);
        m = m + 1;
        proof { assert(second@ =~= v@.subrange(c as int, m as int)); }
    }
    (first, Some(second))
}

/// `parts` joined with `sep`.
pub open spec fn joined(parts: Seq<Seq<char>>, sep: Seq<char>) -> Seq<char>
    decreases parts.len(),
{
    if parts.len() == 0 {
        seq![]
    } else if parts.len() == 1 {
        parts[0]
    } else {
        joined(parts.drop_last(), sep) + sep + parts.last()
    }
}

/// The items of a list of integers as `{:?}` prints them, without brackets.
pub open spec fn list_items(v: Seq<u32>) -> Seq<char>
    decreases v.len(),
{
    if v.len() == 0 {
        seq![]
    } else if v.len() == 1 {
        dec(v[0] as nat)
    } else {
        list_items(v.drop_last()) + ", "@ + dec(v.last() as nat)
    }
}

/// A list of integers as `{:?}` prints it: `[a, b, c]`.
pub open spec fn u32_list(v: Seq<u32>) -> Seq<char> {
    "["@ + list_items(v) + "]"@
}

/// Appends a list of integers as `{:?}` prints it.
pub fn push_u32_list(s: &mut String, v: &[u32])
    ensures
        final(s)@ == old(s)@ + u32_list(v@),
{
    push_str(s, "[");
    let mut i: usize = 0;
    while i < v.len()
        invariant
            i <= v.len(),
            s@ == old(s)@ + "["@ + list_items(v@.take(i as int)),
        decreases v.len() - i,
    {
        let ghost before = s@;
        proof {
            assert(v@.take(i as int + 1).drop_last() =~= v@.take(i as int));
            assert(v@.take(i as int + 1).last() == v@[i as int]);
        }
        if i > 0 {
            push_str(s, ", ");
        }
        push_dec(s, v[i] as u64);
        proof {
            if i == 0 {
                assert(list_items(v@.take(1)) == dec(v@[0] as nat));
                assert(s@ =~= old(s)@ + "["@ + list_items(v@.take(1)));
            } else {
                assert(s@ =~= old(s)@ + "["@ + list_items(v@.take(i as int + 1)));
            }
        }
        i = i + 1;
    }
    proof {
        assert(v@.take(v@.len() as int) =~= v@);
    }
    push_str(s, "]");
    proof {
        assert(s@ =~= old(s)@ + u32_list(v@));
    }
}

/// The characters of a list of strings.
pub open spec fn strings_view(v: Seq<String>) -> Seq<Seq<char>> {
    v.map_values(|p: String| p@)
}

/// Appends `parts` joined with `sep`.
pub fn push_joined(s: &mut String, parts: &[String], sep: &str)
    ensures
        final(s)@ == old(s)@ + joined(strings_view(parts@), sep@),
{
    let mut i: usize = 0;
    while i < parts.len()
        invariant
            i <= parts.len(),
            s@ == old(s)@ + joined(strings_view(parts@.take(i as int)), sep@),
        decreases parts.len() - i,
    {
        proof {
            assert(strings_view(parts@.take(i as int + 1)).drop_last() =~= strings_view(parts@.take(i as int)));
            assert(strings_view(parts@.take(i as int + 1)).last() == parts@[i as int]@);
        }
        if i > 0 {
            push_str(s, sep);
        }
        push_str(s, parts[i].as_str());
        proof {
            if i == 0 {
                assert(joined(strings_view(parts@.take(1)), sep@) == parts@[0]@);
                assert(strings_view(parts@.take(0)) =~= Seq::<Seq<char>>::empty());
            }
            assert(s@ =~= old(s)@ + joined(strings_view(parts@.take(i as int + 1)), sep@));
        }
        i = i + 1;
    }
    proof {
        assert(parts@.take(parts@.len() as int) =~= parts@);
    }
}

/// The value of a string of decimal digits.
pub open spec fn digits_value(d: Seq<char>) -> nat
    decreases d.len(),
{
    if d.len() == 0 { 0 } else { digits_value(d.drop_last()) * 10 + digit_of(d.last()) }
}

/// The value of one decimal digit character.
pub open spec fn digit_of(c: char) -> nat {
    ((c as u32) - 0x30) as nat
}

/// Whether `c` is an ASCII decimal digit.
pub open spec fn is_digit(c: char) -> bool {
    0x30 <= (c as u32) && (c as u32) <= 0x39
}

/// What `str::parse::<u32>` accepts: an optional `+`, then one or more ASCII
/// digits whose value fits in a `u32`.
pub open spec fn parse_u32_spec(s: Seq<char>) -> Option<u32> {
    digits_u32(sign_stripped(s))
}

/// `s` without one leading `+`.
pub open spec fn sign_stripped(s: Seq<char>) -> Seq<char> {
    if s.len() > 0 && s[0] == '+' { s.drop_first() } else { s }
}

/// The value of a nonempty run of ASCII digits that fits in a `u32`.
pub open spec fn digits_u32(d: Seq<char>) -> Option<u32> {
    if d.len() > 0 && all_digits(d) && digits_value(d) <= u32::MAX {
        Some(digits_value(d) as u32)
    } else {
        None
    }
}

/// Every character of `d` is an ASCII digit.
pub open spec fn all_digits(d: Seq<char>) -> bool {
    forall|i: int| 0 <= i < d.len() ==> is_digit(#[trigger] d[i])
}

proof fn lemma_digits_value_mono(d: Seq<char>, k: int)
    requires
        0 <= k <= d.len(),
        forall|i: int| 0 <= i < d.len() ==> is_digit(#[trigger] d[i]),
    ensures
        digits_value(d.take(k)) <= digits_value(d),
    decreases d.len() - k,
{
    if k < d.len() {
        lemma_digits_value_mono(d, k + 1);
        assert(d.take(k + 1).drop_last() =~= d.take(k));
    } else {
        assert(d.take(k) =~= d);
    }
}

/// `str::parse::<u32>`.
pub fn parse_u32(s: &str) -> (r: Option<u32>)
    ensures
        r == parse_u32_spec(s@),
{
    let v = chars_of(s);
    let start: usize = if v.len() > 0 && v[0] == '+' { 1 } else { 0 };
    let ghost d = sign_stripped(s@);
    proof {
        assert(d =~= v@.skip(start as int));
    }
    if start >= v.len() {
        return None;
    }
    let mut value: u64 = 0;
    let mut i = start;
    while i < v.len()
        invariant
            start <= i <= v.len(),
            v@ == s@,
            d == sign_stripped(s@),
            d == v@.skip(start as int),
            forall|k: int| 0 <= k < i - start ==> is_digit(#[trigger] d[k]),
            value == digits_value(d.take(i - start)),
            value <= u32::MAX,
        decreases v.len() - i,
    {
        let c = v[i];
        let n = c as u32;
        proof {
            assert(d[i - start] == c);
        }
        if n < 0x30 || n > 0x39 {
            proof {
                assert(!is_digit(d[i - start]));
                assert(!(forall|k: int| 0 <= k < d.len() ==> is_digit(#[trigger] d[k])));
                assert(parse_u32_spec(s@) is None);
            }
            return None;
        }
        proof {
            assert(d.take(i - start + 1).drop_last() =~= d.take(i - start));
            assert(d.take(i - start + 1).last() == c);
            assert(is_digit(d[i - start]));
        }
        value = value * 10 + (n - 0x30) as u64;
        assert(value == digits_value(d.take(i - start + 1)));
        if value > 0xffff_ffff {
            proof {
                if forall|k: int| 0 <= k < d.len() ==> is_digit(#[trigger] d[k]) {
                    lemma_digits_value_mono(d, i - start + 1);
                    assert(digits_value(d) > u32::MAX);
                }
                assert(parse_u32_spec(s@) is None);
            }
            return None;
        }
        i = i + 1;
    }
    proof {
        assert(d.take(i - start) =~= d);
    }
    Some(value as u32)
}

} // verus!

verus! {

/// UTF-16 decoding with each unpaired surrogate replaced by U+FFFD, as
/// `String::from_utf16_lossy` does.
pub open spec fn utf16_lossy(u: Seq<u16>) -> Seq<char>
    decreases u.len(),
{
    if u.len() == 0 {
        seq![]
    } else if u[0] < 0xd800 || u[0] > 0xdfff {
        seq![u[0] as char] + utf16_lossy(u.drop_first())
    } else if u[0] <= 0xdbff && u.len() >= 2 && 0xdc00 <= u[1] && u[1] <= 0xdfff {
        seq![(0x10000 + (u[0] - 0xd800) * 0x400 + (u[1] - 0xdc00)) as char] + utf16_lossy(u.skip(2))
    } else {
        seq!['\u{FFFD}'] + utf16_lossy(u.drop_first())
    }
}

/// std `String::from_utf16_lossy`: decodes UTF-16, replacing every unpaired
/// surrogate with U+FFFD.
#[verifier::external_body]
pub(crate) fn from_utf16_lossy(units: &[u16]) -> (s: String)
    ensures
        s@ == utf16_lossy(units@),
{
    String::from_utf16_lossy(units)
}

/// What std's `String::from_utf8_lossy` makes of a byte string (UTF-8
/// decoding with U+FFFD for each invalid sequence).
pub uninterp spec fn utf8_lossy(bytes: Seq<u8>) -> Seq<char>;

/// Every byte is ASCII.
pub open spec fn all_ascii_bytes(bytes: Seq<u8>) -> bool {
    forall|i: int| 0 <= i < bytes.len() ==> #[trigger] bytes[i] < 0x80
}

/// ASCII bytes read as characters, one for one.
pub open spec fn ascii_text(bytes: Seq<u8>) -> Seq<char> {
    bytes.map_values(|b: u8| b as char)
}

/// std `String::from_utf8_lossy`: its result is a function of the bytes alone,
/// and valid UTF-8 (ASCII in particular) comes back unchanged.
#[verifier::external_body]
pub(crate) fn from_utf8_lossy(bytes: &[u8]) -> (s: String)
    ensures
        s@ == utf8_lossy(bytes@),
        all_ascii_bytes(bytes@) ==> s@ == ascii_text(bytes@),
{
    String::from_utf8_lossy(bytes).into_owned()
}

/// `s` without the trailing characters equal to `c`.
pub open spec fn trim_end_char(s: Seq<char>, c: char) -> Seq<char>
    decreases s.len(),
{
    if s.len() > 0 && s.last() == c { trim_end_char(s.drop_last(), c) } else { s }
}

/// `s` without its trailing whitespace.
pub open spec fn trim_end_ws(s: Seq<char>) -> Seq<char>
    decreases s.len(),
{
    if s.len() > 0 && is_ws(s.last()) { trim_end_ws(s.drop_last()) } else { s }
}

/// `str::trim`: `s` without leading and trailing whitespace.
pub open spec fn trim_ws(s: Seq<char>) -> Seq<char> {
    trim_end_ws(skip_ws(s))
}

/// `s` with `A`..=`Z` lowered, as `to_ascii_lowercase` does.
pub open spec fn ascii_lower(s: Seq<char>) -> Seq<char> {
    s.map_values(|c: char| ascii_lower_char(c))
}

/// One character lowered if it is an ASCII capital.
pub open spec fn ascii_lower_char(c: char) -> char {
    if 'A' <= c && c <= 'Z' { ((c as u32) + 32) as char } else { c }
}

/// One character lowered if it is an ASCII capital.
pub fn lower_ascii_char(c: char) -> (r: char)
    ensures
        r == ascii_lower_char(c),
{
    if 'A' <= c && c <= 'Z' {
        let b = c as u8;
        assert(b == c as u32);
        ((b + 32) as char)
    } else {
        c
    }
}

/// `v` with `A`..=`Z` lowered.
pub fn lower_ascii_chars(v: &[char]) -> (r: Vec<char>)
    ensures
        r@ == ascii_lower(v@),
{
    let mut r: Vec<char> = Vec::new();
    let mut i: usize = 0;
    while i < v.len()
        invariant
            i <= v.len(),
            r@ == ascii_lower(v@.take(i as int)),
        decreases v.len() - i,
    {
        r.push(lower_ascii_char(v[i]));
        i = i + 1;
        proof { assert(r@ =~= ascii_lower(v@.take(i as int))); }
    }
    proof { assert(v@.take(v@.len() as int) =~= v@); }
    r
}

/// The length of `v` once the trailing copies of `c` are dropped.
pub fn trimmed_end_len(v: &[char], c: char) -> (n: usize)
    ensures
        n <= v.len(),
        v@.take(n as int) == trim_end_char(v@, c),
{
    let mut n = v.len();
    proof { assert(v@.take(v@.len() as int) =~= v@); }
    while n > 0 && v[n - 1] == c
        invariant
            n <= v.len(),
            trim_end_char(v@.take(n as int), c) == trim_end_char(v@, c),
        decreases n,
    {
        proof { assert(v@.take(n as int).drop_last() =~= v@.take(n as int - 1)); }
        n = n - 1;
    }
    proof { assert(v@.take(v@.len() as int) =~= v@); }
    n
}

/// The length of `v` once its trailing whitespace is dropped.
pub fn trimmed_ws_end_len(v: &[char]) -> (n: usize)
    ensures
        n <= v.len(),
        v@.take(n as int) == trim_end_ws(v@),
{
    let mut n = v.len();
    proof { assert(v@.take(v@.len() as int) =~= v@); }
    while n > 0 && char_is_ws(v[n - 1])
        invariant
            n <= v.len(),
            trim_end_ws(v@.take(n as int)) == trim_end_ws(v@),
        decreases n,
    {
        proof { assert(v@.take(n as int).drop_last() =~= v@.take(n as int - 1)); }
        n = n - 1;
    }
    proof { assert(v@.take(v@.len() as int) =~= v@); }
    n
}

/// The characters `v[from..to]` as a `String`.
pub fn string_of_range(v: &[char], from: usize, to: usize) -> (s: String)
    requires
        from <= to <= v.len(),
    ensures
        s@ == v@.subrange(from as int, to as int),
{
    let mut s = String::new();
    let mut i = from;
    while i < to
        invariant
            from <= i <= to <= v.len(),
            s@ == v@.subrange(from as int, i as int),
        decreases to - i,
    {
        push_char(&mut s, v[i]);
        i = i + 1;
        proof { assert(s@ =~= v@.subrange(from as int, i as int)); }
    }
    s
}

/// `str::trim`.
pub fn trim_chars(v: &[char]) -> (s: String)
    ensures
        s@ == trim_ws(v@),
{
    let start = skip_ws_from(v, 0);
    proof { assert(v@.skip(0) =~= v@); }
    let tail: Vec<char> = subvec(v, start, v.len());
    let m = trimmed_ws_end_len(tail.as_slice());
    let s = string_of_range(tail.as_slice(), 0, m);
    proof {
        assert(tail@.subrange(0, m as int) =~= tail@.take(m as int));
        assert(tail@ =~= v@.skip(start as int));
    }
    s
}

/// The characters `v[from..to]`.
pub fn subvec(v: &[char], from: usize, to: usize) -> (r: Vec<char>)
    requires
        from <= to <= v.len(),
    ensures
        r@ == v@.subrange(from as int, to as int),
{
    let mut r: Vec<char> = Vec::new();
    let mut i = from;
    while i < to
        invariant
            from <= i <= to <= v.len(),
            r@ == v@.subrange(from as int, i as int),
        decreases to - i,
    {
        r.push(v[i]);
        i = i + 1;
        proof { assert(r@ =~= v@.subrange(from as int, i as int)); }
    }
    r
}


} // verus!

use vstd::prelude::*;
use vstd::string::StrSliceExecFns;

verus! {

/// Whether two strings hold the same characters.
pub fn str_eq(a: &str, b: &str) -> (r: bool)
    ensures
        r == (a@ == b@),
{
    let n = a.unicode_len();
    if n != b.unicode_len() {
        return false;
    }
    let mut i: usize = 0;
    while i < n
        invariant
            n == a@.len(),
            n == b@.len(),
            i <= n,
            forall|j: int| 0 <= j < i ==> a@[j] == b@[j],
        decreases n - i,
    {
        if a.get_char(i) != b.get_char(i) {
            return false;
        }
        i += 1;
    }
    assert(a@ =~= b@);
    true
}

/// The characters of a string.
pub fn chars_of(s: &str) -> (r: Vec<char>)
    ensures
        r@ == s@,
{
    let n = s.unicode_len();
    let mut r: Vec<char> = Vec::new();
    let mut i: usize = 0;
    while i < n
        invariant
            n == s@.len(),
            i <= n,
            r@ == s@.take(i as int),
        decreases n - i,
    {
        r.push(s.get_char(i));
        i += 1;
        assert(r@ =~= s@.take(i as int));
    }
    assert(s@.take(n as int) =~= s@);
    r
}

/// Relies on `String`'s `FromIterator<char>`: the string of the given characters.
#[verifier::external_body]
pub(crate) fn string_of(v: &Vec<char>) -> (r: String)
    ensures
        r@ == v@,
{
    v.iter().collect()
}

pub uninterp spec fn lower_of(s: Seq<char>) -> Seq<char>;

/// Relies on `str::to_lowercase`: the result depends on the characters alone.
#[verifier::external_body]
pub(crate) fn lowercase(s: &str) -> (r: String)
    ensures
        r@ == lower_of(s@),
        s@.len() == 0 ==> r@.len() == 0,
{
    s.to_lowercase()
}

pub uninterp spec fn alphanumeric(c: char) -> bool;

/// Relies on `char::is_alphanumeric`.
#[verifier::external_body]
pub(crate) fn is_alphanumeric(c: char) -> (r: bool)
    ensures
        r == alphanumeric(c),
        ('a' <= c <= 'z' || 'A' <= c <= 'Z' || '0' <= c <= '9') ==> r,
        (c == ' ' || c == '_' || c == '-' || c == '!' || c == '.') ==> !r,
{
    c.is_alphanumeric()
}

pub uninterp spec fn alphabetic(c: char) -> bool;

/// Relies on `char::is_alphabetic`.
#[verifier::external_body]
pub(crate) fn is_alphabetic(c: char) -> (r: bool)
    ensures
        r == alphabetic(c),
        ('a' <= c <= 'z' || 'A' <= c <= 'Z') ==> r,
        (c == ' ' || ('0' <= c <= '9') || c == '-' || c == '.') ==> !r,
{
    c.is_alphabetic()
}

pub uninterp spec fn upper_of(c: char) -> char;

/// Relies on `char::to_uppercase`: the first character of the upper case form.
#[verifier::external_body]
pub(crate) fn first_upper(c: char) -> (r: char)
    ensures
        r == upper_of(c),
{
    c.to_uppercase().next().unwrap_or(c)
}

/// Whether a character sequence equals a string's characters.
pub fn chars_are(v: &Vec<char>, s: &str) -> (r: bool)
    ensures
        r == (v@ == s@),
{
    let w = chars_of(s);
    if v.len() != w.len() {
        return false;
    }
    let mut i: usize = 0;
    while i < v.len()
        invariant
            v@.len() == w@.len(),
            w@ == s@,
            i <= v.len(),
            forall|j: int| 0 <= j < i ==> v@[j] == w@[j],
        decreases v.len() - i,
    {
        if v[i] != w[i] {
            return false;
        }
        i += 1;
    }
    assert(v@ =~= w@);
    true
}

/// Whether `s` ends with `suffix`.
pub open spec fn ends_with(s: Seq<char>, suffix: Seq<char>) -> bool {
    s.len() >= suffix.len() && s.skip(s.len() - suffix.len()) == suffix
}

/// Whether `s` starts with `prefix`.
pub open spec fn starts_with(s: Seq<char>, prefix: Seq<char>) -> bool {
    s.len() >= prefix.len() && s.take(prefix.len() as int) == prefix
}

/// Whether `needle` occurs in `s`.
pub open spec fn contains_at(s: Seq<char>, needle: Seq<char>, i: int) -> bool {
    0 <= i && i + needle.len() <= s.len() && s.subrange(i, i + needle.len()) == needle
}

pub open spec fn contains(s: Seq<char>, needle: Seq<char>) -> bool {
    exists|i: int| contains_at(s, needle, i)
}

/// Whether `v[at..]` starts with the characters of `w`.
pub fn matches_at(v: &Vec<char>, w: &Vec<char>, at: usize) -> (r: bool)
    requires
        at <= v@.len(),
    ensures
        r == (at + w@.len() <= v@.len() && v@.subrange(at as int, at + w@.len()) == w@),
{
    if w.len() > v.len() - at {
        return false;
    }
    let n = v.len();
    let mut j: usize = 0;
    while j < w.len()
        invariant
            n == v@.len(),
            at + w@.len() <= v@.len(),
            j <= w@.len(),
            forall|k: int| 0 <= k < j ==> v@[at + k] == w@[k],
        decreases w.len() - j,
    {
        assert(at + j < v@.len());
        if v[at + j] != w[j] {
            assert(v@.subrange(at as int, at + w@.len())[j as int] != w@[j as int]);
            return false;
        }
        j += 1;
    }
    assert(v@.subrange(at as int, at + w@.len()) =~= w@);
    true
}

/// Whether `s` starts with the string `prefix`.
pub fn has_prefix(s: &Vec<char>, prefix: &str) -> (r: bool)
    ensures
        r == starts_with(s@, prefix@),
{
    let w = chars_of(prefix);
    matches_at(s, &w, 0)
}

/// Whether `s` ends with the string `suffix`.
pub fn has_suffix(s: &Vec<char>, suffix: &str) -> (r: bool)
    ensures
        r == ends_with(s@, suffix@),
{
    let w = chars_of(suffix);
    if w.len() > s.len() {
        return false;
    }
    let at = s.len() - w.len();
    let r = matches_at(s, &w, at);
    assert(s@.skip(at as int) =~= s@.subrange(at as int, at + w@.len()));
    r
}

/// Whether the string `needle` occurs in `s`.
pub fn has_part(s: &Vec<char>, needle: &str) -> (r: bool)
    ensures
        r == contains(s@, needle@),
{
    let w = chars_of(needle);
    if w.len() > s.len() {
        assert forall|i: int| !contains_at(s@, needle@, i) by {}
        return false;
    }
    if w.len() == 0 {
        assert(s@.subrange(0, 0) =~= needle@);
        assert(contains_at(s@, needle@, 0));
        return true;
    }
    let mut i: usize = 0;
    while i <= s.len() - w.len()
        invariant
            w@ == needle@,
            w@.len() <= s@.len(),
            w@.len() > 0,
            i <= s@.len() - w@.len() + 1,
            forall|k: int| 0 <= k < i ==> !contains_at(s@, needle@, k),
        decreases s.len() - w.len() + 1 - i,
    {
        if matches_at(s, &w, i) {
            assert(contains_at(s@, needle@, i as int));
            return true;
        }
        i += 1;
    }
    assert forall|k: int| !contains_at(s@, needle@, k) by {
        if 0 <= k && k < i {
        }
    }
    false
}

/// The first `n` characters of `v`.
pub fn prefix_of(v: &Vec<char>, n: usize) -> (r: Vec<char>)
    requires
        n <= v@.len(),
    ensures
        r@ == v@.take(n as int),
{
    let mut r: Vec<char> = Vec::new();
    let mut i: usize = 0;
    while i < n
        invariant
            n <= v@.len(),
            i <= n,
            r@ == v@.take(i as int),
        decreases n - i,
    {
        r.push(v[i]);
        i += 1;
        assert(r@ =~= v@.take(i as int));
    }
    r
}

/// The characters of `v` from position `n` on.
pub fn suffix_from(v: &Vec<char>, n: usize) -> (r: Vec<char>)
    requires
        n <= v@.len(),
    ensures
        r@ == v@.skip(n as int),
{
    let mut r: Vec<char> = Vec::new();
    let mut i: usize = n;
    while i < v.len()
        invariant
            n <= i <= v@.len(),
            r@ == v@.subrange(n as int, i as int),
        decreases v.len() - i,
    {
        r.push(v[i]);
        i += 1;
        assert(r@ =~= v@.subrange(n as int, i as int));
    }
    assert(v@.subrange(n as int, v@.len() as int) =~= v@.skip(n as int));
    r
}

/// `s` with every `from` replaced by `to`.
pub open spec fn swap_char(s: Seq<char>, from: char, to: char) -> Seq<char> {
    s.map_values(|c: char| if c == from { to } else { c })
}

pub fn replace_char(v: &Vec<char>, from: char, to: char) -> (r: Vec<char>)
    ensures
        r@ == swap_char(v@, from, to),
{
    let mut r: Vec<char> = Vec::new();
    let mut i: usize = 0;
    while i < v.len()
        invariant
            i <= v@.len(),
            r@ == swap_char(v@.take(i as int), from, to),
        decreases v.len() - i,
    {
        let c = v[i];
        r.push(if c == from { to } else { c });
        i += 1;
        assert(r@ =~= swap_char(v@.take(i as int), from, to));
    }
    assert(v@.take(v@.len() as int) =~= v@);
    r
}

/// The decimal value of a string of digits.
pub open spec fn digits_value(s: Seq<char>) -> nat
    decreases s.len(),
{
    if s.len() == 0 {
        0
    } else {
        digits_value(s.drop_last()) * 10 + (s.last() as nat - '0' as nat) as nat
    }
}

pub open spec fn all_digits(s: Seq<char>) -> bool {
    forall|i: int| 0 <= i < s.len() ==> '0' <= #[trigger] s[i] <= '9'
}

/// The digits of an unsigned decimal number: an optional `+`, then at least one digit.
pub open spec fn unsigned_digits(s: Seq<char>) -> Seq<char> {
    if s.len() > 0 && s[0] == '+' {
        s.drop_first()
    } else {
        s
    }
}

/// The value of `s` read as an unsigned decimal number no larger than `max`.
pub open spec fn decimal_value(s: Seq<char>, max: nat) -> Option<nat> {
    let d = unsigned_digits(s);
    if d.len() > 0 && all_digits(d) && digits_value(d) <= max {
        Some(digits_value(d))
    } else {
        None
    }
}

/// Reads `s` as an unsigned decimal number no larger than `max`, as `str::parse` does for the
/// unsigned integer types.
pub fn parse_decimal(s: &str, max: u64) -> (r: Option<u64>)
    ensures
        match r {
            Some(n) => decimal_value(s@, max as nat) == Some(n as nat),
            None => decimal_value(s@, max as nat) is None,
        },
{
    let v = chars_of(s);
    let start: usize = if v.len() > 0 && v[0] == '+' { 1 } else { 0 };
    let ghost d = unsigned_digits(s@);
    assert(d =~= v@.skip(start as int));
    if start >= v.len() {
        return None;
    }
    let mut value: u64 = 0;
    let mut over = false;
    let mut i: usize = start;
    while i < v.len()
        invariant
            v@ == s@,
            d == unsigned_digits(s@),
            d == v@.skip(start as int),
            start <= i <= v@.len(),
            all_digits(v@.subrange(start as int, i as int)),
            over ==> digits_value(v@.subrange(start as int, i as int)) > max,
            !over ==> value == digits_value(v@.subrange(start as int, i as int)),
            !over ==> value <= max,
        decreases v.len() - i,
    {
        let c = v[i];
        if !('0' <= c && c <= '9') {
            assert(d[i - start] == c);
            assert(!all_digits(d));
            return None;
        }
        let ghost prev = v@.subrange(start as int, i as int);
        let ghost next = v@.subrange(start as int, i + 1);
        assert(next.drop_last() =~= prev);
        assert(all_digits(next)) by {
            assert forall|k: int| 0 <= k < next.len() implies '0' <= #[trigger] next[k] <= '9' by {
                if k < prev.len() {
                    assert(next[k] == prev[k]);
                }
            }
        }
        let digit = (c as u32 - '0' as u32) as u64;
        assert(digits_value(next) == digits_value(prev) * 10 + digit);
        if !over {
            let nv: u128 = value as u128 * 10 + digit as u128;
            if nv > max as u128 {
                over = true;
            } else {
                value = nv as u64;
            }
        } else {
            assert(digits_value(next) >= digits_value(prev)) by (nonlinear_arith)
                requires
                    digits_value(next) == digits_value(prev) * 10 + digit,
            {}
        }
        i += 1;
    }
    assert(v@.subrange(start as int, v@.len() as int) =~= d);
    assert(d.len() > 0);
    assert(all_digits(d));
    if over {
        assert(digits_value(d) > max);
        None
    } else {
        Some(value)
    }
}

pub open spec fn digit_char(d: nat) -> char {
    if d == 0 { '0' } else if d == 1 { '1' } else if d == 2 { '2' } else if d == 3 { '3' }
    else if d == 4 { '4' } else if d == 5 { '5' } else if d == 6 { '6' } else if d == 7 { '7' }
    else if d == 8 { '8' } else { '9' }
}

/// The decimal digits of `n`.
pub open spec fn nat_text(n: nat) -> Seq<char>
    decreases n,
{
    if n < 10 {
        seq![digit_char(n)]
    } else {
        nat_text(n / 10).push(digit_char(n % 10))
    }
}

/// `n` written in decimal, with a minus sign when negative.
pub open spec fn int_text(n: int) -> Seq<char> {
    if n < 0 {
        seq!['-'] + nat_text((-n) as nat)
    } else {
        nat_text(n as nat)
    }
}

fn digit_of(d: u128) -> (r: char)
    requires
        d < 10,
    ensures
        r == digit_char(d as nat),
{
    if d == 0 { '0' } else if d == 1 { '1' } else if d == 2 { '2' } else if d == 3 { '3' }
    else if d == 4 { '4' } else if d == 5 { '5' } else if d == 6 { '6' } else if d == 7 { '7' }
    else if d == 8 { '8' } else { '9' }
}

fn nat_digits(n: u128) -> (r: Vec<char>)
    ensures
        r@ == nat_text(n as nat),
    decreases n,
{
    if n < 10 {
        let mut r: Vec<char> = Vec::new();
        r.push(digit_of(n));
        assert(r@ =~= seq![digit_char(n as nat)]);
        r
    } else {
        let mut r = nat_digits(n / 10);
        r.push(digit_of(n % 10));
        r
    }
}

/// `n` written in decimal.
pub fn decimal_text(n: i128) -> (r: String)
    ensures
        r@ == int_text(n as int),
{
    if n < 0 {
        let m: u128 = ((-(n + 1)) as u128) + 1;
        let mut v: Vec<char> = Vec::new();
        v.push('-');
        let d = nat_digits(m);
        let mut i: usize = 0;
        while i < d.len()
            invariant
                i <= d@.len(),
                v@ == seq!['-'] + d@.take(i as int),
            decreases d.len() - i,
        {
            v.push(d[i]);
            i += 1;
            assert(v@ =~= seq!['-'] + d@.take(i as int));
        }
        assert(d@.take(d@.len() as int) =~= d@);
        string_of(&v)
    } else {
        string_of(&nat_digits(n as u128))
    }
}

/// The pieces of `s` between single `sep` characters, empty pieces included.
pub open spec fn pieces(s: Seq<char>, sep: char) -> Seq<Seq<char>>
    decreases s.len(),
{
    if s.len() == 0 {
        seq![Seq::empty()]
    } else {
        let p = pieces(s.drop_last(), sep);
        if s.last() == sep {
            p.push(Seq::empty())
        } else {
            p.update(p.len() - 1, p.last().push(s.last()))
        }
    }
}

pub open spec fn space_pieces(s: Seq<char>) -> Seq<Seq<char>> {
    pieces(s, ' ')
}

proof fn lemma_pieces_nonempty(s: Seq<char>, sep: char)
    ensures
        pieces(s, sep).len() > 0,
    decreases s.len(),
{
    if s.len() > 0 {
        lemma_pieces_nonempty(s.drop_last(), sep);
    }
}

/// Splits `v` at each `sep`, as `str::split` does with a character.
pub fn split_on(v: &Vec<char>, sep: char) -> (r: Vec<Vec<char>>)
    ensures
        r@.map_values(|x: Vec<char>| x@) == pieces(v@, sep),
{
    let mut done: Vec<Vec<char>> = Vec::new();
    let mut cur: Vec<char> = Vec::new();
    let mut i: usize = 0;
    while i < v.len()
        invariant
            i <= v@.len(),
            done@.map_values(|x: Vec<char>| x@).push(cur@) == pieces(v@.take(i as int), sep),
        decreases v.len() - i,
    {
        let c = v[i];
        let ghost t = v@.take(i + 1);
        assert(t.drop_last() =~= v@.take(i as int));
        proof { lemma_pieces_nonempty(v@.take(i as int), sep); }
        let ghost before = done@.map_values(|x: Vec<char>| x@);
        if c == sep {
            let ghost piece = cur@;
            done.push(cur);
            assert(done@.map_values(|x: Vec<char>| x@) =~= before.push(piece));
            cur = Vec::new();
            assert(done@.map_values(|x: Vec<char>| x@).push(cur@) =~= before.push(piece).push(
                Seq::<char>::empty(),
            ));
        } else {
            let ghost old_cur = cur@;
            cur.push(c);
            assert(before.push(cur@) =~= before.push(old_cur).update(
                before.len() as int,
                old_cur.push(c),
            ));
        }
        i += 1;
    }
    assert(v@.take(v@.len() as int) =~= v@);
    let ghost before = done@.map_values(|x: Vec<char>| x@);
    let ghost piece = cur@;
    done.push(cur);
    assert(done@.map_values(|x: Vec<char>| x@) =~= before.push(piece));
    done
}

/// Splits `s` at each space, as `str::split(' ')` does.
pub fn split_spaces(s: &str) -> (r: Vec<String>)
    ensures
        r@.map_values(|x: String| x@) == space_pieces(s@),
{
    let ps = split_on(&chars_of(s), ' ');
    let mut r: Vec<String> = Vec::new();
    let mut i: usize = 0;
    while i < ps.len()
        invariant
            i <= ps@.len(),
            r@.map_values(|x: String| x@) == ps@.map_values(|x: Vec<char>| x@).take(i as int),
        decreases ps.len() - i,
    {
        let t = string_of(&ps[i]);
        let ghost before = r@.map_values(|x: String| x@);
        r.push(t);
        assert(r@.map_values(|x: String| x@) =~= before.push(t@));
        assert(ps@.map_values(|x: Vec<char>| x@).take(i + 1) =~= ps@.map_values(|x: Vec<char>| x@).take(i as int).push(ps@[i as int]@));
        i += 1;
    }
    assert(ps@.map_values(|x: Vec<char>| x@).take(ps@.len() as int) =~= ps@.map_values(
        |x: Vec<char>| x@,
    ));
    r
}

/// The non-empty entries of `ps`, in order.
pub open spec fn nonempty(ps: Seq<Seq<char>>) -> Seq<Seq<char>>
    decreases ps.len(),
{
    if ps.len() == 0 {
        ps
    } else {
        let r = nonempty(ps.drop_last());
        if ps.last().len() > 0 {
            r.push(ps.last())
        } else {
            r
        }
    }
}

/// The entries of `ps` with `sep` between each two.
pub open spec fn join_with(ps: Seq<Seq<char>>, sep: Seq<char>) -> Seq<char>
    decreases ps.len(),
{
    if ps.len() == 0 {
        Seq::empty()
    } else if ps.len() == 1 {
        ps[0]
    } else {
        join_with(ps.drop_last(), sep) + sep + ps.last()
    }
}

/// A tag with every character that is no letter or digit turned into an
/// underscore, runs of them collapsed and none left at either end.
pub open spec fn tag_word(t: Seq<char>) -> Seq<char> {
    let marked = t.map_values(|c: char| if alphanumeric(c) { c } else { '_' });
    join_with(nonempty(pieces(marked, '_')), seq!['_'])
}

pub open spec fn tag_prefix(escape: bool) -> Seq<char> {
    if escape {
        seq!['\\', '#']
    } else {
        seq!['#']
    }
}

/// A list of tags as hashtags: each lower-cased, reduced to a word and
/// marked, joined with commas.
pub open spec fn tagified(tags: Seq<Seq<char>>, escape: bool) -> Seq<char> {
    join_with(
        tags.map_values(|t: Seq<char>| tag_prefix(escape) + tag_word(lower_of(t))),
        seq![',', ' '],
    )
}

fn push_all(out: &mut Vec<char>, w: &Vec<char>)
    ensures
        final(out)@ == old(out)@ + w@,
{
    let mut i: usize = 0;
    let ghost o = out@;
    while i < w.len()
        invariant
            i <= w@.len(),
            out@ == o + w@.take(i as int),
        decreases w.len() - i,
    {
        out.push(w[i]);
        i += 1;
        assert(out@ =~= o + w@.take(i as int));
    }
    assert(w@.take(w@.len() as int) =~= w@);
}

fn word_of(lowered: &str) -> (r: Vec<char>)
    ensures
        r@ == tag_word(lowered@),
{
    let lower = chars_of(lowered);
    let mut marked: Vec<char> = Vec::new();
    let mut i: usize = 0;
    while i < lower.len()
        invariant
            i <= lower@.len(),
            marked@ == lower@.take(i as int).map_values(|c: char| if alphanumeric(c) { c } else { '_' }),
        decreases lower.len() - i,
    {
        let c = lower[i];
        marked.push(if is_alphanumeric(c) { c } else { '_' });
        i += 1;
        assert(marked@ =~= lower@.take(i as int).map_values(|c: char| if alphanumeric(c) { c } else { '_' }));
    }
    assert(lower@.take(lower@.len() as int) =~= lower@);
    let ps = split_on(&marked, '_');
    let ghost pv = ps@.map_values(|x: Vec<char>| x@);
    let mut out: Vec<char> = Vec::new();
    let mut count: usize = 0;
    let mut j: usize = 0;
    while j < ps.len()
        invariant
            j <= ps@.len(),
            pv == ps@.map_values(|x: Vec<char>| x@),
            count == nonempty(pv.take(j as int)).len(),
            count <= j,
            out@ == join_with(nonempty(pv.take(j as int)), seq!['_']),
        decreases ps.len() - j,
    {
        assert(pv.take(j + 1).drop_last() =~= pv.take(j as int));
        assert(pv.take(j + 1).last() == ps@[j as int]@);
        let ghost x = nonempty(pv.take(j as int));
        if ps[j].len() > 0 {
            assert(x.push(ps@[j as int]@).drop_last() =~= x);
            if count > 0 {
                out.push('_');
            }
            let ghost before = out@;
            push_all(&mut out, &ps[j]);
            if count == 0 {
                assert(out@ =~= ps@[j as int]@);
            }
            count = count + 1;
        }
        j += 1;
    }
    assert(pv.take(ps@.len() as int) =~= pv);
    out
}

/// Renders tags as hashtags (`Test_!_Tag` becomes `#test_tag`), joined with
/// commas; `escape` puts a backslash before each mark.
pub fn tagify(tags: &Vec<String>, escape: bool) -> (r: String)
    ensures
        r@ == tagified(tags@.map_values(|t: String| t@), escape),
{
    let ghost tv = tags@.map_values(|t: String| t@);
    let ghost items = tv.map_values(|t: Seq<char>| tag_prefix(escape) + tag_word(lower_of(t)));
    let mut out: Vec<char> = Vec::new();
    let mut i: usize = 0;
    while i < tags.len()
        invariant
            i <= tags@.len(),
            tv == tags@.map_values(|t: String| t@),
            items == tv.map_values(|t: Seq<char>| tag_prefix(escape) + tag_word(lower_of(t))),
            out@ == join_with(items.take(i as int), seq![',', ' ']),
        decreases tags.len() - i,
    {
        assert(items.take(i + 1).drop_last() =~= items.take(i as int));
        if i > 0 {
            out.push(',');
            out.push(' ');
        }
        if escape {
            out.push('\\');
        }
        out.push('#');
        let lowered = lowercase(tags[i].as_str());
        let w = word_of(lowered.as_str());
        push_all(&mut out, &w);
        i += 1;
        proof {
            if i == 1 {
                assert(items.take(1).len() == 1);
            }
        }
        assert(out@ =~= join_with(items.take(i as int), seq![',', ' ']));
    }
    assert(items.take(tags@.len() as int) =~= items);
    string_of(&out)
}

/// A number given in thousandths, written in decimal with three places.
pub open spec fn thousandths_text(t: int) -> Seq<char> {
    let m = if t < 0 { -t } else { t };
    let sign = if t < 0 { seq!['-'] } else { Seq::<char>::empty() };
    sign + nat_text((m / 1000) as nat) + seq![
        '.',
        digit_char(((m % 1000) / 100) as nat),
        digit_char(((m % 100) / 10) as nat),
        digit_char((m % 10) as nat),
    ]
}

/// Writes a number given in thousandths in decimal with three places.
pub fn thousandths_text_of(t: i128) -> (r: String)
    ensures
        r@ == thousandths_text(t as int),
{
    let m: u128 = if t < 0 { ((-(t + 1)) as u128) + 1 } else { t as u128 };
    let mut v: Vec<char> = Vec::new();
    if t < 0 {
        v.push('-');
    }
    let ghost sign = v@;
    let whole = nat_digits(m / 1000);
    push_all(&mut v, &whole);
    v.push('.');
    v.push(digit_of((m % 1000) / 100));
    v.push(digit_of((m % 100) / 10));
    v.push(digit_of(m % 10));
    assert(v@ =~= thousandths_text(t as int));
    string_of(&v)
}

/// Whether `w` is one of the space-separated pieces of `s`.
pub fn has_word(s: &str, w: &str) -> (r: bool)
    ensures
        r == space_pieces(s@).contains(w@),
{
    let pieces = split_spaces(s);
    let ghost pv = pieces@.map_values(|x: String| x@);
    let mut i: usize = 0;
    while i < pieces.len()
        invariant
            i <= pieces@.len(),
            pv == pieces@.map_values(|x: String| x@),
            pv == space_pieces(s@),
            forall|j: int| 0 <= j < i ==> pv[j] != w@,
        decreases pieces.len() - i,
    {
        if str_eq(pieces[i].as_str(), w) {
            assert(pv[i as int] == w@);
            return true;
        }
        i += 1;
    }
    false
}

/// One hashtag from a tag that is already lower-cased: the mark (with a
/// backslash before it when `escape`), then the tag reduced to a word.
pub fn hashtag(lowered: &str, escape: bool) -> (r: String)
    ensures
        r@ == tag_prefix(escape) + tag_word(lowered@),
{
    let mut out: Vec<char> = Vec::new();
    if escape {
        out.push('\\');
    }
    out.push('#');
    assert(out@ =~= tag_prefix(escape));
    let w = word_of(lowered);
    push_all(&mut out, &w);
    string_of(&out)
}

} // verus!

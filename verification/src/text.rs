//! Character-level text handling that the policy form and the labels rest on:
//! Unicode whitespace trimming, separator splitting, decimal parsing and
//! printing of `u64`, and line joining.

use vstd::prelude::*;

verus! {

/// Appends one character to a string (`String::push`).
#[verifier::external_body]
pub(crate) fn push_char(s: &mut String, c: char)
    ensures
        final(s)@ == old(s)@.push(c),
{
    s.push(c);
}

/// The characters of `s`, in order.
pub fn chars_of(s: &str) -> (v: Vec<char>)
    ensures
        v@ == s@,
{
    let mut v: Vec<char> = Vec::new();
    for c in it: s.chars()
        invariant
            v@ == it.seq().take(it.index() as int),
    {
        v.push(c);
    }
    v
}

/// The string made of `v[lo..hi]`.
pub fn string_of(v: &Vec<char>, lo: usize, hi: usize) -> (s: String)
    requires
        lo <= hi <= v.len(),
    ensures
        s@ == v@.subrange(lo as int, hi as int),
{
    let mut s = String::new();
    let mut i = lo;
    while i < hi
        invariant
            lo <= i <= hi <= v.len(),
            s@ == v@.subrange(lo as int, i as int),
        decreases hi - i,
    {
        push_char(&mut s, v[i]);
        assert(v@.subrange(lo as int, i + 1) =~= v@.subrange(lo as int, i as int).push(v@[i as int]));
        i = i + 1;
    }
    s
}

/// Unicode `White_Space`: the characters that `char::is_whitespace` accepts
/// and that `str::trim` removes.
pub open spec fn is_white_space(c: char) -> bool {
    let u = c as u32;
    ||| 9 <= u <= 13
    ||| u == 32
    ||| u == 0x85
    ||| u == 0xA0
    ||| u == 0x1680
    ||| 0x2000 <= u <= 0x200A
    ||| u == 0x2028
    ||| u == 0x2029
    ||| u == 0x202F
    ||| u == 0x205F
    ||| u == 0x3000
}

pub fn is_white_space_char(c: char) -> (b: bool)
    ensures
        b == is_white_space(c),
{
    let u = c as u32;
    (9 <= u && u <= 13) || u == 32 || u == 0x85 || u == 0xA0 || u == 0x1680 || (0x2000 <= u
        && u <= 0x200A) || u == 0x2028 || u == 0x2029 || u == 0x202F || u == 0x205F || u
        == 0x3000
}

/// `s` without its leading whitespace.
pub open spec fn trim_start(s: Seq<char>) -> Seq<char>
    decreases s.len(),
{
    if s.len() > 0 && is_white_space(s[0]) {
        trim_start(s.drop_first())
    } else {
        s
    }
}

/// `s` without its trailing whitespace.
pub open spec fn trim_end(s: Seq<char>) -> Seq<char>
    decreases s.len(),
{
    if s.len() > 0 && is_white_space(s.last()) {
        trim_end(s.drop_last())
    } else {
        s
    }
}

/// `s` without leading and trailing whitespace, as `str::trim` gives it.
pub open spec fn trim(s: Seq<char>) -> Seq<char> {
    trim_end(trim_start(s))
}

/// The bounds of the trimmed part of `v[lo..hi]`.
pub fn trim_bounds(v: &Vec<char>, lo: usize, hi: usize) -> (r: (usize, usize))
    requires
        lo <= hi <= v.len(),
    ensures
        lo <= r.0 <= r.1 <= hi,
        v@.subrange(r.0 as int, r.1 as int) == trim(v@.subrange(lo as int, hi as int)),
{
    let ghost s = v@.subrange(lo as int, hi as int);
    let mut i = lo;
    while i < hi && is_white_space_char(v[i])
        invariant
            lo <= i <= hi <= v.len(),
            s == v@.subrange(lo as int, hi as int),
            trim_start(s) == trim_start(v@.subrange(i as int, hi as int)),
        decreases hi - i,
    {
        assert(v@.subrange(i as int, hi as int).drop_first() =~= v@.subrange(i + 1, hi as int));
        i = i + 1;
    }
    assert(trim_start(v@.subrange(i as int, hi as int)) == v@.subrange(i as int, hi as int));
    let mut j = hi;
    while j > i && is_white_space_char(v[j - 1])
        invariant
            lo <= i <= j <= hi <= v.len(),
            trim(s) == trim_end(v@.subrange(i as int, j as int)),
        decreases j - i,
    {
        assert(v@.subrange(i as int, j as int).drop_last() =~= v@.subrange(i as int, j - 1));
        j = j - 1;
    }
    (i, j)
}

/// An ASCII decimal digit.
pub open spec fn is_digit(c: char) -> bool {
    48 <= (c as u32) <= 57
}

pub open spec fn digit_value(c: char) -> nat {
    ((c as u32) - 48) as nat
}

pub open spec fn all_digits(s: Seq<char>) -> bool {
    forall|i: int| 0 <= i < s.len() ==> is_digit(#[trigger] s[i])
}

/// The number that the digits `s` write in base ten.
pub open spec fn decimal_value(s: Seq<char>) -> nat
    decreases s.len(),
{
    if s.len() == 0 {
        0
    } else {
        decimal_value(s.drop_last()) * 10 + digit_value(s.last())
    }
}

/// The digits of an unsigned number: the text without one leading `+`.
pub open spec fn unsigned_digits(s: Seq<char>) -> Seq<char> {
    if s.len() > 0 && s[0] == '+' {
        s.drop_first()
    } else {
        s
    }
}

/// What `str::parse::<u64>` gives for `s`: an optional `+` followed by at
/// least one ASCII digit, whose value fits in a `u64`.
pub open spec fn parse_u64(s: Seq<char>) -> Option<u64> {
    let d = unsigned_digits(s);
    if d.len() > 0 && all_digits(d) && decimal_value(d) <= u64::MAX {
        Some(decimal_value(d) as u64)
    } else {
        None
    }
}

/// A prefix never writes a larger number than the whole.
pub proof fn lemma_decimal_value_prefix(s: Seq<char>, k: int)
    requires
        0 <= k <= s.len(),
    ensures
        decimal_value(s.take(k)) <= decimal_value(s),
    decreases s.len(),
{
    if k < s.len() {
        assert(s.drop_last().take(k) =~= s.take(k));
        lemma_decimal_value_prefix(s.drop_last(), k);
    } else {
        assert(s.take(k) =~= s);
    }
}

fn digit_of(c: char) -> (d: Option<u64>)
    ensures
        d is Some <==> is_digit(c),
        d is Some ==> d->0 == digit_value(c),
{
    let u = c as u32;
    if 48 <= u && u <= 57 {
        Some((u - 48) as u64)
    } else {
        None
    }
}

/// Parses `v[lo..hi]` as `str::parse::<u64>` does.
pub fn parse_u64_in(v: &Vec<char>, lo: usize, hi: usize) -> (r: Option<u64>)
    requires
        lo <= hi <= v.len(),
    ensures
        r == parse_u64(v@.subrange(lo as int, hi as int)),
{
    let ghost s = v@.subrange(lo as int, hi as int);
    let mut start = lo;
    if lo < hi && v[lo] == '+' {
        start = lo + 1;
    }
    let ghost d = v@.subrange(start as int, hi as int);
    assert(d =~= unsigned_digits(s));
    if start == hi {
        return None;
    }
    let mut acc: u64 = 0;
    let mut i = start;
    while i < hi
        invariant
            lo <= start <= i <= hi <= v.len(),
            d == v@.subrange(start as int, hi as int),
            d == unsigned_digits(v@.subrange(lo as int, hi as int)),
            all_digits(d.take(i - start)),
            acc == decimal_value(d.take(i - start)),
        decreases hi - i,
    {
        let digit = digit_of(v[i]);
        if digit.is_none() {
            assert(d[i - start] == v@[i as int]);
            assert(!is_digit(d[i - start]));
            return None;
        }
        let ghost k = i - start;
        assert(d.take(k + 1).drop_last() =~= d.take(k));
        assert(d.take(k + 1).last() == v@[i as int]);
        let next = acc.checked_mul(10);
        if next.is_none() {
            proof {
                lemma_decimal_value_prefix(d, k + 1);
            }
            return None;
        }
        let next = next.unwrap().checked_add(digit.unwrap());
        if next.is_none() {
            proof {
                lemma_decimal_value_prefix(d, k + 1);
            }
            return None;
        }
        acc = next.unwrap();
        i = i + 1;
        assert forall|j: int| 0 <= j < d.take(i - start).len() implies is_digit(
            #[trigger] d.take(i - start)[j],
        ) by {
            if j < k {
                assert(d.take(i - start)[j] == d.take(k)[j]);
            }
        }
    }
    assert(d.take(hi - start) =~= d);
    Some(acc)
}

/// The ASCII digit for `d < 10`.
pub open spec fn digit_char(d: nat) -> char {
    if d == 0 {
        '0'
    } else if d == 1 {
        '1'
    } else if d == 2 {
        '2'
    } else if d == 3 {
        '3'
    } else if d == 4 {
        '4'
    } else if d == 5 {
        '5'
    } else if d == 6 {
        '6'
    } else if d == 7 {
        '7'
    } else if d == 8 {
        '8'
    } else {
        '9'
    }
}

/// The decimal text of `n` as `u64`'s `Display` writes it: no sign, no
/// leading zero.
pub open spec fn decimal_text(n: nat) -> Seq<char>
    decreases n,
{
    if n < 10 {
        seq![digit_char(n)]
    } else {
        decimal_text(n / 10).push(digit_char(n % 10))
    }
}

fn digit_char_exec(d: u64) -> (c: char)
    requires
        d < 10,
    ensures
        c == digit_char(d as nat),
{
    if d == 0 {
        '0'
    } else if d == 1 {
        '1'
    } else if d == 2 {
        '2'
    } else if d == 3 {
        '3'
    } else if d == 4 {
        '4'
    } else if d == 5 {
        '5'
    } else if d == 6 {
        '6'
    } else if d == 7 {
        '7'
    } else if d == 8 {
        '8'
    } else {
        '9'
    }
}

fn push_decimal(n: u64, out: &mut String)
    ensures
        final(out)@ == old(out)@ + decimal_text(n as nat),
    decreases n,
{
    if n < 10 {
        push_char(out, digit_char_exec(n));
        assert(old(out)@.push(digit_char(n as nat)) =~= old(out)@ + decimal_text(n as nat));
    } else {
        push_decimal(n / 10, out);
        push_char(out, digit_char_exec(n % 10));
        assert(old(out)@ + decimal_text((n / 10) as nat) + seq![digit_char((n % 10) as nat)]
            =~= old(out)@ + decimal_text(n as nat));
    }
}

/// The decimal text of `n`.
pub fn decimal_string(n: u64) -> (s: String)
    ensures
        s@ == decimal_text(n as nat),
{
    let mut s = String::new();
    push_decimal(n, &mut s);
    assert(Seq::<char>::empty() + decimal_text(n as nat) =~= decimal_text(n as nat));
    s
}

proof fn lemma_digit_char(d: nat)
    requires
        d < 10,
    ensures
        is_digit(digit_char(d)),
        digit_value(digit_char(d)) == d,
{
}

/// Reading back the decimal text of a number gives the number.
pub proof fn lemma_decimal_text_value(n: nat)
    ensures
        decimal_text(n).len() > 0,
        all_digits(decimal_text(n)),
        decimal_value(decimal_text(n)) == n,
    decreases n,
{
    if n >= 10 {
        lemma_decimal_text_value(n / 10);
        lemma_digit_char(n % 10);
        let t = decimal_text(n);
        assert(t.drop_last() =~= decimal_text(n / 10));
        assert(t.last() == digit_char(n % 10));
        assert(decimal_value(t) == decimal_value(t.drop_last()) * 10 + digit_value(t.last()));
        assert(n == (n / 10) * 10 + n % 10);
        assert forall|i: int| 0 <= i < t.len() implies is_digit(#[trigger] t[i]) by {
            if i < t.len() - 1 {
                assert(t[i] == decimal_text(n / 10)[i]);
            }
        }
    } else {
        lemma_digit_char(n);
        let t = decimal_text(n);
        assert(t.drop_last() =~= Seq::<char>::empty());
        assert(decimal_value(t.drop_last()) == 0);
        assert(decimal_value(t) == decimal_value(t.drop_last()) * 10 + digit_value(t.last()));
    }
}

/// Law: parsing the printed form of a `u64` gives it back.
pub proof fn lemma_parse_decimal_roundtrip(n: u64)
    ensures
        parse_u64(decimal_text(n as nat)) == Some(n),
{
    lemma_decimal_text_value(n as nat);
    let t = decimal_text(n as nat);
    assert(is_digit(t[0]));
    assert(unsigned_digits(t) == t);
}

/// The characters that separate operation names in the policy form.
pub open spec fn is_name_separator(c: char) -> bool {
    c == '\n' || c == ',' || c == '\r'
}

pub open spec fn has_no_separator(s: Seq<char>) -> bool {
    forall|i: int| 0 <= i < s.len() ==> !is_name_separator(#[trigger] s[i])
}

/// The pieces of `s` between separators, as `str::split` yields them: empty
/// pieces included, one more piece than there are separators.
pub open spec fn split_pieces(s: Seq<char>) -> Seq<Seq<char>>
    decreases s.len(),
{
    if s.len() == 0 {
        seq![Seq::<char>::empty()]
    } else {
        let rest = split_pieces(s.drop_last());
        if is_name_separator(s.last()) {
            rest.push(Seq::<char>::empty())
        } else {
            rest.update(rest.len() - 1, rest.last().push(s.last()))
        }
    }
}

/// The trimmed pieces that are not empty once trimmed, in order.
pub open spec fn kept_names(pieces: Seq<Seq<char>>) -> Seq<Seq<char>>
    decreases pieces.len(),
{
    if pieces.len() == 0 {
        Seq::empty()
    } else {
        let rest = kept_names(pieces.drop_last());
        if trim(pieces.last()).len() > 0 {
            rest.push(trim(pieces.last()))
        } else {
            rest
        }
    }
}

/// The operation names that a form's text lists.
pub open spec fn operation_names_of(s: Seq<char>) -> Seq<Seq<char>> {
    kept_names(split_pieces(s))
}

/// The texts of a sequence of strings.
pub open spec fn strings_view(v: Seq<String>) -> Seq<Seq<char>> {
    v.map_values(|s: String| s@)
}

pub proof fn lemma_split_pieces_len(s: Seq<char>)
    ensures
        split_pieces(s).len() >= 1,
    decreases s.len(),
{
    if s.len() > 0 {
        lemma_split_pieces_len(s.drop_last());
    }
}

/// The non-empty trimmed pieces of `v` between separators.
pub fn operation_names_in(v: &Vec<char>) -> (names: Vec<String>)
    ensures
        strings_view(names@) == operation_names_of(v@),
{
    let mut names: Vec<String> = Vec::new();
    let mut piece_lo: usize = 0;
    let mut i: usize = 0;
    proof {
        assert(v@.take(0) =~= Seq::<char>::empty());
        assert(strings_view(names@) =~= Seq::<Seq<char>>::empty());
    }
    while i < v.len()
        invariant
            piece_lo <= i <= v.len(),
            split_pieces(v@.take(i as int)).len() >= 1,
            split_pieces(v@.take(i as int)).last() == v@.subrange(piece_lo as int, i as int),
            strings_view(names@) == kept_names(split_pieces(v@.take(i as int)).drop_last()),
        decreases v.len() - i,
    {
        let ghost p = split_pieces(v@.take(i as int));
        let ghost q = split_pieces(v@.take(i + 1));
        assert(v@.take(i + 1).drop_last() =~= v@.take(i as int));
        assert(v@.take(i + 1).last() == v@[i as int]);
        let c = v[i];
        if c == '\n' || c == ',' || c == '\r' {
            assert(q == p.push(Seq::<char>::empty()));
            assert(q.drop_last() =~= p);
            assert(p.drop_last().push(p.last()) =~= p);
            let (a, b) = trim_bounds(v, piece_lo, i);
            if a < b {
                let name = string_of(v, a, b);
                let ghost before = names@;
                names.push(name);
                assert(strings_view(names@) =~= strings_view(before).push(name@));
            }
            piece_lo = i + 1;
            assert(v@.subrange(piece_lo as int, i + 1) =~= Seq::<char>::empty());
        } else {
            assert(q == p.update(p.len() - 1, p.last().push(c)));
            assert(q.drop_last() =~= p.drop_last());
            assert(v@.subrange(piece_lo as int, i + 1) =~= v@.subrange(
                piece_lo as int,
                i as int,
            ).push(c));
        }
        i = i + 1;
    }
    assert(v@.take(v.len() as int) =~= v@);
    let ghost p = split_pieces(v@);
    assert(p.drop_last().push(p.last()) =~= p);
    let (a, b) = trim_bounds(v, piece_lo, v.len());
    if a < b {
        let name = string_of(v, a, b);
        let ghost before = names@;
        names.push(name);
        assert(strings_view(names@) =~= strings_view(before).push(name@));
    }
    names
}

/// The names, one per line.
pub open spec fn join_lines(names: Seq<Seq<char>>) -> Seq<char>
    decreases names.len(),
{
    if names.len() == 0 {
        Seq::empty()
    } else if names.len() == 1 {
        names[0]
    } else {
        join_lines(names.drop_last()) + seq!['\n'] + names.last()
    }
}

/// Appends the characters of `t` to `s`.
pub fn push_str(s: &mut String, t: &str)
    ensures
        final(s)@ == old(s)@ + t@,
{
    let v = chars_of(t);
    let mut i: usize = 0;
    while i < v.len()
        invariant
            i <= v.len(),
            v@ == t@,
            s@ == old(s)@ + v@.take(i as int),
        decreases v.len() - i,
    {
        push_char(s, v[i]);
        assert(v@.take(i + 1) =~= v@.take(i as int).push(v@[i as int]));
        assert(old(s)@ + v@.take(i + 1) =~= old(s)@ + v@.take(i as int) + seq![v@[i as int]]);
        i = i + 1;
    }
    assert(v@.take(v.len() as int) =~= v@);
}

/// The strings of `names` joined by line breaks.
pub fn join_lines_of(names: &Vec<String>) -> (s: String)
    ensures
        s@ == join_lines(strings_view(names@)),
{
    let mut s = String::new();
    let mut i: usize = 0;
    while i < names.len()
        invariant
            i <= names.len(),
            s@ == join_lines(strings_view(names@).take(i as int)),
        decreases names.len() - i,
    {
        let ghost w = strings_view(names@);
        assert(w.take(i + 1).drop_last() =~= w.take(i as int));
        assert(w.take(i + 1).last() == names@[i as int]@);
        if i > 0 {
            push_char(&mut s, '\n');
        } else {
            assert(w.take(1)[0] == names@[0]@);
        }
        push_str(&mut s, names[i].as_str());
        proof {
            if i > 0 {
                assert(s@ =~= join_lines(w.take(i as int)) + seq!['\n'] + names@[i as int]@);
            } else {
                assert(s@ =~= names@[0]@);
            }
        }
        i = i + 1;
    }
    assert(strings_view(names@).take(names.len() as int) =~= strings_view(names@));
    s
}

proof fn lemma_split_without_separator(t: Seq<char>)
    requires
        has_no_separator(t),
    ensures
        split_pieces(t) == seq![t],
    decreases t.len(),
{
    if t.len() > 0 {
        assert(has_no_separator(t.drop_last()));
        lemma_split_without_separator(t.drop_last());
        assert(t.drop_last().push(t.last()) =~= t);
        assert(seq![t.drop_last()].update(0, t.drop_last().push(t.last())) =~= seq![t]);
    } else {
        assert(t =~= Seq::<char>::empty());
    }
}

proof fn lemma_split_extend(s: Seq<char>, t: Seq<char>)
    requires
        has_no_separator(t),
    ensures
        split_pieces(s + t) == split_pieces(s).update(
            split_pieces(s).len() - 1,
            split_pieces(s).last() + t,
        ),
    decreases t.len(),
{
    lemma_split_pieces_len(s);
    let p = split_pieces(s);
    if t.len() == 0 {
        assert(s + t =~= s);
        assert(p.last() + t =~= p.last());
        assert(p.update(p.len() - 1, p.last()) =~= p);
    } else {
        assert(has_no_separator(t.drop_last()));
        lemma_split_extend(s, t.drop_last());
        assert((s + t).drop_last() =~= s + t.drop_last());
        assert((s + t).last() == t.last());
        let q = p.update(p.len() - 1, p.last() + t.drop_last());
        assert(q.last() == p.last() + t.drop_last());
        assert((p.last() + t.drop_last()).push(t.last()) =~= p.last() + t);
        assert(q.update(q.len() - 1, q.last().push(t.last())) =~= p.update(
            p.len() - 1,
            p.last() + t,
        ));
    }
}

/// A name written as it should be: not empty, no surrounding whitespace,
/// no separator inside.
pub open spec fn is_clean_name(name: Seq<char>) -> bool {
    &&& name.len() > 0
    &&& trim(name) == name
    &&& has_no_separator(name)
}

/// Law: splitting the names joined by line breaks gives them back, when each
/// is a clean name.
pub proof fn lemma_names_roundtrip(names: Seq<Seq<char>>)
    requires
        names.len() >= 1,
        forall|i: int| 0 <= i < names.len() ==> is_clean_name(#[trigger] names[i]),
    ensures
        operation_names_of(join_lines(names)) == names,
    decreases names.len(),
{
    if names.len() == 1 {
        let t = names[0];
        assert(is_clean_name(names[0]));
        lemma_split_without_separator(t);
        assert(seq![t].drop_last() =~= Seq::<Seq<char>>::empty());
        assert(seq![t].last() == t);
        assert(kept_names(Seq::<Seq<char>>::empty()) == Seq::<Seq<char>>::empty());
        assert(kept_names(seq![t]) == Seq::<Seq<char>>::empty().push(t));
        assert(kept_names(seq![t]) =~= seq![t]);
        assert(names =~= seq![t]);
    } else {
        let init = names.drop_last();
        let last = names.last();
        assert(is_clean_name(names[names.len() - 1]));
        assert forall|i: int| 0 <= i < init.len() implies is_clean_name(#[trigger] init[i]) by {
            assert(init[i] == names[i]);
        }
        lemma_names_roundtrip(init);
        let j = join_lines(init);
        lemma_split_pieces_len(j);
        let p = split_pieces(j);
        assert(j.push('\n').drop_last() =~= j);
        assert(split_pieces(j.push('\n')) == p.push(Seq::<char>::empty()));
        assert(j + seq!['\n'] =~= j.push('\n'));
        lemma_split_extend(j.push('\n'), last);
        let q = p.push(Seq::<char>::empty());
        assert(Seq::<char>::empty() + last =~= last);
        assert(q.update(q.len() - 1, q.last() + last) =~= p.push(last));
        assert(join_lines(names) == j + seq!['\n'] + last);
        assert(split_pieces(join_lines(names)) == p.push(last));
        assert(p.push(last).drop_last() =~= p);
        assert(kept_names(p.push(last)) == kept_names(p).push(last));
        assert(init.push(last) =~= names);
    }
}

/// An owned copy of `t`.
pub fn owned(t: &str) -> (s: String)
    ensures
        s@ == t@,
{
    let mut s = String::new();
    push_str(&mut s, t);
    assert(Seq::<char>::empty() + t@ =~= t@);
    s
}

/// `prefix` followed by `rest`.
pub fn concat_text(prefix: &str, rest: &str) -> (s: String)
    ensures
        s@ == prefix@ + rest@,
{
    let mut s = owned(prefix);
    push_str(&mut s, rest);
    s
}

/// The trimmed text of `t`, or `None` where nothing is left.
pub fn trimmed_text(t: &str) -> (r: Option<String>)
    ensures
        r is Some <==> trim(t@).len() > 0,
        r is Some ==> r->0@ == trim(t@),
{
    let v = chars_of(t);
    let (a, b) = trim_bounds(&v, 0, v.len());
    assert(v@.subrange(0, v@.len() as int) =~= v@);
    if a < b {
        Some(string_of(&v, a, b))
    } else {
        None
    }
}

/// `str::trim` then `str::parse::<u64>`.
pub fn parse_trimmed_u64(t: &str) -> (r: Option<u64>)
    ensures
        r == parse_u64(trim(t@)),
{
    let v = chars_of(t);
    let (a, b) = trim_bounds(&v, 0, v.len());
    assert(v@.subrange(0, v@.len() as int) =~= v@);
    parse_u64_in(&v, a, b)
}

/// The names listed in `t`: its pieces between separators, trimmed, the
/// empty ones left out.
pub fn operation_names(t: &str) -> (names: Vec<String>)
    ensures
        strings_view(names@) == operation_names_of(t@),
{
    let v = chars_of(t);
    operation_names_in(&v)
}

/// A copy of a vector of strings.
pub fn copy_strings(v: &Vec<String>) -> (r: Vec<String>)
    ensures
        strings_view(r@) == strings_view(v@),
{
    let mut r: Vec<String> = Vec::new();
    let mut i: usize = 0;
    while i < v.len()
        invariant
            i <= v.len(),
            strings_view(r@) == strings_view(v@).take(i as int),
        decreases v.len() - i,
    {
        let ghost before = r@;
        r.push(v[i].clone());
        assert(strings_view(r@) =~= strings_view(before).push(v@[i as int]@));
        assert(strings_view(v@).take(i + 1) =~= strings_view(v@).take(i as int).push(
            v@[i as int]@,
        ));
        i = i + 1;
    }
    assert(strings_view(v@).take(v.len() as int) =~= strings_view(v@));
    r
}

/// Whether two texts are the same.
pub fn same_text(a: &str, b: &str) -> (same: bool)
    ensures
        same == (a@ == b@),
{
    let x = chars_of(a);
    let y = chars_of(b);
    if x.len() != y.len() {
        return false;
    }
    let mut i: usize = 0;
    while i < x.len()
        invariant
            i <= x.len() == y.len(),
            x@ == a@,
            y@ == b@,
            forall|j: int| 0 <= j < i ==> x@[j] == y@[j],
        decreases x.len() - i,
    {
        if x[i] != y[i] {
            return false;
        }
        i = i + 1;
    }
    assert(x@ =~= y@);
    true
}

} // verus!

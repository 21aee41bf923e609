//! Character-level text helpers shared by the parsers and renderers.
use vstd::prelude::*;
use vstd::string::*;

verus! {

/// Unicode `White_Space` property, the definition `char::is_whitespace` and
/// `str::trim` document.
pub open spec fn is_white_space(c: char) -> bool {
    let u = c as u32;
    ||| 0x09 <= u <= 0x0d
    ||| u == 0x20
    ||| u == 0x85
    ||| u == 0xa0
    ||| u == 0x1680
    ||| 0x2000 <= u <= 0x200a
    ||| u == 0x2028
    ||| u == 0x2029
    ||| u == 0x202f
    ||| u == 0x205f
    ||| u == 0x3000
}

/// `s` with its leading white space removed.
pub open spec fn trim_start(s: Seq<char>) -> Seq<char>
    decreases s.len(),
{
    if s.len() > 0 && is_white_space(s[0]) {
        trim_start(s.drop_first())
    } else {
        s
    }
}

/// `s` with its trailing white space removed.
pub open spec fn trim_end(s: Seq<char>) -> Seq<char>
    decreases s.len(),
{
    if s.len() > 0 && is_white_space(s.last()) {
        trim_end(s.drop_last())
    } else {
        s
    }
}

/// `s` with leading and trailing white space removed.
pub open spec fn trim(s: Seq<char>) -> Seq<char> {
    trim_end(trim_start(s))
}

/// Holds of a text that is empty or white space only.
pub open spec fn is_blank(s: Seq<char>) -> bool {
    trim(s).len() == 0
}

/// `str::trim`: the documentation states that it returns the slice with
/// leading and trailing white space removed, white space being the Unicode
/// `White_Space` property; the contract says exactly that.
#[verifier::external_body]
pub fn trim_str(s: &str) -> (r: &str)
    ensures
        r@ == trim(s@),
{
    s.trim()
}

/// `String::push`: appends one character.
#[verifier::external_body]
pub fn push_char(s: &mut String, c: char)
    ensures
        final(s)@ == old(s)@.push(c),
{
    s.push(c)
}

/// The characters of `s`, in order.
pub fn chars_of(s: &str) -> (r: Vec<char>)
    ensures
        r@ == s@,
{
    let mut out: Vec<char> = Vec::new();
    for c in it: s.chars()
        invariant
            out@ == it.seq().take(it.index() as int),
    {
        out.push(c);
    }
    out
}


/// Text equality.
pub fn str_eq(a: &str, b: &str) -> (r: bool)
    ensures
        r == (a@ == b@),
{
    a.to_owned() == b.to_owned()
}

/// The character of a decimal digit.
pub open spec fn digit_char(d: nat) -> char {
    ((d + 48) as u32) as char
}

/// The decimal digits of `n`, most significant first, with no leading zero.
pub open spec fn decimal(n: nat) -> Seq<char>
    decreases n,
{
    if n < 10 {
        seq![digit_char(n)]
    } else {
        decimal(n / 10).push(digit_char(n % 10))
    }
}

fn digit_of(d: u64) -> (c: char)
    requires
        d < 10,
    ensures
        c == digit_char(d as nat),
{
    ((d as u8) + 48u8) as char
}

/// Appends the decimal digits of `n` to `out`.
pub fn push_decimal(out: &mut String, n: u64)
    ensures
        final(out)@ == old(out)@ + decimal(n as nat),
    decreases n,
{
    if n < 10 {
        push_char(out, digit_of(n));
        assert(old(out)@.push(digit_char(n as nat)) =~= old(out)@ + decimal(n as nat));
    } else {
        push_decimal(out, n / 10);
        push_char(out, digit_of(n % 10));
        assert(old(out)@ + decimal((n / 10) as nat) + seq![digit_char((n % 10) as nat)]
            =~= old(out)@ + decimal(n as nat));
    }
}

/// The decimal text of `n`, as `u64::to_string` writes it.
pub fn decimal_string(n: u64) -> (r: String)
    ensures
        r@ == decimal(n as nat),
{
    let mut out = String::new();
    push_decimal(&mut out, n);
    assert(Seq::<char>::empty() + decimal(n as nat) =~= decimal(n as nat));
    out
}


/// Holds of an ASCII decimal digit.
pub open spec fn is_digit(c: char) -> bool {
    '0' <= c <= '9'
}

/// The value of a run of decimal digits.
pub open spec fn digits_value(d: Seq<char>) -> nat
    decreases d.len(),
{
    if d.len() == 0 {
        0
    } else {
        digits_value(d.drop_last()) * 10 + ((d.last() as u32) - 48) as nat
    }
}

/// Holds of a text made of decimal digits only.
pub open spec fn all_digits(d: Seq<char>) -> bool {
    forall|i: int| 0 <= i < d.len() ==> #[trigger] is_digit(d[i])
}

/// `s` without one leading `+`, if it has one.
pub open spec fn without_plus(s: Seq<char>) -> Seq<char> {
    if s.len() > 0 && s[0] == '+' {
        s.drop_first()
    } else {
        s
    }
}

/// What `str::parse::<u64>` gives: an optional `+` followed by at least one
/// decimal digit and nothing else, whose value fits in a `u64`.
pub open spec fn parse_u64(s: Seq<char>) -> Option<u64> {
    let d = without_plus(s);
    if d.len() > 0 && all_digits(d) && digits_value(d) <= u64::MAX {
        Some(digits_value(d) as u64)
    } else {
        None
    }
}

proof fn lemma_digits_value_grows(d: Seq<char>, i: int, j: int)
    requires
        0 <= i <= j <= d.len(),
        all_digits(d),
    ensures
        digits_value(d.take(i)) <= digits_value(d.take(j)),
    decreases j - i,
{
    if i < j {
        lemma_digits_value_grows(d, i, j - 1);
        assert(d.take(j).drop_last() =~= d.take(j - 1));
    }
}

/// Parses a decimal `u64` as `str::parse::<u64>` does.
pub fn parse_u64_str(s: &str) -> (r: Option<u64>)
    ensures
        r == parse_u64(s@),
{
    let cs = chars_of(s);
    let start: usize = if cs.len() > 0 && cs[0] == '+' { 1 } else { 0 };
    let ghost d = without_plus(s@);
    assert(d =~= cs@.subrange(start as int, cs@.len() as int));
    if start == cs.len() {
        return None;
    }
    let mut acc: u64 = 0;
    let mut i: usize = start;
    while i < cs.len()
        invariant
            cs@ == s@,
            d == without_plus(s@),
            start <= i <= cs.len(),
            d =~= cs@.subrange(start as int, cs@.len() as int),
            forall|k: int| 0 <= k < i - start ==> #[trigger] is_digit(d[k]),
            acc as nat == digits_value(d.take(i - start)),
        decreases cs.len() - i,
    {
        let c = cs[i];
        if !('0' <= c && c <= '9') {
            assert(!is_digit(d[i - start]));
            assert(!all_digits(d));
            return None;
        }
        let v = ((c as u32) - 48) as u64;
        assert(d.take(i - start + 1).drop_last() =~= d.take(i - start));
        assert(d.take(i - start + 1).last() == c);
        assert(digits_value(d.take(i - start + 1)) == acc * 10 + v);
        if acc > (u64::MAX - v) / 10 {
            proof {
                assert(acc * 10 + v > u64::MAX) by (nonlinear_arith)
                    requires
                        acc > (u64::MAX - v) / 10,
                        v < 10,
                ;
                assert(digits_value(d.take(i - start + 1)) > u64::MAX);
                let n = d.len() as int;
                if all_digits(d) {
                    lemma_digits_value_grows(d, i - start + 1, n);
                    assert(d.take(n) =~= d);
                }
            }
            assert(!(digits_value(d) <= u64::MAX && all_digits(d)));
            return None;
        }
        acc = acc * 10 + v;
        i = i + 1;
    }
    assert(d.take(i - start) =~= d);
    Some(acc)
}

/// ASCII lower-casing of one character; other characters are unchanged.
pub open spec fn ascii_lower(c: char) -> char {
    if 'A' <= c <= 'Z' {
        ((c as u32) + 32) as char
    } else {
        c
    }
}

/// `str::eq_ignore_ascii_case`, read character by character.
pub open spec fn eq_ignore_ascii_case(a: Seq<char>, b: Seq<char>) -> bool {
    a.len() == b.len() && forall|i: int| 0 <= i < a.len() ==> ascii_lower(#[trigger] a[i])
        == ascii_lower(b[i])
}

fn lower_char(c: char) -> (r: char)
    ensures
        r == ascii_lower(c),
{
    if 'A' <= c && c <= 'Z' {
        (((c as u32) + 32) as u8) as char
    } else {
        c
    }
}

/// Compares two texts ignoring ASCII case.
pub fn str_eq_ignore_ascii_case(a: &str, b: &str) -> (r: bool)
    ensures
        r == eq_ignore_ascii_case(a@, b@),
{
    let x = chars_of(a);
    let y = chars_of(b);
    if x.len() != y.len() {
        return false;
    }
    let mut i: usize = 0;
    while i < x.len()
        invariant
            x@ == a@,
            y@ == b@,
            x.len() == y.len(),
            i <= x.len(),
            forall|k: int| 0 <= k < i ==> ascii_lower(#[trigger] a@[k]) == ascii_lower(b@[k]),
        decreases x.len() - i,
    {
        if lower_char(x[i]) != lower_char(y[i]) {
            return false;
        }
        i = i + 1;
    }
    true
}


/// The pieces of `s` between its `'\n'` characters, as `str::split('\n')`
/// yields them (an empty text is one empty piece).
pub open spec fn split_newlines(s: Seq<char>) -> Seq<Seq<char>>
    decreases s.len(),
{
    if s.len() == 0 {
        seq![Seq::<char>::empty()]
    } else {
        let prev = split_newlines(s.drop_last());
        if s.last() == '\n' {
            prev.push(Seq::<char>::empty())
        } else {
            prev.update(prev.len() - 1, prev.last().push(s.last()))
        }
    }
}

/// The pieces trimmed, the empty ones left out, in order.
pub open spec fn kept_lines(pieces: Seq<Seq<char>>) -> Seq<Seq<char>>
    decreases pieces.len(),
{
    if pieces.len() == 0 {
        Seq::<Seq<char>>::empty()
    } else {
        let before = kept_lines(pieces.drop_last());
        let t = trim(pieces.last());
        if t.len() > 0 {
            before.push(t)
        } else {
            before
        }
    }
}

/// The non-blank lines of `s`, each trimmed: what
/// `s.lines().map(str::trim).filter(|l| !l.is_empty())` yields. A `'\r'`
/// before a line break is white space, so trimming removes it as `lines`
/// does, and the empty piece after a final line break is left out either way.
pub open spec fn nonblank_lines(s: Seq<char>) -> Seq<Seq<char>> {
    kept_lines(split_newlines(s))
}

fn keep_trimmed(out: &mut Vec<String>, piece: &String)
    ensures
        final(out)@.map_values(|l: String| l@) == (if trim(piece@).len() > 0 {
            old(out)@.map_values(|l: String| l@).push(trim(piece@))
        } else {
            old(out)@.map_values(|l: String| l@)
        }),
{
    let t = trim_str(piece.as_str());
    if !t.is_empty() {
        out.push(t.to_owned());
        assert(out@.map_values(|l: String| l@) =~= old(out)@.map_values(|l: String| l@).push(
            trim(piece@),
        ));
    }
}

/// The non-blank lines of `s`, each trimmed, in order.
pub fn nonblank_trimmed_lines(s: &str) -> (r: Vec<String>)
    ensures
        r@.map_values(|l: String| l@) == nonblank_lines(s@),
{
    let cs = chars_of(s);
    let mut out: Vec<String> = Vec::new();
    let mut cur = String::new();
    proof {
        assert(cs@.take(0) =~= Seq::<char>::empty());
        assert(out@.map_values(|l: String| l@) =~= Seq::<Seq<char>>::empty());
    }
    for i in 0..cs.len()
        invariant
            cs@ == s@,
            split_newlines(cs@.take(i as int)).len() >= 1,
            out@.map_values(|l: String| l@) == kept_lines(
                split_newlines(cs@.take(i as int)).drop_last(),
            ),
            cur@ == split_newlines(cs@.take(i as int)).last(),
    {
        let ghost prev = split_newlines(cs@.take(i as int));
        let c = cs[i];
        proof {
            assert(cs@.take(i + 1).drop_last() =~= cs@.take(i as int));
            assert(cs@.take(i + 1).last() == c);
            assert(prev =~= prev.drop_last().push(prev.last()));
        }
        if c == '\n' {
            keep_trimmed(&mut out, &cur);
            cur = String::new();
            proof {
                let next = split_newlines(cs@.take(i + 1));
                assert(next == prev.push(Seq::<char>::empty()));
                assert(next.drop_last() =~= prev);
            }
        } else {
            push_char(&mut cur, c);
            proof {
                let next = split_newlines(cs@.take(i + 1));
                assert(next.drop_last() =~= prev.drop_last());
            }
        }
    }
    proof {
        let all = split_newlines(cs@.take(cs.len() as int));
        assert(cs@.take(cs.len() as int) =~= s@);
        assert(all =~= all.drop_last().push(all.last()));
    }
    keep_trimmed(&mut out, &cur);
    out
}


proof fn lemma_decimal_digits(n: nat)
    ensures
        decimal(n).len() >= 1,
        all_digits(decimal(n)),
        digits_value(decimal(n)) == n,
    decreases n,
{
    let d = decimal(n);
    assert((digit_char(n % 10) as u32) == n % 10 + 48);
    if n >= 10 {
        lemma_decimal_digits(n / 10);
        assert(d.drop_last() =~= decimal(n / 10));
        assert(forall|i: int| 0 <= i < d.len() - 1 ==> d[i] == decimal(n / 10)[i]);
        assert(d.last() == digit_char(n % 10));
        assert(digits_value(d) == digits_value(decimal(n / 10)) * 10 + n % 10);
        assert((n / 10) * 10 + n % 10 == n);
    } else {
        assert(n % 10 == n);
        assert(d.drop_last() =~= Seq::<char>::empty());
        assert(digits_value(Seq::<char>::empty()) == 0);
        assert(d.last() == digit_char(n));
        assert(digits_value(d) == digits_value(d.drop_last()) * 10 + ((d.last() as u32) - 48) as nat);
    }
}

pub(crate) proof fn lemma_trim_of_unspaced(s: Seq<char>)
    requires
        s.len() >= 1,
        !is_white_space(s[0]),
        !is_white_space(s.last()),
    ensures
        trim(s) == s,
{
}

/// Reading back the decimal text of a number gives the number, and that
/// text is already trimmed.
pub proof fn decimal_parse_round_trip(n: u64)
    ensures
        trim(decimal(n as nat)) == decimal(n as nat),
        parse_u64(decimal(n as nat)) == Some(n),
{
    let d = decimal(n as nat);
    lemma_decimal_digits(n as nat);
    assert(is_digit(d[0]));
    assert(is_digit(d.last()));
    lemma_trim_of_unspaced(d);
    assert(without_plus(d) == d);
}


proof fn lemma_trim_start_shape(s: Seq<char>)
    ensures
        trim_start(s).len() == 0 || !is_white_space(trim_start(s)[0]),
        trim_start(s).len() <= s.len(),
    decreases s.len(),
{
    if s.len() > 0 && is_white_space(s[0]) {
        lemma_trim_start_shape(s.drop_first());
    }
}

proof fn lemma_trim_end_shape(s: Seq<char>)
    ensures
        trim_end(s) == s.take(trim_end(s).len() as int),
        trim_end(s).len() <= s.len(),
        trim_end(s).len() == 0 || !is_white_space(trim_end(s).last()),
    decreases s.len(),
{
    if s.len() > 0 && is_white_space(s.last()) {
        lemma_trim_end_shape(s.drop_last());
        let t = trim_end(s.drop_last());
        assert(s.drop_last().take(t.len() as int) =~= s.take(t.len() as int));
    } else {
        assert(s.take(s.len() as int) =~= s);
    }
}

/// Trimming twice trims no more than trimming once.
pub proof fn trim_idempotent(s: Seq<char>)
    ensures
        trim(trim(s)) == trim(s),
{
    let a = trim_start(s);
    lemma_trim_start_shape(s);
    lemma_trim_end_shape(a);
    let t = trim_end(a);
    if t.len() > 0 {
        assert(t[0] == a[0]);
        lemma_trim_of_unspaced(t);
    }
}

proof fn lemma_kept_lines_trimmed(pieces: Seq<Seq<char>>)
    ensures
        forall|k: int|
            #![trigger kept_lines(pieces)[k]]
            0 <= k < kept_lines(pieces).len() ==> kept_lines(pieces)[k].len() > 0 && trim(
                kept_lines(pieces)[k],
            ) == kept_lines(pieces)[k],
    decreases pieces.len(),
{
    if pieces.len() > 0 {
        lemma_kept_lines_trimmed(pieces.drop_last());
        trim_idempotent(pieces.last());
        let before = kept_lines(pieces.drop_last());
        let all = kept_lines(pieces);
        assert forall|k: int| 0 <= k < all.len() implies all[k].len() > 0 && trim(all[k])
            == all[k] by {
            if k < before.len() {
                assert(all[k] == before[k]);
            }
        }
    }
}

/// The lines that framing keeps are non-empty and already trimmed.
pub proof fn nonblank_lines_are_trimmed(s: Seq<char>)
    ensures
        forall|k: int|
            #![trigger nonblank_lines(s)[k]]
            0 <= k < nonblank_lines(s).len() ==> nonblank_lines(s)[k].len() > 0 && trim(
                nonblank_lines(s)[k],
            ) == nonblank_lines(s)[k],
{
    lemma_kept_lines_trimmed(split_newlines(s));
}

/// The texts joined, with `sep` between each two.
pub open spec fn joined_with(parts: Seq<Seq<char>>, sep: char) -> Seq<char>
    decreases parts.len(),
{
    if parts.len() == 0 {
        Seq::empty()
    } else if parts.len() == 1 {
        parts[0]
    } else {
        joined_with(parts.drop_last(), sep).push(sep) + parts.last()
    }
}

/// Leading white space of a joined text: that of the first part, then of the
/// rest only where the first part is white space only.
pub(crate) proof fn lemma_trim_start_concat(x: Seq<char>, y: Seq<char>)
    ensures
        trim_start(x + y) == (if trim_start(x).len() == 0 {
            trim_start(y)
        } else {
            trim_start(x) + y
        }),
    decreases x.len(),
{
    if x.len() == 0 {
        assert(x + y =~= y);
    } else if is_white_space(x[0]) {
        assert((x + y).drop_first() =~= x.drop_first() + y);
        lemma_trim_start_concat(x.drop_first(), y);
    } else {
        assert((x + y)[0] == x[0]);
    }
}

/// Trimming the start of a text leaves one of its suffixes.
pub(crate) proof fn lemma_trim_start_suffix(s: Seq<char>) -> (j: int)
    ensures
        0 <= j <= s.len(),
        trim_start(s) == s.skip(j),
    decreases s.len(),
{
    if s.len() > 0 && is_white_space(s[0]) {
        let j = lemma_trim_start_suffix(s.drop_first());
        assert(s.drop_first().skip(j) =~= s.skip(j + 1));
        j + 1
    } else {
        assert(s.skip(0) =~= s);
        0
    }
}

/// A trimmed text is empty exactly where its start-trimmed text is, and
/// starts with the same character; each of its characters is one of the
/// text's.
pub(crate) proof fn lemma_trim_parts(s: Seq<char>)
    ensures
        (trim(s).len() == 0) == (trim_start(s).len() == 0),
        trim(s).len() > 0 ==> trim(s)[0] == trim_start(s)[0],
        forall|k: int| 0 <= k < trim(s).len() ==> s.contains(#[trigger] trim(s)[k]),
{
    let a = trim_start(s);
    let j = lemma_trim_start_suffix(s);
    lemma_trim_start_shape(s);
    lemma_trim_end_shape(a);
    let t = trim_end(a);
    if a.len() > 0 && t.len() == 0 {
        lemma_trim_end_keeps_unspaced_first(a);
    }
    assert forall|k: int| 0 <= k < t.len() implies s.contains(#[trigger] t[k]) by {
        assert(t[k] == a[k]);
        assert(a[k] == s[j + k]);
    }
}

proof fn lemma_trim_end_keeps_unspaced_first(a: Seq<char>)
    requires
        a.len() > 0,
        !is_white_space(a[0]),
    ensures
        trim_end(a).len() > 0,
    decreases a.len(),
{
    if is_white_space(a.last()) {
        assert(a.len() > 1);
        assert(a.drop_last()[0] == a[0]);
        lemma_trim_end_keeps_unspaced_first(a.drop_last());
    }
}

/// A text without line breaks is one piece.
proof fn lemma_split_unbroken(y: Seq<char>)
    requires
        !y.contains('\n'),
    ensures
        split_newlines(y) == seq![y],
    decreases y.len(),
{
    if y.len() > 0 {
        assert(!y.drop_last().contains('\n')) by {
            if y.drop_last().contains('\n') {
                let k = choose|k: int| 0 <= k < y.drop_last().len() && y.drop_last()[k] == '\n';
                assert(y[k] == '\n');
            }
        }
        lemma_split_unbroken(y.drop_last());
        assert(y.last() != '\n') by {
            assert(y[y.len() - 1] == y.last());
        }
        assert(y.drop_last().push(y.last()) =~= y);
        let prev = split_newlines(y.drop_last());
        assert(prev.update(prev.len() - 1, prev.last().push(y.last())) =~= seq![y]);
    } else {
        assert(y =~= Seq::<char>::empty());
        assert(split_newlines(y) =~= seq![y]);
    }
}

/// A line break followed by a text without one adds that text as a piece.
proof fn lemma_split_after_break(x: Seq<char>, y: Seq<char>)
    requires
        !y.contains('\n'),
    ensures
        split_newlines(x.push('\n') + y) == split_newlines(x).push(y),
    decreases y.len(),
{
    if y.len() == 0 {
        assert(x.push('\n') + y =~= x.push('\n'));
        assert(x.push('\n').drop_last() =~= x);
        assert(y =~= Seq::<char>::empty());
        assert(split_newlines(x.push('\n')) == split_newlines(x).push(Seq::<char>::empty()));
    } else {
        let z = x.push('\n') + y;
        assert(!y.drop_last().contains('\n')) by {
            if y.drop_last().contains('\n') {
                let k = choose|k: int| 0 <= k < y.drop_last().len() && y.drop_last()[k] == '\n';
                assert(y[k] == '\n');
            }
        }
        lemma_split_after_break(x, y.drop_last());
        assert(z.drop_last() =~= x.push('\n') + y.drop_last());
        assert(z.last() == y.last());
        assert(y.last() != '\n') by {
            assert(y[y.len() - 1] == y.last());
        }
        assert(y.drop_last().push(y.last()) =~= y);
        let prev = split_newlines(x).push(y.drop_last());
        assert(split_newlines(z) == prev.update(prev.len() - 1, prev.last().push(y.last())));
        assert(split_newlines(z) =~= split_newlines(x).push(y));
    }
}

/// Splitting texts joined by line breaks gives them back.
pub(crate) proof fn lemma_split_joined(lines: Seq<Seq<char>>)
    requires
        lines.len() > 0,
        forall|i: int| 0 <= i < lines.len() ==> !(#[trigger] lines[i]).contains('\n'),
    ensures
        split_newlines(joined_with(lines, '\n')) == lines,
    decreases lines.len(),
{
    if lines.len() == 1 {
        lemma_split_unbroken(lines[0]);
        assert(seq![lines[0]] =~= lines);
    } else {
        let front = lines.drop_last();
        assert forall|i: int| 0 <= i < front.len() implies !(#[trigger] front[i]).contains('\n') by {
            assert(front[i] == lines[i]);
        }
        lemma_split_joined(front);
        assert(!lines.last().contains('\n')) by {
            assert(lines[lines.len() - 1] == lines.last());
        }
        lemma_split_after_break(joined_with(front, '\n'), lines.last());
        assert(front.push(lines.last()) =~= lines);
    }
}

} // verus!

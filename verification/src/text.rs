use vstd::prelude::*;
use vstd::string::*;
use vstd::utf8::*;

verus! {

// ---------------------------------------------------------------------------
// Decimal rendering of integers
// ---------------------------------------------------------------------------

/// The ASCII digit for `d` (for `0 <= d < 10`).
pub open spec fn digit_char(d: int) -> char {
    ((48 + d) as u8) as char
}

/// The decimal rendering of a natural number, most significant digit first,
/// without leading zeros (`0` renders as `"0"`), as `Display` prints it.
pub open spec fn decimal(n: nat) -> Seq<char>
    decreases n,
{
    if n < 10 {
        seq![digit_char(n as int)]
    } else {
        decimal(n / 10).push(digit_char((n % 10) as int))
    }
}

/// The decimal rendering of a signed integer: a leading `-` for negative values.
pub open spec fn signed_decimal(n: int) -> Seq<char> {
    if n < 0 {
        seq!['-'] + decimal((-n) as nat)
    } else {
        decimal(n as nat)
    }
}

fn digit(d: u64) -> (c: char)
    requires
        d < 10,
    ensures
        c == digit_char(d as int),
{
    ((d as u8) + 48u8) as char
}

/// Appends one character to a string.
#[verifier::external_body]
pub(crate) fn push_char(s: &mut String, c: char)
    ensures
        final(s)@ == old(s)@.push(c),
{
    s.push(c);
}

/// Renders `n` in decimal, as `n.to_string()` does for a `u64`.
pub fn u64_to_decimal(n: u64) -> (s: String)
    ensures
        s@ == decimal(n as nat),
{
    if n == 0 {
        let mut z = String::new();
        push_char(&mut z, '0');
        assert(z@ == seq!['0']);
        return z;
    }
    let mut rev: Vec<char> = Vec::new();
    let mut m: u64 = n;
    let ghost mut suffix: Seq<char> = Seq::empty();
    // digits are produced least significant first
    while m > 0
        invariant
            m <= n,
            rev@.len() == suffix.len(),
            forall|i: int| 0 <= i < rev@.len() ==> rev@[i] == suffix[suffix.len() - 1 - i],
            m > 0 ==> decimal(n as nat) == decimal(m as nat) + suffix,
            m == 0 ==> decimal(n as nat) == suffix,
        decreases m,
    {
        let d: u64 = m % 10;
        let c = digit(d);
        proof {
            if m >= 10 {
                assert(decimal(m as nat) == decimal((m / 10) as nat).push(c));
                assert(decimal(m as nat) + suffix == decimal((m / 10) as nat) + (seq![c] + suffix));
            } else {
                assert(decimal(m as nat) == seq![c]);
            }
        }
        rev.push(c);
        proof {
            suffix = seq![c] + suffix;
        }
        m = m / 10;
    }
    let mut s = String::new();
    let mut k: usize = rev.len();
    while k > 0
        invariant
            k <= rev@.len(),
            rev@.len() == suffix.len(),
            forall|i: int| 0 <= i < rev@.len() ==> rev@[i] == suffix[suffix.len() - 1 - i],
            s@ == suffix.subrange(0, (rev@.len() - k) as int),
        decreases k,
    {
        k = k - 1;
        let c = rev[k];
        push_char(&mut s, c);
        assert(s@ == suffix.subrange(0, (rev@.len() - k) as int));
    }
    assert(suffix.subrange(0, suffix.len() as int) == suffix);
    s
}

/// Renders `n` in decimal, as `n.to_string()` does for an `i64`.
pub fn i64_to_decimal(n: i64) -> (s: String)
    ensures
        s@ == signed_decimal(n as int),
{
    if n < 0 {
        let magnitude: u64 = (0i128 - (n as i128)) as u64;
        let digits = u64_to_decimal(magnitude);
        let mut s = String::new();
        push_char(&mut s, '-');
        s.append(digits.as_str());
        s
    } else {
        u64_to_decimal(n as u64)
    }
}

// ---------------------------------------------------------------------------
// Characters of a string
// ---------------------------------------------------------------------------

/// The characters of `s`, in order.
pub fn chars_of(s: &str) -> (v: Vec<char>)
    ensures
        v@ == s@,
{
    let n: usize = s.unicode_len();
    let mut v: Vec<char> = Vec::new();
    let mut i: usize = 0;
    while i < n
        invariant
            n == s@.len(),
            i <= n,
            v@ == s@.subrange(0, i as int),
        decreases n - i,
    {
        let c = s.get_char(i);
        v.push(c);
        i = i + 1;
        assert(v@ == s@.subrange(0, i as int));
    }
    assert(s@.subrange(0, n as int) == s@);
    v
}

/// The string made of `chars[lo..hi]`.
pub fn string_of(chars: &Vec<char>, lo: usize, hi: usize) -> (s: String)
    requires
        lo <= hi <= chars@.len(),
    ensures
        s@ == chars@.subrange(lo as int, hi as int),
{
    let mut s = String::new();
    let mut i: usize = lo;
    while i < hi
        invariant
            lo <= i <= hi,
            hi <= chars@.len(),
            s@ == chars@.subrange(lo as int, i as int),
        decreases hi - i,
    {
        push_char(&mut s, chars[i]);
        i = i + 1;
        assert(s@ == chars@.subrange(lo as int, i as int));
    }
    s
}

/// The concatenation of `a` and `b`.
pub fn concat2(a: &str, b: &str) -> (s: String)
    ensures
        s@ == a@ + b@,
{
    let mut s = String::from_str(a);
    s.append(b);
    s
}

/// The concatenation of `a`, `b` and `c`.
pub fn concat3(a: &str, b: &str, c: &str) -> (s: String)
    ensures
        s@ == a@ + b@ + c@,
{
    let mut s = String::from_str(a);
    s.append(b);
    s.append(c);
    s
}

/// True when the two strings hold the same characters.
pub fn same_text(a: &str, b: &str) -> (r: bool)
    ensures
        r == (a@ == b@),
{
    let x = String::from_str(a);
    let y = String::from_str(b);
    x == y
}

// ---------------------------------------------------------------------------
// Splitting at a separator, at most `n` pieces (as `str::splitn`)
// ---------------------------------------------------------------------------

/// The pieces of `s` split at `sep`, at most `n >= 1` pieces: scanning from the
/// left, every separator starts a new piece until there are `n` pieces; after
/// that the separators stay in the last piece. This is what `str::splitn`
/// yields for a `char` pattern.
pub open spec fn split_n(s: Seq<char>, n: nat, sep: char) -> Seq<Seq<char>>
    decreases s.len(),
{
    if s.len() == 0 {
        seq![Seq::<char>::empty()]
    } else {
        let p = split_n(s.drop_last(), n, sep);
        let c = s.last();
        if c == sep && p.len() < n {
            p.push(Seq::<char>::empty())
        } else {
            p.update(p.len() - 1, p.last().push(c))
        }
    }
}

/// The pieces joined back together with the separator between each two.
pub open spec fn join_with(p: Seq<Seq<char>>, sep: char) -> Seq<char>
    decreases p.len(),
{
    if p.len() == 0 {
        Seq::empty()
    } else if p.len() == 1 {
        p[0]
    } else {
        join_with(p.drop_last(), sep) + seq![sep] + p.last()
    }
}

/// Splitting loses nothing: joining the pieces with the separator gives the
/// text back. Every piece but the last is free of the separator, and so is
/// the last one when fewer than `n` pieces came out.
pub proof fn lemma_split_n_join(s: Seq<char>, n: nat, sep: char)
    requires
        n >= 1,
    ensures
        join_with(split_n(s, n, sep), sep) == s,
        forall|i: int|
            0 <= i < split_n(s, n, sep).len() - 1 ==> !(#[trigger] split_n(s, n, sep)[i]).contains(sep),
        split_n(s, n, sep).len() < n ==> !split_n(s, n, sep).last().contains(sep),
    decreases s.len(),
{
    let p = split_n(s, n, sep);
    if s.len() == 0 {
        assert(p == seq![Seq::<char>::empty()]);
        assert(!Seq::<char>::empty().contains(sep));
    } else {
        let s2 = s.drop_last();
        let q = split_n(s2, n, sep);
        let c = s.last();
        lemma_split_n_join(s2, n, sep);
        lemma_split_n_len(s2, n, sep);
        assert(s2.push(c) == s);
        if c == sep && q.len() < n {
            assert(p == q.push(Seq::<char>::empty()));
            assert(p.drop_last() == q);
            assert(join_with(p, sep) == s2 + seq![sep] + Seq::<char>::empty());
            assert(s2 + seq![sep] + Seq::<char>::empty() == s);
            assert(!Seq::<char>::empty().contains(sep));
            assert forall|i: int| 0 <= i < p.len() - 1 implies !(#[trigger] p[i]).contains(sep) by {
                assert(p[i] == q[i]);
            }
        } else {
            let last = q.last().push(c);
            assert(p == q.update(q.len() - 1, last));
            if q.len() == 1 {
                assert(q[0] == s2);
                assert(p == seq![last]);
                assert(last == s);
            } else {
                assert(p.drop_last() == q.drop_last());
                assert(join_with(q, sep) == join_with(q.drop_last(), sep) + seq![sep] + q.last());
                assert(join_with(p, sep) == join_with(q.drop_last(), sep) + seq![sep] + last);
                assert(join_with(q.drop_last(), sep) + seq![sep] + last == (join_with(q.drop_last(), sep)
                    + seq![sep] + q.last()).push(c));
            }
            assert forall|i: int| 0 <= i < p.len() - 1 implies !(#[trigger] p[i]).contains(sep) by {
                assert(p[i] == q[i]);
            }
            if p.len() < n {
                assert(!q.last().contains(sep));
                assert(c != sep);
                assert(!last.contains(sep)) by {
                    if last.contains(sep) {
                        let k = choose|k: int| 0 <= k < last.len() && last[k] == sep;
                        if k < q.last().len() {
                            assert(last[k] == q.last()[k]);
                        }
                    }
                }
            }
        }
    }
}

/// `split_n` always yields between one and `n` pieces.
pub proof fn lemma_split_n_len(s: Seq<char>, n: nat, sep: char)
    requires
        n >= 1,
    ensures
        1 <= split_n(s, n, sep).len() <= n,
    decreases s.len(),
{
    if s.len() > 0 {
        lemma_split_n_len(s.drop_last(), n, sep);
    }
}

/// Splits `s` at `sep` into at most `n` pieces, as `s.splitn(n, sep)`.
pub fn split_n_exec(s: &str, n: usize, sep: char) -> (parts: Vec<String>)
    requires
        n >= 1,
    ensures
        parts@.len() == split_n(s@, n as nat, sep).len(),
        forall|i: int| 0 <= i < parts@.len() ==> #[trigger] parts@[i]@ == split_n(s@, n as nat, sep)[i],
{
    let chars = chars_of(s);
    let len: usize = chars.len();
    let mut parts: Vec<String> = Vec::new();
    let mut start: usize = 0;
    let mut i: usize = 0;
    while i < len
        invariant
            n >= 1,
            len == chars@.len(),
            chars@ == s@,
            start <= i <= len,
            parts@.len() + 1 == split_n(chars@.subrange(0, i as int), n as nat, sep).len(),
            parts@.len() < n,
            forall|k: int|
                0 <= k < parts@.len() ==> #[trigger] parts@[k]@ == split_n(
                    chars@.subrange(0, i as int),
                    n as nat,
                    sep,
                )[k],
            chars@.subrange(start as int, i as int) == split_n(
                chars@.subrange(0, i as int),
                n as nat,
                sep,
            ).last(),
        decreases len - i,
    {
        let ghost prefix = chars@.subrange(0, i as int);
        let ghost next = chars@.subrange(0, i + 1);
        assert(next.drop_last() == prefix);
        assert(next.last() == chars@[i as int]);
        proof {
            lemma_split_n_len(prefix, n as nat, sep);
        }
        if chars[i] == sep && parts.len() + 1 < n {
            let piece = string_of(&chars, start, i);
            parts.push(piece);
            start = i + 1;
        }
        i = i + 1;
        assert(chars@.subrange(0, i as int) == next);
        assert(chars@.subrange(start as int, i as int) == split_n(next, n as nat, sep).last()) by {
            if start == i {
                assert(chars@.subrange(start as int, i as int) == Seq::<char>::empty());
            } else {
                assert(chars@.subrange(start as int, i as int) == chars@.subrange(
                    start as int,
                    i - 1,
                ).push(chars@[i - 1]));
            }
        }
    }
    assert(chars@.subrange(0, len as int) == s@);
    let last = string_of(&chars, start, len);
    parts.push(last);
    parts
}

// ---------------------------------------------------------------------------
// Trailing characters
// ---------------------------------------------------------------------------

/// `s` without all of its trailing `c` characters, as `s.trim_end_matches(c)`.
pub open spec fn trim_end_char(s: Seq<char>, c: char) -> Seq<char>
    decreases s.len(),
{
    if s.len() > 0 && s.last() == c {
        trim_end_char(s.drop_last(), c)
    } else {
        s
    }
}

proof fn lemma_trim_end_prefix(s: Seq<char>, c: char, k: int)
    requires
        0 <= k <= s.len(),
        forall|j: int| k <= j < s.len() ==> s[j] == c,
    ensures
        trim_end_char(s, c) == trim_end_char(s.subrange(0, k), c),
    decreases s.len() - k,
{
    if k < s.len() {
        assert(s.drop_last() == s.subrange(0, s.len() - 1));
        assert(s.drop_last().subrange(0, k) == s.subrange(0, k));
        lemma_trim_end_prefix(s.drop_last(), c, k);
    } else {
        assert(s.subrange(0, k) == s);
    }
}

/// `s` without its trailing `c` characters.
pub fn trim_end_exec(s: &str, c: char) -> (r: String)
    ensures
        r@ == trim_end_char(s@, c),
{
    let chars = chars_of(s);
    let mut k: usize = chars.len();
    while k > 0 && chars[k - 1] == c
        invariant
            k <= chars@.len(),
            chars@ == s@,
            forall|j: int| k <= j < chars@.len() ==> chars@[j] == c,
        decreases k,
    {
        k = k - 1;
    }
    proof {
        lemma_trim_end_prefix(chars@, c, k as int);
        let t = chars@.subrange(0, k as int);
        if k > 0 {
            assert(t.last() != c);
        }
    }
    string_of(&chars, 0, k)
}

// ---------------------------------------------------------------------------
// JSON string literals (as serde_json writes them)
// ---------------------------------------------------------------------------

/// Lower-case hexadecimal digit of `v` (`0 <= v < 16`).
pub open spec fn hex_lower(v: int) -> char {
    if v < 10 {
        ((48 + v) as u8) as char
    } else {
        ((87 + v) as u8) as char
    }
}

/// How serde_json writes one character inside a JSON string: `"` and `\`
/// are escaped with a backslash, the control characters with a short form
/// (`\b`, `\t`, `\n`, `\f`, `\r`) take it, the other control characters below
/// U+0020 become `\u00XX` with lower-case hex digits; all else is written as is.
pub open spec fn json_escape_char(c: char) -> Seq<char> {
    if c == '"' {
        seq!['\\', '"']
    } else if c == '\\' {
        seq!['\\', '\\']
    } else if c == '\x08' {
        seq!['\\', 'b']
    } else if c == '\t' {
        seq!['\\', 't']
    } else if c == '\n' {
        seq!['\\', 'n']
    } else if c == '\x0C' {
        seq!['\\', 'f']
    } else if c == '\r' {
        seq!['\\', 'r']
    } else if (c as u32) < 0x20 {
        seq!['\\', 'u', '0', '0', hex_lower((c as int) / 16), hex_lower((c as int) % 16)]
    } else {
        seq![c]
    }
}

/// The escaped contents of a JSON string holding `s`.
pub open spec fn json_escape(s: Seq<char>) -> Seq<char>
    decreases s.len(),
{
    if s.len() == 0 {
        Seq::empty()
    } else {
        json_escape(s.drop_last()) + json_escape_char(s.last())
    }
}

/// The JSON string literal for `s`, quotes included.
pub open spec fn json_quote(s: Seq<char>) -> Seq<char> {
    seq!['"'] + json_escape(s) + seq!['"']
}

/// The error type of serde_json.
#[verifier::external_type_specification]
#[verifier::external_body]
pub struct ExJsonError(serde_json::Error);

/// Calls `serde_json::to_string` on a string slice. The contract claims that
/// the call succeeds and yields the quoted, escaped JSON string literal as
/// serde_json's compact serializer writes it into a `Vec<u8>` (see
/// `format_escaped_str` and its `ESCAPE` table); writing into a vector cannot fail.
#[verifier::external_body]
pub(crate) fn json_string(s: &str) -> (r: Result<String, serde_json::Error>)
    ensures
        r is Ok,
        r.unwrap()@ == json_quote(s@),
{
    serde_json::to_string(s)
}

// ---------------------------------------------------------------------------
// UTF-8 decoding
// ---------------------------------------------------------------------------

/// Calls `std::str::from_utf8` and copies the decoded text. The contract
/// claims that it succeeds exactly on well-formed UTF-8 and then yields the
/// decoded characters.
#[verifier::external_body]
pub(crate) fn utf8_decode(bytes: &[u8]) -> (r: Option<String>)
    ensures
        r is Some <==> valid_utf8(bytes@),
        r matches Some(t) ==> t@ == decode_utf8(bytes@),
{
    match std::str::from_utf8(bytes) {
        Ok(t) => Some(t.to_string()),
        Err(_) => None,
    }
}

/// What `String::from_utf8_lossy` yields for the given bytes (malformed
/// sequences replaced by U+FFFD).
pub uninterp spec fn utf8_lossy(bytes: Seq<u8>) -> Seq<char>;

/// Calls `String::from_utf8_lossy` and copies the text. The contract names its
/// result, and claims what std documents: on well-formed UTF-8 nothing is
/// replaced, so the text is the decoded bytes.
#[verifier::external_body]
pub(crate) fn utf8_lossy_decode(bytes: &[u8]) -> (r: String)
    ensures
        r@ == utf8_lossy(bytes@),
        valid_utf8(bytes@) ==> r@ == decode_utf8(bytes@),
{
    String::from_utf8_lossy(bytes).to_string()
}

} // verus!

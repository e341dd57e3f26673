//! Bounded string and buffer helpers: every string built here is assembled
//! byte by byte into one buffer of at most `MAX_LEN` bytes.
use vstd::prelude::*;
use vstd::string::StrSliceExecFns;
use vstd::string::StringSliceAdditionalSpecFns;
use vstd::utf8::encode_utf8;
use vstd::utf8::valid_utf8;

verus! {

broadcast use vstd::utf8::encode_utf8_valid_utf8, vstd::utf8::encode_utf8_decode_utf8;

/// Upper bound on any single string built by these helpers.
pub const MAX_LEN: usize = 128;

/// The first `MAX_LEN` bytes of `b` (all of `b` when it is shorter).
pub open spec fn clip(b: Seq<u8>) -> Seq<u8> {
    if b.len() <= MAX_LEN {
        b
    } else {
        b.subrange(0, MAX_LEN as int)
    }
}

/// Where `b` is cut at or below index `k`: at `k` itself unless byte `k`
/// continues a character, else at the nearest character start below it.
pub open spec fn cut_at(b: Seq<u8>, k: int) -> int
    decreases k,
{
    if k <= 0 {
        0
    } else if !vstd::utf8::is_continuation_byte(b[k]) {
        k
    } else {
        cut_at(b, k - 1)
    }
}

/// The longest prefix of the UTF-8 bytes `b` that fits in `MAX_LEN` bytes and
/// ends on a character boundary (all of `b` when it fits).
pub open spec fn clip_str(b: Seq<u8>) -> Seq<u8> {
    if b.len() <= MAX_LEN {
        b
    } else {
        b.subrange(0, cut_at(b, MAX_LEN as int))
    }
}

proof fn lemma_cut_at_range(b: Seq<u8>, k: int)
    requires
        0 <= k,
    ensures
        0 <= cut_at(b, k) <= k,
    decreases k,
{
    if k > 0 && vstd::utf8::is_continuation_byte(b[k]) {
        lemma_cut_at_range(b, k - 1);
    }
}

proof fn lemma_cut_at(b: Seq<u8>, k: int)
    requires
        valid_utf8(b),
        0 <= k < b.len(),
    ensures
        0 <= cut_at(b, k) <= k,
        vstd::utf8::is_char_boundary(b, cut_at(b, k)),
    decreases k,
{
    if k <= 0 {
        vstd::utf8::is_char_boundary_start_end_of_seq(b);
    } else if !vstd::utf8::is_continuation_byte(b[k]) {
        vstd::utf8::is_char_boundary_iff_not_is_continuation_byte(b, k);
    } else {
        lemma_cut_at(b, k - 1);
    }
}

/// Cutting valid UTF-8 this way keeps it valid: the result is a prefix of
/// `b`, at most `MAX_LEN` bytes, ending on a character boundary.
pub proof fn lemma_clip_str_valid(b: Seq<u8>)
    requires
        valid_utf8(b),
    ensures
        valid_utf8(clip_str(b)),
        clip_str(b).len() <= MAX_LEN,
        clip_str(b) == b.subrange(0, clip_str(b).len() as int),
{
    if b.len() > MAX_LEN {
        lemma_cut_at(b, MAX_LEN as int);
        vstd::utf8::valid_utf8_split(b, cut_at(b, MAX_LEN as int));
    } else {
        assert(b.subrange(0, b.len() as int) =~= b);
    }
}

/// The UTF-8 bytes of a `String`.
pub open spec fn string_bytes(s: String) -> Seq<u8> {
    encode_utf8(s@)
}

/// Every byte is below 0x80.
pub open spec fn ascii_bytes(b: Seq<u8>) -> bool {
    forall|i: int| 0 <= i < b.len() ==> #[trigger] b[i] <= 0x7f
}

/// An ASCII string's bytes are its characters, one byte each.
pub proof fn lemma_ascii_str(c: Seq<char>)
    requires
        vstd::utf8::is_ascii_chars(c),
    ensures
        ascii_bytes(encode_utf8(c)),
        encode_utf8(c).len() == c.len(),
{
    vstd::utf8::is_ascii_chars_encode_utf8(c);
    assert forall|i: int| 0 <= i < encode_utf8(c).len() implies #[trigger] encode_utf8(c)[i]
        <= 0x7f by {
        assert(c[i] as u8 == encode_utf8(c)[i]);
    }
}

/// ASCII bytes are valid UTF-8, and so is any prefix of them.
pub proof fn lemma_ascii_valid(b: Seq<u8>)
    requires
        ascii_bytes(b),
    ensures
        valid_utf8(b),
        valid_utf8(clip(b)),
{
    assert(vstd::utf8::partial_valid_utf8(b, 0)) by {
        assert(b.subrange(0, 0) =~= Seq::<u8>::empty());
        assert(valid_utf8(encode_utf8(Seq::<char>::empty())));
        assert(encode_utf8(Seq::<char>::empty()) =~= Seq::<u8>::empty());
    }
    vstd::utf8::partial_valid_utf8_extend_ascii_block(b, 0, b.len() as int);
    assert(b.subrange(0, b.len() as int) =~= b);
    if b.len() > MAX_LEN {
        vstd::utf8::partial_valid_utf8_extend_ascii_block(b, 0, MAX_LEN as int);
    }
}

/// Encoding distributes over concatenation.
pub proof fn lemma_encode_concat(a: Seq<char>, b: Seq<char>)
    ensures
        encode_utf8(a + b) == encode_utf8(a) + encode_utf8(b),
    decreases a.len(),
{
    if a.len() == 0 {
        assert(a + b =~= b);
        assert(encode_utf8(a) =~= Seq::<u8>::empty());
        assert(encode_utf8(a) + encode_utf8(b) =~= encode_utf8(b));
    } else {
        lemma_encode_concat(a.drop_first(), b);
        assert((a + b).drop_first() =~= a.drop_first() + b);
        assert((a + b)[0] == a[0]);
        assert(encode_utf8(a + b) =~= vstd::utf8::encode_scalar(a[0] as u32) + encode_utf8(
            a.drop_first() + b,
        ));
        assert(encode_utf8(a) =~= vstd::utf8::encode_scalar(a[0] as u32) + encode_utf8(
            a.drop_first(),
        ));
        assert(encode_utf8(a + b) =~= encode_utf8(a) + encode_utf8(b));
    }
}

/// `std::string::String::from_utf8`: succeeds exactly when the bytes are valid
/// UTF-8, and the string then holds those very bytes (the vector is moved in,
/// not copied).
#[verifier::external_body]
fn string_from_utf8(bytes: Vec<u8>) -> (r: Option<String>)
    ensures
        r is Some <==> valid_utf8(bytes@),
        r is Some ==> encode_utf8(r->0@) == bytes@,
{
    String::from_utf8(bytes).ok()
}

/// The string holding `bytes`, when they are valid UTF-8.
pub fn string_from_utf8_bytes(bytes: Vec<u8>) -> (r: Option<String>)
    ensures
        r is Some <==> valid_utf8(bytes@),
        r matches Some(s) ==> encode_utf8(s@) == bytes@,
{
    string_from_utf8(bytes)
}

/// `std::string::String::new` with no characters (used only on the branch that
/// `requires` rules out).
fn build(buf: Vec<u8>) -> (s: String)
    requires
        valid_utf8(buf@),
    ensures
        encode_utf8(s@) == buf@,
{
    match string_from_utf8(buf) {
        Some(s) => s,
        None => String::new(),
    }
}

/// `std::string::String::push`: appends `c` to the end of `s`.
#[verifier::external_body]
pub(crate) fn push_char(s: &mut String, c: char)
    ensures
        final(s)@ == old(s)@.push(c),
{
    s.push(c)
}

/// A buffer of `n` zero bytes, filled one byte at a time.
pub fn zeroed_vec(n: usize) -> (v: Vec<u8>)
    ensures
        v@.len() == n,
        forall|i: int| 0 <= i < n ==> #[trigger] v@[i] == 0,
{
    let mut v: Vec<u8> = Vec::with_capacity(n);
    let mut i: usize = 0;
    while i < n
        invariant
            i <= n,
            v@.len() == i,
            forall|k: int| 0 <= k < i ==> #[trigger] v@[k] == 0,
        decreases n - i,
    {
        v.push(0);
        i += 1;
    }
    v
}

/// Safe replacement for `dst.copy_from_slice(src)`. The lengths must match.
pub fn copy_from_slice(dst: &mut [u8], src: &[u8])
    requires
        old(dst)@.len() == src@.len(),
    ensures
        final(dst)@ == src@,
{
    let n = dst.len();
    let mut i: usize = 0;
    while i < n
        invariant
            n == dst@.len(),
            n == src@.len(),
            i <= n,
            forall|k: int| 0 <= k < i ==> dst@[k] == src@[k],
        decreases n - i,
    {
        dst[i] = src[i];
        i += 1;
    }
    assert(dst@ =~= src@);
}

/// Appends the bytes of `src` to `buf` until `buf` holds `MAX_LEN` bytes.
fn push_clipped(buf: &mut Vec<u8>, src: &[u8])
    requires
        old(buf)@.len() <= MAX_LEN,
    ensures
        final(buf)@ == clip(old(buf)@ + src@),
{
    let mut i: usize = 0;
    while i < src.len() && buf.len() < MAX_LEN
        invariant
            i <= src@.len(),
            buf@.len() <= MAX_LEN,
            buf@ == old(buf)@ + src@.subrange(0, i as int),
        decreases src@.len() - i,
    {
        buf.push(src[i]);
        i += 1;
    }
    assert(buf@ =~= clip(old(buf)@ + src@));
}

/// The index where a buffer holding the first `MAX_LEN` bytes of `all` is
/// cut back to a character boundary; `next` is the byte of `all` that follows.
fn cut_index(buf: &Vec<u8>, next: u8, Ghost(all): Ghost<Seq<u8>>) -> (k: usize)
    requires
        buf@.len() == MAX_LEN,
        all.len() > MAX_LEN,
        all.subrange(0, MAX_LEN as int) == buf@,
        all[MAX_LEN as int] == next,
    ensures
        k == cut_at(all, MAX_LEN as int),
        k <= MAX_LEN,
{
    proof {
        lemma_cut_at_range(all, MAX_LEN as int);
    }
    if !(0x80 <= next && next <= 0xbf) {
        return MAX_LEN;
    }
    let mut k: usize = MAX_LEN - 1;
    while k > 0 && 0x80 <= buf[k] && buf[k] <= 0xbf
        invariant
            buf@.len() == MAX_LEN,
            all.len() > MAX_LEN,
            all.subrange(0, MAX_LEN as int) == buf@,
            k < MAX_LEN,
            cut_at(all, MAX_LEN as int) == cut_at(all, k as int),
        decreases k,
    {
        assert(all[k as int] == buf@[k as int]);
        k -= 1;
    }
    if k > 0 {
        assert(all[k as int] == buf@[k as int]);
    }
    k
}

/// Cuts `buf`, which holds `clip(all)`, back to `clip_str(all)`.
fn cut_to_boundary(buf: &mut Vec<u8>, next: Option<u8>, Ghost(all): Ghost<Seq<u8>>)
    requires
        old(buf)@ == clip(all),
        all.len() > MAX_LEN ==> next == Some(all[MAX_LEN as int]),
        all.len() <= MAX_LEN ==> next is None,
    ensures
        final(buf)@ == clip_str(all),
{
    match next {
        None => {},
        Some(byte) => {
            assert(buf@ =~= all.subrange(0, MAX_LEN as int));
            let k = cut_index(buf, byte, Ghost(all));
            buf.truncate(k);
            assert(buf@ =~= all.subrange(0, k as int));
        },
    }
}

/// Safe replacement for `s.to_string()`: the longest prefix of `s` that fits
/// in `MAX_LEN` bytes (all of `s` when it fits).
pub fn to_string(s: &str) -> (r: String)
    ensures
        string_bytes(r) == clip_str(s.spec_bytes()),
        s.spec_bytes().len() <= MAX_LEN ==> r@ == s@,
{
    let bytes = s.as_bytes();
    let mut buf: Vec<u8> = Vec::with_capacity(MAX_LEN);
    push_clipped(&mut buf, bytes);
    assert(buf@ =~= clip(s.spec_bytes()));
    let next = if bytes.len() > MAX_LEN {
        Some(bytes[MAX_LEN])
    } else {
        None
    };
    cut_to_boundary(&mut buf, next, Ghost(s.spec_bytes()));
    proof {
        lemma_clip_str_valid(s.spec_bytes());
    }
    let r = build(buf);
    proof {
        assert(vstd::utf8::decode_utf8(encode_utf8(r@)) == r@);
        assert(vstd::utf8::decode_utf8(encode_utf8(s@)) == s@);
    }
    r
}

/// A short ASCII text (at most `MAX_LEN` characters) as a `String`.
pub fn short_ascii(s: &str) -> (r: String)
    requires
        vstd::utf8::is_ascii_chars(s@),
        s@.len() <= MAX_LEN,
    ensures
        r@ == s@,
{
    proof {
        lemma_ascii_str(s@);
    }
    to_string(s)
}

/// The byte at index `i` of `a` followed by `b` and `c`.
fn byte_at3(a: &[u8], b: &[u8], c: &[u8], i: usize) -> (x: u8)
    requires
        i < a@.len() + b@.len() + c@.len(),
    ensures
        x == (a@ + b@ + c@)[i as int],
{
    if i < a.len() {
        a[i]
    } else if i - a.len() < b.len() {
        b[i - a.len()]
    } else {
        c[i - a.len() - b.len()]
    }
}

/// Safe replacement for `a.to_string() + b`: the longest prefix of the two
/// that fits in `MAX_LEN` bytes.
pub fn concat2(a: &str, b: &str) -> (r: String)
    ensures
        string_bytes(r) == clip_str(a.spec_bytes() + b.spec_bytes()),
{
    proof {
        reveal_strlit("");
        assert(a.spec_bytes() + b.spec_bytes() + "".spec_bytes() =~= a.spec_bytes() + b.spec_bytes());
    }
    concat3(a, b, "")
}

/// Safe replacement for `a.to_string() + b + c`: the longest prefix of the
/// three that fits in `MAX_LEN` bytes.
pub fn concat3(a: &str, b: &str, c: &str) -> (r: String)
    ensures
        string_bytes(r) == clip_str(a.spec_bytes() + b.spec_bytes() + c.spec_bytes()),
{
    let ghost all = a.spec_bytes() + b.spec_bytes() + c.spec_bytes();
    let (ab, bb, cb) = (a.as_bytes(), b.as_bytes(), c.as_bytes());
    let mut buf: Vec<u8> = Vec::with_capacity(MAX_LEN);
    push_clipped(&mut buf, ab);
    push_clipped(&mut buf, bb);
    push_clipped(&mut buf, cb);
    assert(buf@ =~= clip(all));
    let total = ab.len() as u128 + bb.len() as u128 + cb.len() as u128;
    let next = if total > MAX_LEN as u128 {
        Some(byte_at3(ab, bb, cb, MAX_LEN))
    } else {
        None
    };
    cut_to_boundary(&mut buf, next, Ghost(all));
    proof {
        lemma_encode_concat(a@, b@);
        lemma_encode_concat(a@ + b@, c@);
        assert(all == encode_utf8(a@ + b@ + c@));
        lemma_clip_str_valid(all);
    }
    build(buf)
}

/// Character-for-character string equality.
pub fn str_eq(a: &str, b: &str) -> (r: bool)
    ensures
        r == (a@ == b@),
{
    let n = a.unicode_len();
    if n != b.unicode_len() {
        return false;
    }
    let mut i: usize = 0;
    while i < n
        invariant
            n == a@.len(),
            n == b@.len(),
            i <= n,
            forall|k: int| 0 <= k < i ==> a@[k] == b@[k],
        decreases n - i,
    {
        if a.get_char(i) != b.get_char(i) {
            return false;
        }
        i += 1;
    }
    assert(a@ =~= b@);
    true
}

/// Whether `needle` occurs in `haystack` starting at character `at`.
pub open spec fn occurs_at(haystack: Seq<char>, needle: Seq<char>, at: int) -> bool {
    0 <= at && at + needle.len() <= haystack.len() && haystack.subrange(at, at + needle.len())
        == needle
}

/// Whether `needle` occurs anywhere in `haystack`.
pub open spec fn contains_spec(haystack: Seq<char>, needle: Seq<char>) -> bool {
    exists|at: int| occurs_at(haystack, needle, at)
}

/// Character-level substring search.
pub fn contains(haystack: &str, needle: &str) -> (r: bool)
    ensures
        r == contains_spec(haystack@, needle@),
{
    let h = haystack.unicode_len();
    let m = needle.unicode_len();
    if m > h {
        assert forall|at: int| !occurs_at(haystack@, needle@, at) by {}
        return false;
    }
    let last = h - m;
    let mut at: usize = 0;
    loop
        invariant
            h == haystack@.len(),
            m == needle@.len(),
            last == h - m,
            at <= last,
            forall|p: int| 0 <= p < at ==> !occurs_at(haystack@, needle@, p),
        decreases last - at,
    {
        let mut k: usize = 0;
        let mut matched = true;
        while k < m
            invariant
                h == haystack@.len(),
                m == needle@.len(),
                at + m <= h,
                k <= m,
                matched ==> forall|q: int| 0 <= q < k ==> haystack@[at + q] == needle@[q],
                !matched ==> !occurs_at(haystack@, needle@, at as int),
            decreases m - k,
        {
            if haystack.get_char(at + k) != needle.get_char(k) {
                matched = false;
                assert(haystack@.subrange(at as int, at + m)[k as int] != needle@[k as int]);
            }
            k += 1;
        }
        if matched {
            assert(haystack@.subrange(at as int, at + m) =~= needle@);
            assert(occurs_at(haystack@, needle@, at as int));
            return true;
        }
        if at == last {
            assert forall|p: int| !occurs_at(haystack@, needle@, p) by {}
            return false;
        }
        at += 1;
    }
}

/// The separators between words: space, tab, line feed, form feed, carriage return.
pub open spec fn is_blank(c: char) -> bool {
    c == ' ' || c == '\t' || c == '\n' || c == '\x0C' || c == '\r'
}

fn blank(c: char) -> (r: bool)
    ensures
        r == is_blank(c),
{
    c == ' ' || c == '\t' || c == '\n' || c == '\x0C' || c == '\r'
}

/// Where the first word of `s` starts: the first non-blank character (or the end).
pub open spec fn word_start(s: Seq<char>, start: int) -> bool {
    &&& 0 <= start <= s.len()
    &&& forall|i: int| 0 <= i < start ==> is_blank(#[trigger] s[i])
    &&& start < s.len() ==> !is_blank(s[start])
}

/// Where the first word of `s` ends: the first blank character after `start` (or the end).
pub open spec fn word_end(s: Seq<char>, start: int, end: int) -> bool {
    &&& start <= end <= s.len()
    &&& forall|i: int| start <= i < end ==> !is_blank(#[trigger] s[i])
    &&& end < s.len() ==> is_blank(s[end])
}

/// The first word of `s`: characters between the leading blanks and the next blank.
pub open spec fn first_word_spec(s: Seq<char>) -> Seq<char> {
    let start = choose|start: int| word_start(s, start);
    let end = choose|end: int| word_end(s, start, end);
    s.subrange(start, end)
}

/// The first word of `s` is determined by any valid start and end.
pub proof fn lemma_first_word_unique(s: Seq<char>, start: int, end: int)
    requires
        word_start(s, start),
        word_end(s, start, end),
    ensures
        first_word_spec(s) == s.subrange(start, end),
{
    let st = choose|st: int| word_start(s, st);
    assert(word_start(s, st));
    if st < start {
        assert(is_blank(s[st]));
    }
    if start < st {
        assert(is_blank(s[start]));
    }
    let en = choose|en: int| word_end(s, start, en);
    assert(word_end(s, start, en));
    if en < end {
        assert(!is_blank(s[en]));
    }
    if end < en {
        assert(!is_blank(s[end]));
    }
}

/// The first blank-separated word of `s`.
pub fn first_word(s: &str) -> (w: &str)
    ensures
        w@ == first_word_spec(s@),
{
    let n = s.unicode_len();
    let mut start: usize = 0;
    while start < n && blank(s.get_char(start))
        invariant
            n == s@.len(),
            start <= n,
            forall|i: int| 0 <= i < start ==> is_blank(#[trigger] s@[i]),
        decreases n - start,
    {
        start += 1;
    }
    let mut end: usize = start;
    while end < n && !blank(s.get_char(end))
        invariant
            n == s@.len(),
            start <= end <= n,
            forall|i: int| start <= i < end ==> !is_blank(#[trigger] s@[i]),
        decreases n - end,
    {
        end += 1;
    }
    proof {
        lemma_first_word_unique(s@, start as int, end as int);
    }
    s.substring_char(start, end)
}

/// A `core::fmt::Write`-style sink over one buffer of at most `MAX_LEN` bytes.
pub struct SafeWriter {
    buf: Vec<u8>,
}

impl SafeWriter {
    /// The bytes written so far.
    pub closed spec fn bytes(&self) -> Seq<u8> {
        self.buf@
    }

    /// Creates an empty writer.
    pub fn new() -> (w: Self)
        ensures
            w.bytes() == Seq::<u8>::empty(),
    {
        Self { buf: Vec::with_capacity(MAX_LEN) }
    }

    /// Appends the bytes of `s`, dropping whatever would go past `MAX_LEN`.
    pub fn write_str(&mut self, s: &str)
        requires
            old(self).bytes().len() <= MAX_LEN,
        ensures
            final(self).bytes() == clip(old(self).bytes() + s.spec_bytes()),
    {
        push_clipped(&mut self.buf, s.as_bytes());
    }

    /// The text written so far.
    pub fn into_string(self) -> (r: String)
        requires
            valid_utf8(self.bytes()),
        ensures
            string_bytes(r) == self.bytes(),
    {
        build(self.buf)
    }
}

} // verus!

verus! {

/// The character of a digit below 16 (lower-case hexadecimal).
pub open spec fn digit_char(d: nat) -> char {
    if d < 10 {
        (d + 48) as char
    } else {
        (d + 87) as char
    }
}

/// The digits of `n` in base `base`, most significant first, without leading
/// zeros (`"0"` for zero).
pub open spec fn digits(n: nat, base: nat) -> Seq<char>
    decreases n,
{
    if base < 2 || n < base {
        seq![digit_char(n % 16)]
    } else {
        proof {
            assert(n / base < n) by (nonlinear_arith)
                requires
                    base >= 2,
                    n >= base,
            ;
        }
        digits(n / base, base).push(digit_char(n % base))
    }
}

fn digit(d: u32) -> (c: char)
    requires
        d < 16,
    ensures
        c == digit_char(d as nat),
{
    if d < 10 {
        ((d + 48) as u8) as char
    } else {
        ((d + 87) as u8) as char
    }
}

/// Appends the digits of `n` in base `base` (10 or 16), as `{}` or `{:x}` print it.
pub fn push_digits(s: &mut String, n: u32, base: u32)
    requires
        base == 10 || base == 16,
    ensures
        final(s)@ == old(s)@ + digits(n as nat, base as nat),
    decreases n,
{
    if n >= base {
        push_digits(s, n / base, base);
    }
    push_char(s, digit(n % base));
    assert(final(s)@ =~= old(s)@ + digits(n as nat, base as nat));
}

} // verus!

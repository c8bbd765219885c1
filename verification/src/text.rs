//! Text building blocks: decimal rendering, path joining and character pushing.
use vstd::prelude::*;

verus! {

/// The ASCII digit for a value below ten.
pub open spec fn digit_char(d: nat) -> char {
    if d == 0 { '0' }
    else if d == 1 { '1' }
    else if d == 2 { '2' }
    else if d == 3 { '3' }
    else if d == 4 { '4' }
    else if d == 5 { '5' }
    else if d == 6 { '6' }
    else if d == 7 { '7' }
    else if d == 8 { '8' }
    else { '9' }
}

/// Decimal rendering of a natural number, as `{}` formats an unsigned integer.
pub open spec fn decimal(n: nat) -> Seq<char>
    decreases n,
{
    if n < 10 {
        seq![digit_char(n)]
    } else {
        decimal(n / 10).push(digit_char(n % 10))
    }
}

/// Appends one character to a string (`String::push`).
#[verifier::external_body]
pub fn push_char(s: &mut String, c: char)
    ensures
        final(s)@ == old(s)@.push(c),
{
    s.push(c);
}

fn digit_to_char(d: usize) -> (c: char)
    requires
        d < 10,
    ensures
        c == digit_char(d as nat),
{
    if d == 0 { '0' }
    else if d == 1 { '1' }
    else if d == 2 { '2' }
    else if d == 3 { '3' }
    else if d == 4 { '4' }
    else if d == 5 { '5' }
    else if d == 6 { '6' }
    else if d == 7 { '7' }
    else if d == 8 { '8' }
    else { '9' }
}

/// Renders a 64-bit unsigned integer in decimal.
pub fn u64_to_string(n: u64) -> (s: String)
    ensures
        s@ == decimal(n as nat),
    decreases n,
{
    if n < 10 {
        let mut s = String::new();
        let d: usize = (n % 10) as usize;
        push_char(&mut s, digit_to_char(d));
        assert(s@ =~= seq![digit_char(n as nat)]);
        s
    } else {
        let mut s = u64_to_string(n / 10);
        let d: usize = (n % 10) as usize;
        push_char(&mut s, digit_to_char(d));
        s
    }
}

/// Renders an unsigned integer in decimal.
pub fn usize_to_string(n: usize) -> (s: String)
    ensures
        s@ == decimal(n as nat),
    decreases n,
{
    if n < 10 {
        let mut s = String::new();
        push_char(&mut s, digit_to_char(n));
        assert(s@ =~= seq![digit_char(n as nat)]);
        s
    } else {
        let mut s = usize_to_string(n / 10);
        push_char(&mut s, digit_to_char(n % 10));
        s
    }
}

} // verus!

verus! {

/// Byte length of the UTF-8 encoding of a text.
pub open spec fn utf8_len(s: Seq<char>) -> nat {
    vstd::utf8::encode_utf8(s).len()
}

/// The length in bytes of a string slice: the length of its UTF-8 bytes.
pub fn byte_len(s: &str) -> (n: usize)
    ensures
        n as nat == utf8_len(s@),
{
    let b = s.as_bytes();
    proof {
        vstd::slice::axiom_spec_len(b);
    }
    b.len()
}

} // verus!

verus! {

/// Whether two string slices are equal: whether their UTF-8 bytes are.
pub fn str_eq(a: &str, b: &str) -> (r: bool)
    ensures
        r == (a@ == b@),
{
    let x = a.as_bytes();
    let y = b.as_bytes();
    proof {
        vstd::slice::axiom_spec_len(x);
        vstd::slice::axiom_spec_len(y);
    }
    if x.len() != y.len() {
        return false;
    }
    let mut i: usize = 0;
    while i < x.len()
        invariant
            i <= x@.len(),
            x@.len() == y@.len(),
            x@ == vstd::utf8::encode_utf8(a@),
            y@ == vstd::utf8::encode_utf8(b@),
            forall|j: int| 0 <= j < i ==> x@[j] == y@[j],
        decreases x@.len() - i,
    {
        if x[i] != y[i] {
            return false;
        }
        i = i + 1;
    }
    proof {
        assert(x@ =~= y@);
        vstd::utf8::encode_utf8_decode_utf8(a@);
        vstd::utf8::encode_utf8_decode_utf8(b@);
    }
    true
}

/// Whether `prefix` is a prefix of `s`.
pub open spec fn is_prefix(prefix: Seq<char>, s: Seq<char>) -> bool {
    prefix.len() <= s.len() && s.subrange(0, prefix.len() as int) == prefix
}

/// The UTF-8 bytes of joined texts are the bytes of the first followed by those of the second.
proof fn lemma_encode_concat(a: Seq<char>, b: Seq<char>)
    ensures
        vstd::utf8::encode_utf8(a + b) == vstd::utf8::encode_utf8(a) + vstd::utf8::encode_utf8(b),
    decreases a.len(),
{
    if a.len() == 0 {
        assert(a + b =~= b);
        assert(vstd::utf8::encode_utf8(a) + vstd::utf8::encode_utf8(b) =~= vstd::utf8::encode_utf8(b));
    } else {
        assert((a + b).drop_first() =~= a.drop_first() + b);
        assert((a + b)[0] == a[0]);
        lemma_encode_concat(a.drop_first(), b);
        let e0 = vstd::utf8::encode_scalar(a[0] as u32);
        assert(e0 + (vstd::utf8::encode_utf8(a.drop_first()) + vstd::utf8::encode_utf8(b))
            =~= (e0 + vstd::utf8::encode_utf8(a.drop_first())) + vstd::utf8::encode_utf8(b));
    }
}

/// The end of the bytes of a text's first part is a character boundary of the whole.
proof fn lemma_boundary_after(a: Seq<char>, b: Seq<char>)
    ensures
        vstd::utf8::is_char_boundary(vstd::utf8::encode_utf8(a + b), vstd::utf8::encode_utf8(a).len() as int),
    decreases a.len(),
{
    let bytes = vstd::utf8::encode_utf8(a + b);
    vstd::utf8::encode_utf8_valid_utf8(a + b);
    if a.len() > 0 {
        let ab = a + b;
        assert(ab.drop_first() =~= a.drop_first() + b);
        assert(ab[0] == a[0]);
        vstd::utf8::encode_utf8_first_scalar(ab);
        let e0 = vstd::utf8::encode_scalar(a[0] as u32);
        assert(bytes == e0 + vstd::utf8::encode_utf8(ab.drop_first()));
        assert(vstd::utf8::pop_first_scalar(bytes) =~= vstd::utf8::encode_utf8(a.drop_first() + b));
        assert(vstd::utf8::encode_utf8(a) == e0 + vstd::utf8::encode_utf8(a.drop_first()));
        assert(e0.len() > 0);
        lemma_boundary_after(a.drop_first(), b);
        vstd::utf8::encode_utf8_valid_utf8(a.drop_first() + b);
    }
}

/// Whether `s` starts with `prefix`: whether the bytes of `prefix` end at a character boundary of
/// `s` and the text before it is `prefix`.
pub fn starts_with(s: &str, prefix: &str) -> (r: bool)
    ensures
        r == is_prefix(prefix@, s@),
{
    let n = byte_len(prefix);
    let m = byte_len(s);
    proof {
        if is_prefix(prefix@, s@) {
            let t = s@.subrange(prefix@.len() as int, s@.len() as int);
            assert(s@ =~= prefix@ + t);
            lemma_encode_concat(prefix@, t);
            lemma_boundary_after(prefix@, t);
        }
    }
    if n > m {
        return false;
    }
    if !s.is_char_boundary(n) {
        return false;
    }
    let (a, b) = s.split_at(n);
    let r = str_eq(a, prefix);
    proof {
        let bytes = vstd::utf8::encode_utf8(s@);
        vstd::utf8::encode_utf8_valid_utf8(s@);
        vstd::utf8::encode_utf8_decode_utf8(s@);
        vstd::utf8::encode_utf8_decode_utf8(a@);
        vstd::utf8::encode_utf8_decode_utf8(b@);
        vstd::utf8::decode_utf8_split(bytes, n as int);
        assert(s@ == a@ + b@);
        if is_prefix(prefix@, s@) {
            let t = s@.subrange(prefix@.len() as int, s@.len() as int);
            assert(bytes.subrange(0, n as int) =~= vstd::utf8::encode_utf8(prefix@));
            vstd::utf8::encode_utf8_decode_utf8(prefix@);
        }
        if a@ == prefix@ {
            assert(s@.subrange(0, prefix@.len() as int) =~= a@);
        }
    }
    r
}

} // verus!

verus! {

/// The parts joined with `sep` between consecutive parts.
pub open spec fn join(parts: Seq<Seq<char>>, sep: Seq<char>) -> Seq<char>
    decreases parts.len(),
{
    if parts.len() == 0 {
        Seq::empty()
    } else if parts.len() == 1 {
        parts[0]
    } else {
        join(parts.drop_last(), sep) + sep + parts.last()
    }
}

/// Appends `other` to `s`.
pub fn append_str(s: &mut String, other: &str)
    ensures
        final(s)@ == old(s)@ + other@,
{
    s.append(other);
}

} // verus!

verus! {

/// The text made of the first `k` bytes of the UTF-8 encoding of `s`.
pub open spec fn utf8_truncate(s: Seq<char>, k: int) -> Seq<char> {
    vstd::utf8::decode_utf8(vstd::utf8::encode_utf8(s).subrange(0, k))
}

/// Whether byte offset `k` falls between two characters of `s`.
pub open spec fn char_boundary(s: Seq<char>, k: int) -> bool {
    vstd::utf8::is_char_boundary(vstd::utf8::encode_utf8(s), k)
}

/// The first `k` bytes of `s` (`&s[..k]`).
pub fn byte_prefix(s: &str, k: usize) -> (r: &str)
    requires
        char_boundary(s@, k as int),
    ensures
        r@ == utf8_truncate(s@, k as int),
{
    let (a, _b) = s.split_at(k);
    proof {
        vstd::utf8::encode_utf8_decode_utf8(a@);
    }
    a
}

} // verus!

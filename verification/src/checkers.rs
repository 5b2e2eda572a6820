use crate::text::chars_of;
use vstd::prelude::*;

verus! {

/// A digit of base 16, in either case.
pub open spec fn is_hex_digit(c: char) -> bool {
    ('0' <= c && c <= '9') || ('a' <= c && c <= 'f') || ('A' <= c && c <= 'F')
}

/// A digit of base 10.
pub open spec fn is_decimal_digit(c: char) -> bool {
    '0' <= c && c <= '9'
}

/// Every character of `s` is a hexadecimal digit.
pub open spec fn all_hex(s: Seq<char>) -> bool {
    forall|i: int| 0 <= i < s.len() ==> is_hex_digit(#[trigger] s[i])
}

/// Every character of `s` is a decimal digit.
pub open spec fn all_decimal(s: Seq<char>) -> bool {
    forall|i: int| 0 <= i < s.len() ==> is_decimal_digit(#[trigger] s[i])
}

/// A hexadecimal digest of 32 or 40 digits.
pub open spec fn valid_hash(s: Seq<char>) -> bool {
    (s.len() == 32 || s.len() == 40) && all_hex(s)
}

/// A hexadecimal SHA-1 digest: exactly 40 hexadecimal digits.
pub open spec fn valid_sha1_hex(s: Seq<char>) -> bool {
    s.len() == 40 && all_hex(s)
}

/// The scheme prefix of a link line.
pub open spec fn link_prefix() -> Seq<char> {
    seq!['1', '1', '5', ':', '/', '/']
}

/// The fields of `s` around each occurrence of `sep`: a separator opens a new,
/// empty field; any other character joins the field that is open.
pub open spec fn fields(s: Seq<char>, sep: char) -> Seq<Seq<char>>
    decreases s.len(),
{
    if s.len() == 0 {
        seq![Seq::<char>::empty()]
    } else {
        let before = fields(s.drop_last(), sep);
        if s.last() == sep {
            before.push(Seq::<char>::empty())
        } else {
            before.update(before.len() - 1, before.last().push(s.last()))
        }
    }
}

/// A link line: the scheme prefix, at least four `|` separators, a decimal
/// size in the second field and SHA-1 digests in the third and fourth.
pub open spec fn valid_sha1_line(s: Seq<char>) -> bool {
    let f = fields(s, '|');
    &&& s.len() >= link_prefix().len()
    &&& s.take(link_prefix().len() as int) == link_prefix()
    &&& f.len() > 4
    &&& all_decimal(f[1])
    &&& valid_sha1_hex(f[2])
    &&& valid_sha1_hex(f[3])
}

fn is_hex_char(c: char) -> (b: bool)
    ensures
        b == is_hex_digit(c),
{
    (c >= '0' && c <= '9') || (c >= 'a' && c <= 'f') || (c >= 'A' && c <= 'F')
}

fn all_hex_chars(chars: &Vec<char>) -> (b: bool)
    ensures
        b == all_hex(chars@),
{
    let mut i: usize = 0;
    while i < chars.len()
        invariant
            i <= chars.len(),
            forall|j: int| 0 <= j < i ==> is_hex_digit(#[trigger] chars@[j]),
        decreases chars.len() - i,
    {
        if !is_hex_char(chars[i]) {
            return false;
        }
        i += 1;
    }
    true
}

fn all_decimal_chars(chars: &Vec<char>) -> (b: bool)
    ensures
        b == all_decimal(chars@),
{
    let mut i: usize = 0;
    while i < chars.len()
        invariant
            i <= chars.len(),
            forall|j: int| 0 <= j < i ==> is_decimal_digit(#[trigger] chars@[j]),
        decreases chars.len() - i,
    {
        let c = chars[i];
        if !(c >= '0' && c <= '9') {
            return false;
        }
        i += 1;
    }
    true
}

fn has_link_prefix(chars: &Vec<char>) -> (b: bool)
    ensures
        b == (chars@.len() >= link_prefix().len() && chars@.take(link_prefix().len() as int)
            == link_prefix()),
{
    if chars.len() < 6 {
        return false;
    }
    let b = chars[0] == '1' && chars[1] == '1' && chars[2] == '5' && chars[3] == ':' && chars[4]
        == '/' && chars[5] == '/';
    proof {
        let head = chars@.take(6);
        if b {
            assert(head =~= link_prefix());
        } else {
            assert(head[0] == chars@[0] && head[1] == chars@[1] && head[2] == chars@[2]);
            assert(head[3] == chars@[3] && head[4] == chars@[4] && head[5] == chars@[5]);
        }
    }
    b
}

/// The characters of each field of `v`.
spec fn field_views(v: Seq<Vec<char>>) -> Seq<Seq<char>> {
    v.map_values(|f: Vec<char>| f@)
}

fn split_fields(chars: &Vec<char>, sep: char) -> (out: Vec<Vec<char>>)
    ensures
        field_views(out@) == fields(chars@, sep),
{
    let mut done: Vec<Vec<char>> = Vec::new();
    let mut open: Vec<char> = Vec::new();
    let mut i: usize = 0;
    assert(chars@.take(0) =~= Seq::<char>::empty());
    assert(field_views(done@).push(open@) =~= fields(chars@.take(0), sep));
    while i < chars.len()
        invariant
            i <= chars.len(),
            field_views(done@).push(open@) == fields(chars@.take(i as int), sep),
        decreases chars.len() - i,
    {
        let c = chars[i];
        proof {
            let next = chars@.take(i + 1);
            assert(next.drop_last() =~= chars@.take(i as int));
            assert(next.last() == c);
        }
        if c == sep {
            let ghost before = field_views(done@).push(open@);
            done.push(open);
            open = Vec::new();
            assert(field_views(done@) =~= before);
            assert(field_views(done@).push(open@) =~= before.push(Seq::<char>::empty()));
        } else {
            let ghost before = field_views(done@).push(open@);
            open.push(c);
            assert(field_views(done@).push(open@) =~= before.update(
                before.len() - 1,
                before.last().push(c),
            ));
        }
        i += 1;
    }
    assert(chars@.take(i as int) =~= chars@);
    let ghost before = field_views(done@).push(open@);
    done.push(open);
    assert(field_views(done@) =~= before);
    done
}

/// Whether `content` is a hexadecimal digest of 32 or 40 digits.
pub fn is_valid_hash(content: &str) -> (ok: bool)
    ensures
        ok == valid_hash(content@),
{
    let chars = chars_of(content);
    let len = chars.len();
    if len != 32 && len != 40 {
        return false;
    }
    all_hex_chars(&chars)
}

/// Whether `content` is a hexadecimal SHA-1 digest: 40 hexadecimal digits.
pub fn is_valid_sha1_hex(content: &str) -> (ok: bool)
    ensures
        ok == valid_sha1_hex(content@),
{
    let chars = chars_of(content);
    if chars.len() != 40 {
        return false;
    }
    all_hex_chars(&chars)
}

/// Whether every character of `content` is a hexadecimal digit.
pub fn is_valid_hex(content: &str) -> (ok: bool)
    ensures
        ok == all_hex(content@),
{
    let chars = chars_of(content);
    all_hex_chars(&chars)
}

/// Whether `content` is a link line: `115://`, then fields separated by `|`,
/// of which there are at least five, the second a decimal size and the third
/// and fourth SHA-1 digests.
pub fn is_valid_sha1_line(content: &str) -> (ok: bool)
    ensures
        ok == valid_sha1_line(content@),
{
    let chars = chars_of(content);
    if !has_link_prefix(&chars) {
        return false;
    }
    let parts = split_fields(&chars, '|');
    if parts.len() <= 4 {
        return false;
    }
    let ghost f = fields(chars@, '|');
    assert(f[1] == parts@[1]@ && f[2] == parts@[2]@ && f[3] == parts@[3]@);
    all_decimal_chars(&parts[1]) && parts[2].len() == 40 && all_hex_chars(&parts[2])
        && parts[3].len() == 40 && all_hex_chars(&parts[3])
}

} // verus!

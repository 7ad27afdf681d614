//! Character and string primitives used by the sanitize pipeline: the
//! white-space predicate, ASCII case mapping, and trimming, together with
//! the algebraic facts (idempotence, commutation) that the pipeline laws
//! rest on.

use vstd::prelude::*;
use vstd::string::StrSliceExecFns;

verus! {

/// A white-space character, following the Unicode `White_Space` list.
pub open spec fn is_space_char(c: char) -> bool {
    let u = c as u32;
    (9 <= u && u <= 13) || u == 32 || u == 0x85 || u == 0xA0 || u == 0x1680
        || (0x2000 <= u && u <= 0x200A) || u == 0x2028 || u == 0x2029 || u == 0x202F
        || u == 0x205F || u == 0x3000
}

/// Lower-case mapping: ASCII capital letters move down the alphabet,
/// every other character is left as it is.
pub open spec fn lower_char(c: char) -> char {
    if 65 <= c as u32 && c as u32 <= 90 {
        (c as u32 + 32) as char
    } else {
        c
    }
}

/// Upper-case mapping: ASCII small letters move up the alphabet,
/// every other character is left as it is.
pub open spec fn upper_char(c: char) -> char {
    if 97 <= c as u32 && c as u32 <= 122 {
        (c as u32 - 32) as char
    } else {
        c
    }
}

pub fn char_is_space(c: char) -> (r: bool)
    ensures
        r == is_space_char(c),
{
    let u = c as u32;
    (9 <= u && u <= 13) || u == 32 || u == 0x85 || u == 0xA0 || u == 0x1680
        || (0x2000 <= u && u <= 0x200A) || u == 0x2028 || u == 0x2029 || u == 0x202F
        || u == 0x205F || u == 0x3000
}

pub fn char_to_lower(c: char) -> (r: char)
    ensures
        r == lower_char(c),
{
    let u = c as u32;
    if 65 <= u && u <= 90 {
        let v: u32 = u + 32;
        let l: u8 = v as u8;
        proof {
            assert(l as u32 == v) by (bit_vector)
                requires
                    l == v as u8 && v <= 255,
            ;
        }
        let r = l as char;
        proof {
            vstd::utf8::char_u32_cast(r, v);
        }
        r
    } else {
        c
    }
}

pub fn char_to_upper(c: char) -> (r: char)
    ensures
        r == upper_char(c),
{
    let u = c as u32;
    if 97 <= u && u <= 122 {
        let v: u32 = u - 32;
        let l: u8 = v as u8;
        proof {
            assert(l as u32 == v) by (bit_vector)
                requires
                    l == v as u8 && v <= 255,
            ;
        }
        let r = l as char;
        proof {
            vstd::utf8::char_u32_cast(r, v);
        }
        r
    } else {
        c
    }
}

// ----- sequence-level meaning of the built-in sanitizers -----

/// Lower-casing a text maps every character.
pub open spec fn lower_text(s: Seq<char>) -> Seq<char> {
    s.map_values(|c: char| lower_char(c))
}

/// Upper-casing a text maps every character.
pub open spec fn upper_text(s: Seq<char>) -> Seq<char> {
    s.map_values(|c: char| upper_char(c))
}

/// The text with its longest white-space prefix removed.
pub open spec fn trim_front(s: Seq<char>) -> Seq<char>
    decreases s.len(),
{
    if s.len() > 0 && is_space_char(s[0]) {
        trim_front(s.skip(1))
    } else {
        s
    }
}

/// The text with its longest white-space suffix removed.
pub open spec fn trim_back(s: Seq<char>) -> Seq<char>
    decreases s.len(),
{
    if s.len() > 0 && is_space_char(s.last()) {
        trim_back(s.drop_last())
    } else {
        s
    }
}

/// Trimming removes the longest white-space prefix and suffix.
pub open spec fn trim_text(s: Seq<char>) -> Seq<char> {
    trim_back(trim_front(s))
}

// ----- character-level algebra of the case maps -----

/// Lower-casing is idempotent on characters.
pub proof fn lemma_lower_char_idem(c: char)
    ensures
        lower_char(lower_char(c)) == lower_char(c),
{
}

/// Upper-casing is idempotent on characters.
pub proof fn lemma_upper_char_idem(c: char)
    ensures
        upper_char(upper_char(c)) == upper_char(c),
{
}

/// The last case map wins: lower-casing an upper-cased character gives
/// the lower-cased character, and the other way round.
pub proof fn lemma_case_char_absorb(c: char)
    ensures
        lower_char(upper_char(c)) == lower_char(c),
        upper_char(lower_char(c)) == upper_char(c),
{
}

/// Case mapping neither creates nor removes white space.
pub proof fn lemma_case_char_space(c: char)
    ensures
        is_space_char(lower_char(c)) == is_space_char(c),
        is_space_char(upper_char(c)) == is_space_char(c),
{
}

// ----- text-level algebra: idempotence and commutation -----

/// Lower-casing a text is idempotent.
pub proof fn lemma_lower_text_idem(s: Seq<char>)
    ensures
        lower_text(lower_text(s)) == lower_text(s),
{
    assert forall|i: int| 0 <= i < s.len() implies lower_text(lower_text(s))[i] == lower_text(
        s,
    )[i] by {
        lemma_lower_char_idem(s[i]);
    }
    assert(lower_text(lower_text(s)) =~= lower_text(s));
}

/// Upper-casing a text is idempotent.
pub proof fn lemma_upper_text_idem(s: Seq<char>)
    ensures
        upper_text(upper_text(s)) == upper_text(s),
{
    assert forall|i: int| 0 <= i < s.len() implies upper_text(upper_text(s))[i] == upper_text(
        s,
    )[i] by {
        lemma_upper_char_idem(s[i]);
    }
    assert(upper_text(upper_text(s)) =~= upper_text(s));
}

/// The last case map applied to a text wins.
pub proof fn lemma_case_text_absorb(s: Seq<char>)
    ensures
        lower_text(upper_text(s)) == lower_text(s),
        upper_text(lower_text(s)) == upper_text(s),
{
    assert forall|i: int| 0 <= i < s.len() implies lower_text(upper_text(s))[i] == lower_text(
        s,
    )[i] by {
        lemma_case_char_absorb(s[i]);
    }
    assert forall|i: int| 0 <= i < s.len() implies upper_text(lower_text(s))[i] == upper_text(
        s,
    )[i] by {
        lemma_case_char_absorb(s[i]);
    }
    assert(lower_text(upper_text(s)) =~= lower_text(s));
    assert(upper_text(lower_text(s)) =~= upper_text(s));
}

/// A front-trimmed text is empty or starts with a non-space character.
pub proof fn lemma_trim_front_head(s: Seq<char>)
    ensures
        trim_front(s).len() == 0 || !is_space_char(trim_front(s)[0]),
    decreases s.len(),
{
    if s.len() > 0 && is_space_char(s[0]) {
        lemma_trim_front_head(s.skip(1));
    }
}

/// A back-trimmed text is empty or ends with a non-space character.
pub proof fn lemma_trim_back_last(s: Seq<char>)
    ensures
        trim_back(s).len() == 0 || !is_space_char(trim_back(s).last()),
    decreases s.len(),
{
    if s.len() > 0 && is_space_char(s.last()) {
        lemma_trim_back_last(s.drop_last());
    }
}

/// Back-trimming keeps a prefix of the text.
pub proof fn lemma_trim_back_prefix(s: Seq<char>)
    ensures
        trim_back(s).len() <= s.len(),
        trim_back(s) == s.take(trim_back(s).len() as int),
    decreases s.len(),
{
    if s.len() > 0 && is_space_char(s.last()) {
        lemma_trim_back_prefix(s.drop_last());
        assert(s.drop_last().take(trim_back(s).len() as int) =~= s.take(
            trim_back(s).len() as int,
        ));
    } else {
        assert(s.take(s.len() as int) =~= s);
    }
}

/// Trimming a text is idempotent.
pub proof fn lemma_trim_text_idem(s: Seq<char>)
    ensures
        trim_text(trim_text(s)) == trim_text(s),
{
    let f = trim_front(s);
    let t = trim_back(f);
    lemma_trim_front_head(s);
    lemma_trim_back_last(f);
    lemma_trim_back_prefix(f);
    assert(trim_front(t) == t);
    assert(trim_back(t) == t);
}

/// Front-trimming commutes with any character map that keeps the
/// white-space predicate.
pub proof fn lemma_trim_front_map(s: Seq<char>, m: spec_fn(char) -> char)
    requires
        forall|c: char| #[trigger] is_space_char(m(c)) == is_space_char(c),
    ensures
        trim_front(s.map_values(m)) == trim_front(s).map_values(m),
    decreases s.len(),
{
    if s.len() > 0 && is_space_char(s[0]) {
        assert(s.map_values(m).skip(1) =~= s.skip(1).map_values(m));
        lemma_trim_front_map(s.skip(1), m);
    } else if s.len() > 0 {
        assert(s.map_values(m)[0] == m(s[0]));
    }
}

/// Back-trimming commutes with any character map that keeps the
/// white-space predicate.
pub proof fn lemma_trim_back_map(s: Seq<char>, m: spec_fn(char) -> char)
    requires
        forall|c: char| #[trigger] is_space_char(m(c)) == is_space_char(c),
    ensures
        trim_back(s.map_values(m)) == trim_back(s).map_values(m),
    decreases s.len(),
{
    if s.len() > 0 && is_space_char(s.last()) {
        assert(s.map_values(m).last() == m(s.last()));
        assert(s.map_values(m).drop_last() =~= s.drop_last().map_values(m));
        lemma_trim_back_map(s.drop_last(), m);
    } else if s.len() > 0 {
        assert(s.map_values(m).last() == m(s.last()));
    }
}

/// Trimming commutes with lower-casing.
pub proof fn lemma_trim_lower_commute(s: Seq<char>)
    ensures
        trim_text(lower_text(s)) == lower_text(trim_text(s)),
{
    let m = |c: char| lower_char(c);
    assert forall|c: char| #[trigger] is_space_char(m(c)) == is_space_char(c) by {
        lemma_case_char_space(c);
    }
    assert(lower_text(s) =~= s.map_values(m));
    lemma_trim_front_map(s, m);
    assert(trim_front(s).map_values(m) =~= lower_text(trim_front(s)));
    lemma_trim_back_map(trim_front(s), m);
    assert(trim_back(trim_front(s)).map_values(m) =~= lower_text(trim_text(s)));
}

/// Trimming commutes with upper-casing.
pub proof fn lemma_trim_upper_commute(s: Seq<char>)
    ensures
        trim_text(upper_text(s)) == upper_text(trim_text(s)),
{
    let m = |c: char| upper_char(c);
    assert forall|c: char| #[trigger] is_space_char(m(c)) == is_space_char(c) by {
        lemma_case_char_space(c);
    }
    assert(upper_text(s) =~= s.map_values(m));
    lemma_trim_front_map(s, m);
    assert(trim_front(s).map_values(m) =~= upper_text(trim_front(s)));
    lemma_trim_back_map(trim_front(s), m);
    assert(trim_back(trim_front(s)).map_values(m) =~= upper_text(trim_text(s)));
}

// ----- executable primitives on character vectors and strings -----

/// The characters of a string slice, in order.
pub fn string_to_chars(s: &str) -> (r: Vec<char>)
    ensures
        r@ == s@,
{
    let n = s.unicode_len();
    let mut r: Vec<char> = Vec::new();
    let mut i: usize = 0;
    while i < n
        invariant
            i <= n,
            n == s@.len(),
            r@ == s@.take(i as int),
        decreases n - i,
    {
        let c = s.get_char(i);
        r.push(c);
        i += 1;
        proof {
            assert(r@ =~= s@.take(i as int));
        }
    }
    proof {
        assert(s@.take(n as int) =~= s@);
    }
    r
}

/// Relies on `String::push`: appends exactly the given character.
#[verifier::external_body]
fn push_char(s: &mut String, c: char)
    ensures
        final(s)@ == old(s)@.push(c),
{
    s.push(c);
}

/// A string holding exactly the given characters, in order.
pub fn chars_to_string(v: &Vec<char>) -> (r: String)
    ensures
        r@ == v@,
{
    let mut r = String::new();
    let mut i: usize = 0;
    while i < v.len()
        invariant
            i <= v@.len(),
            r@ == v@.take(i as int),
        decreases v@.len() - i,
    {
        push_char(&mut r, v[i]);
        i += 1;
        proof {
            assert(r@ =~= v@.take(i as int));
        }
    }
    proof {
        assert(v@.take(v@.len() as int) =~= v@);
    }
    r
}

/// Lower-cases every character of the vector.
pub fn lower_chars(v: &Vec<char>) -> (r: Vec<char>)
    ensures
        r@ == lower_text(v@),
{
    let mut r: Vec<char> = Vec::new();
    let mut i: usize = 0;
    while i < v.len()
        invariant
            i <= v@.len(),
            r@ == v@.take(i as int).map_values(|c: char| lower_char(c)),
        decreases v@.len() - i,
    {
        r.push(char_to_lower(v[i]));
        i += 1;
        proof {
            assert(r@ =~= v@.take(i as int).map_values(|c: char| lower_char(c)));
        }
    }
    proof {
        assert(v@.take(v@.len() as int) =~= v@);
    }
    r
}

/// Upper-cases every character of the vector.
pub fn upper_chars(v: &Vec<char>) -> (r: Vec<char>)
    ensures
        r@ == upper_text(v@),
{
    let mut r: Vec<char> = Vec::new();
    let mut i: usize = 0;
    while i < v.len()
        invariant
            i <= v@.len(),
            r@ == v@.take(i as int).map_values(|c: char| upper_char(c)),
        decreases v@.len() - i,
    {
        r.push(char_to_upper(v[i]));
        i += 1;
        proof {
            assert(r@ =~= v@.take(i as int).map_values(|c: char| upper_char(c)));
        }
    }
    proof {
        assert(v@.take(v@.len() as int) =~= v@);
    }
    r
}

/// Removes the white-space prefix and suffix of the vector.
pub fn trim_chars(v: &Vec<char>) -> (r: Vec<char>)
    ensures
        r@ == trim_text(v@),
{
    let n = v.len();
    let mut a: usize = 0;
    proof {
        assert(v@.skip(0) =~= v@);
    }
    while a < n && char_is_space(v[a])
        invariant
            a <= n,
            n == v@.len(),
            trim_front(v@) == trim_front(v@.skip(a as int)),
        decreases n - a,
    {
        proof {
            let t = v@.skip(a as int);
            assert(t.len() > 0 && is_space_char(t[0]));
            assert(t.skip(1) =~= v@.skip(a as int + 1));
        }
        a += 1;
    }
    proof {
        let t = v@.skip(a as int);
        assert(t.len() == 0 || !is_space_char(t[0]));
        assert(trim_front(v@) == t);
    }
    let mut b: usize = n;
    while b > a && char_is_space(v[b - 1])
        invariant
            a <= b <= n,
            n == v@.len(),
            trim_front(v@) == v@.skip(a as int),
            trim_back(v@.skip(a as int)) == trim_back(v@.subrange(a as int, b as int)),
        decreases b,
    {
        proof {
            let t = v@.subrange(a as int, b as int);
            assert(t.len() > 0 && is_space_char(t.last()));
            assert(t.drop_last() =~= v@.subrange(a as int, b as int - 1));
        }
        b -= 1;
    }
    proof {
        let t = v@.subrange(a as int, b as int);
        assert(t.len() == 0 || !is_space_char(t.last()));
        assert(trim_text(v@) == t);
    }
    let mut r: Vec<char> = Vec::new();
    let mut i: usize = a;
    while i < b
        invariant
            a <= i <= b <= n,
            n == v@.len(),
            r@ == v@.subrange(a as int, i as int),
        decreases b - i,
    {
        r.push(v[i]);
        i += 1;
        proof {
            assert(r@ =~= v@.subrange(a as int, i as int));
        }
    }
    r
}

/// Removes the white-space prefix and suffix of a string.
pub fn trim_string(s: &String) -> (r: String)
    ensures
        r@ == trim_text(s@),
{
    let v = string_to_chars(s.as_str());
    let t = trim_chars(&v);
    chars_to_string(&t)
}

/// Lower-cases a string.
pub fn lower_string(s: &String) -> (r: String)
    ensures
        r@ == lower_text(s@),
{
    let v = string_to_chars(s.as_str());
    let t = lower_chars(&v);
    chars_to_string(&t)
}

/// Upper-cases a string.
pub fn upper_string(s: &String) -> (r: String)
    ensures
        r@ == upper_text(s@),
{
    let v = string_to_chars(s.as_str());
    let t = upper_chars(&v);
    chars_to_string(&t)
}

} // verus!

//! Decoded readings: an ordered mapping from short field codes (such as
//! `"TMP"` or `"BTN"`) to human-readable string values, together with the
//! verified decimal formatting the payload decoders use to render sensor
//! values.

use vstd::prelude::*;
use vstd::string::StringSliceAdditionalSpecFns;
use vstd::utf8::{decode_utf8, encode_utf8_decode_utf8};

verus! {

/// The character for one decimal digit.
pub open spec fn digit_char(d: int) -> char
    recommends
        0 <= d < 10,
{
    if d == 0 {
        '0'
    } else if d == 1 {
        '1'
    } else if d == 2 {
        '2'
    } else if d == 3 {
        '3'
    } else if d == 4 {
        '4'
    } else if d == 5 {
        '5'
    } else if d == 6 {
        '6'
    } else if d == 7 {
        '7'
    } else if d == 8 {
        '8'
    } else {
        '9'
    }
}

/// The decimal digits of a non-negative number, most significant first.
pub open spec fn dec_digits(n: int) -> Seq<char>
    recommends
        n >= 0,
    decreases n,
{
    if n < 10 {
        seq![digit_char(n)]
    } else {
        dec_digits(n / 10).push(digit_char(n % 10))
    }
}

/// A number of tenths rendered as a decimal fraction, the way a binary
/// floating-point value with this shortest decimal form prints: no
/// fractional part when it is zero.
pub open spec fn tenths_str(t: int) -> Seq<char>
    recommends
        t >= 0,
{
    if t % 10 == 0 {
        dec_digits(t / 10)
    } else {
        dec_digits(t / 10) + seq!['.', digit_char(t % 10)]
    }
}

/// A number of hundredths rendered as a decimal fraction, trailing zeros
/// stripped.
pub open spec fn hundredths_str(h: int) -> Seq<char>
    recommends
        h >= 0,
{
    if h % 100 == 0 {
        dec_digits(h / 100)
    } else if h % 10 == 0 {
        dec_digits(h / 100) + seq!['.', digit_char((h / 10) % 10)]
    } else {
        dec_digits(h / 100) + seq!['.', digit_char((h / 10) % 10), digit_char(h % 10)]
    }
}

/// Append one decimal digit to a string.
fn append_digit(s: &mut String, d: u8)
    requires
        d < 10,
    ensures
        final(s)@ == old(s)@ + seq![digit_char(d as int)],
{
    proof {
        reveal_strlit("0");
        reveal_strlit("1");
        reveal_strlit("2");
        reveal_strlit("3");
        reveal_strlit("4");
        reveal_strlit("5");
        reveal_strlit("6");
        reveal_strlit("7");
        reveal_strlit("8");
        reveal_strlit("9");
    }
    match d {
        0 => s.append("0"),
        1 => s.append("1"),
        2 => s.append("2"),
        3 => s.append("3"),
        4 => s.append("4"),
        5 => s.append("5"),
        6 => s.append("6"),
        7 => s.append("7"),
        8 => s.append("8"),
        _ => s.append("9"),
    }
    proof {
        assert(final(s)@ =~= old(s)@ + seq![digit_char(d as int)]);
    }
}

/// Append the decimal digits of a number to a string.
fn append_dec(s: &mut String, n: u32)
    ensures
        final(s)@ == old(s)@ + dec_digits(n as int),
    decreases n,
{
    if n < 10 {
        append_digit(s, n as u8);
    } else {
        append_dec(s, n / 10);
        append_digit(s, (n % 10) as u8);
        proof {
            assert(final(s)@ =~= old(s)@ + dec_digits(n as int));
        }
    }
}

/// The decimal representation of a number.
pub fn dec_string(n: u32) -> (r: String)
    ensures
        r@ == dec_digits(n as int),
{
    let mut s = String::new();
    append_dec(&mut s, n);
    proof {
        assert(s@ =~= dec_digits(n as int));
    }
    s
}

/// A number of tenths as a decimal-fraction string.
pub fn tenths_string(t: u32) -> (r: String)
    ensures
        r@ == tenths_str(t as int),
{
    proof {
        reveal_strlit(".");
    }
    let mut s = dec_string(t / 10);
    if t % 10 != 0 {
        s.append(".");
        append_digit(&mut s, (t % 10) as u8);
    }
    proof {
        assert(s@ =~= tenths_str(t as int));
    }
    s
}

/// A number of hundredths as a decimal-fraction string.
pub fn hundredths_string(h: u32) -> (r: String)
    ensures
        r@ == hundredths_str(h as int),
{
    proof {
        reveal_strlit(".");
    }
    let mut s = dec_string(h / 100);
    if h % 100 != 0 {
        s.append(".");
        append_digit(&mut s, ((h / 10) % 10) as u8);
        if h % 10 != 0 {
            append_digit(&mut s, (h % 10) as u8);
        }
    }
    proof {
        assert((h / 10) as int % 10 == (h as int / 10) % 10);
        assert(s@ =~= hundredths_str(h as int));
    }
    s
}

/// String equality, decided by comparing the UTF-8 bytes.
pub fn str_eq(a: &str, b: &str) -> (r: bool)
    ensures
        r == (a@ == b@),
{
    let ab = a.as_bytes();
    let bb = b.as_bytes();
    let n = ab.len();
    if n != bb.len() {
        proof {
            broadcast use encode_utf8_decode_utf8;

            assert(a@ != b@);
        }
        return false;
    }
    let mut i: usize = 0;
    while i < n
        invariant
            0 <= i <= n,
            n == ab@.len() == bb@.len(),
            ab@ == a.spec_bytes(),
            bb@ == b.spec_bytes(),
            forall|k: int| 0 <= k < i ==> ab@[k] == bb@[k],
        decreases n - i,
    {
        if ab[i] != bb[i] {
            proof {
                broadcast use encode_utf8_decode_utf8;

                assert(a.spec_bytes() != b.spec_bytes());
                assert(a@ != b@);
            }
            return false;
        }
        i = i + 1;
    }
    proof {
        broadcast use encode_utf8_decode_utf8;

        assert(a.spec_bytes() =~= b.spec_bytes());
        assert(decode_utf8(a.spec_bytes()) == decode_utf8(b.spec_bytes()));
        assert(a@ == b@);
    }
    true
}

/// The index of the first entry with the given key, or `-1` when the key
/// is absent.
pub open spec fn find_key(m: Seq<(Seq<char>, Seq<char>)>, k: Seq<char>) -> int
    decreases m.len(),
{
    if m.len() == 0 {
        -1
    } else if m[0].0 == k {
        0
    } else {
        let r = find_key(m.subrange(1, m.len() as int), k);
        if r < 0 {
            -1
        } else {
            r + 1
        }
    }
}

/// `find_key` finds the first entry carrying the key, and `-1` exactly
/// when no entry carries it.
pub proof fn lemma_find_key(m: Seq<(Seq<char>, Seq<char>)>, k: Seq<char>)
    ensures
        find_key(m, k) == -1 <==> (forall|j: int| 0 <= j < m.len() ==> m[j].0 != k),
        find_key(m, k) != -1 ==> {
            &&& 0 <= find_key(m, k) < m.len()
            &&& m[find_key(m, k)].0 == k
            &&& forall|j: int| 0 <= j < find_key(m, k) ==> m[j].0 != k
        },
    decreases m.len(),
{
    if m.len() == 0 {
    } else if m[0].0 == k {
    } else {
        lemma_find_key(m.subrange(1, m.len() as int), k);
        assert forall|j: int| 1 <= j < m.len() implies m[j].0 == m.subrange(
            1,
            m.len() as int,
        )[j - 1].0 by {}
    }
}

/// An ordered mapping from field codes to rendered values, as produced by
/// the profile-specific payload decoders.  Looking a key up returns the
/// value of its first entry.
#[derive(Debug)]
pub struct ReadingMap {
    entries: Vec<(String, String)>,
}

impl View for ReadingMap {
    type V = Seq<(Seq<char>, Seq<char>)>;

    closed spec fn view(&self) -> Seq<(Seq<char>, Seq<char>)> {
        self.entries@.map_values(|p: (String, String)| (p.0@, p.1@))
    }
}

impl ReadingMap {
    /// An empty mapping.
    pub fn new() -> (r: Self)
        ensures
            r@ == Seq::<(Seq<char>, Seq<char>)>::empty(),
    {
        let r = ReadingMap { entries: Vec::new() };
        proof {
            assert(r@ =~= Seq::<(Seq<char>, Seq<char>)>::empty());
        }
        r
    }

    /// The number of entries.
    pub fn len(&self) -> (r: usize)
        ensures
            r == self@.len(),
    {
        self.entries.len()
    }

    /// Append one field.
    pub fn insert(&mut self, key: &str, value: String)
        ensures
            final(self)@ == old(self)@.push((key@, value@)),
    {
        self.entries.push((key.to_owned(), value));
        proof {
            assert(final(self)@ =~= old(self)@.push((key@, value@)));
        }
    }

    /// The entries, in the order they were inserted.
    pub fn entries(&self) -> (r: &Vec<(String, String)>)
        ensures
            self@ == r@.map_values(|p: (String, String)| (p.0@, p.1@)),
    {
        &self.entries
    }

    /// Look a field code up: the value of the first entry carrying it.
    pub fn get(&self, key: &str) -> (r: Option<&String>)
        ensures
            ({
                let ix = find_key(self@, key@);
                if ix == -1 {
                    r is None
                } else {
                    r matches Some(v) && v@ == self@[ix].1
                }
            }),
    {
        proof {
            lemma_find_key(self@, key@);
        }
        let n = self.entries.len();
        let mut i: usize = 0;
        while i < n
            invariant
                0 <= i <= n,
                n == self@.len(),
                n == self.entries@.len(),
                self@ == self.entries@.map_values(|p: (String, String)| (p.0@, p.1@)),
                forall|j: int| 0 <= j < i ==> self@[j].0 != key@,
            decreases n - i,
        {
            if str_eq(self.entries[i].0.as_str(), key) {
                proof {
                    lemma_find_key(self@, key@);
                    assert(self@[i as int].0 == key@);
                    assert(find_key(self@, key@) == i);
                }
                return Some(&self.entries[i].1);
            }
            i = i + 1;
        }
        proof {
            lemma_find_key(self@, key@);
        }
        None
    }
}

} // verus!

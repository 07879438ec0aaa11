use vstd::prelude::*;
use vstd::utf8::decode_utf8;
use vstd::utf8::valid_utf8;

verus! {

/// The character of a decimal digit.
pub open spec fn digit_char(d: nat) -> char {
    seq!['0', '1', '2', '3', '4', '5', '6', '7', '8', '9'][d as int]
}

/// The decimal digits of a natural number, most significant first, with no
/// leading zero.
pub open spec fn spec_digits(n: nat) -> Seq<char>
    decreases n,
{
    if n < 10 {
        seq![digit_char(n)]
    } else {
        spec_digits(n / 10) + seq![digit_char(n % 10)]
    }
}

/// The decimal text of an integer, as Rust's `Display` writes it: an optional
/// minus sign followed by the digits of its magnitude.
pub open spec fn spec_decimal(n: int) -> Seq<char> {
    if n < 0 {
        seq!['-'] + spec_digits((-n) as nat)
    } else {
        spec_digits(n as nat)
    }
}

/// The one-character text of a decimal digit.
fn digit_str(d: u32) -> (r: &'static str)
    requires
        d < 10,
    ensures
        r@ == seq![digit_char(d as nat)],
{
    proof {
        reveal_strlit("0");
        reveal_strlit("1");
        reveal_strlit("2");
        reveal_strlit("3");
        reveal_strlit("4");
        reveal_strlit("5");
        reveal_strlit("6");
        reveal_strlit("7");
        reveal_strlit("8");
        reveal_strlit("9");
    }
    if d == 0 {
        "0"
    } else if d == 1 {
        "1"
    } else if d == 2 {
        "2"
    } else if d == 3 {
        "3"
    } else if d == 4 {
        "4"
    } else if d == 5 {
        "5"
    } else if d == 6 {
        "6"
    } else if d == 7 {
        "7"
    } else if d == 8 {
        "8"
    } else {
        "9"
    }
}

/// Appends the decimal digits of `n` to `s`.
fn push_digits(s: &mut String, n: u64)
    ensures
        final(s)@ == old(s)@ + spec_digits(n as nat),
    decreases n,
{
    if n >= 10 {
        push_digits(s, n / 10);
    }
    s.append(digit_str((n % 10) as u32));
    assert(spec_digits(n as nat) == if n < 10 {
        seq![digit_char(n as nat)]
    } else {
        spec_digits((n / 10) as nat) + seq![digit_char((n % 10) as nat)]
    });
}

/// The decimal text of `n`, as `Display` writes an `i32`.
pub fn decimal_string(n: i32) -> (r: String)
    ensures
        r@ == spec_decimal(n as int),
{
    let mut s = String::new();
    if n < 0 {
        proof {
            reveal_strlit("-");
        }
        s.append("-");
        let magnitude: u32 = if n == i32::MIN {
            2147483648u32
        } else {
            (-n) as u32
        };
        push_digits(&mut s, magnitude as u64);
    } else {
        push_digits(&mut s, n as u64);
    }
    s
}

/// The decimal text of `n`, as `Display` writes an unsigned integer.
pub fn decimal_u64(n: u64) -> (r: String)
    ensures
        r@ == spec_decimal(n as int),
{
    let mut s = String::new();
    push_digits(&mut s, n);
    s
}

/// `s` right-aligned in a field of `width` characters: padded on the left
/// with spaces when it is shorter, as `{:width}` writes a number.
pub open spec fn spec_right_aligned(s: Seq<char>, width: nat) -> Seq<char> {
    if s.len() < width {
        Seq::new((width - s.len()) as nat, |i: int| ' ') + s
    } else {
        s
    }
}

/// Right-aligning `s` in a field of `width` characters gives a text of
/// exactly `width` characters when `s` is shorter (and `s` itself otherwise):
/// spaces followed by `s`.
pub proof fn lemma_right_aligned_fills_the_field(s: Seq<char>, width: nat)
    ensures
        spec_right_aligned(s, width).len() == if s.len() < width {
            width
        } else {
            s.len()
        },
        spec_right_aligned(s, width).subrange(
            spec_right_aligned(s, width).len() - s.len(),
            spec_right_aligned(s, width).len() as int,
        ) == s,
        forall|i: int|
            0 <= i < spec_right_aligned(s, width).len() - s.len() ==> spec_right_aligned(
                s,
                width,
            )[i] == ' ',
{
    let r = spec_right_aligned(s, width);
    assert(r.subrange(r.len() - s.len(), r.len() as int) =~= s);
}

/// Appends `s` to `out`, right-aligned in a field of `width` characters.
pub fn push_right_aligned(out: &mut String, s: &str, width: usize)
    ensures
        final(out)@ == old(out)@ + spec_right_aligned(s@, width as nat),
{
    proof {
        reveal_strlit(" ");
    }
    let len = s.unicode_len();
    let ghost start = out@;
    if len < width {
        let pad = width - len;
        let mut i: usize = 0;
        while i < pad
            invariant
                i <= pad,
                out@ == start + Seq::new(i as nat, |k: int| ' '),
            decreases pad - i,
        {
            out.append(" ");
            i = i + 1;
            proof {
                reveal_strlit(" ");
            }
            assert(Seq::new(i as nat, |k: int| ' ') =~= Seq::new((i - 1) as nat, |k: int| ' ')
                + " "@);
        }
    }
    out.append(s);
    assert(out@ =~= start + spec_right_aligned(s@, width as nat));
}

/// Whether a text can be handed to libhxcfe as a C string: `CString::new`
/// refuses a text holding a 0 byte, and a UTF-8 text holds a 0 byte exactly
/// where it holds the character U+0000.
pub open spec fn spec_c_compatible(s: &str) -> bool {
    !s@.contains('\0')
}

/// Checks that a text holds no U+0000 character, so that it can be passed to
/// libhxcfe as a C string.
pub fn c_compatible(s: &str) -> (r: bool)
    ensures
        r == spec_c_compatible(s),
{
    broadcast use vstd::string::axiom_spec_iter;

    for c in it: s.chars()
        invariant
            it.seq() == s@,
            forall|j: int| 0 <= j < it.index() ==> s@[j] != '\0',
    {
        if c == '\0' {
            assert(s@[it.index() as int] == '\0');
            return false;
        }
    }
    proof {
        if s@.contains('\0') {
            let k = choose|k: int| 0 <= k < s@.len() && s@[k] == '\0';
            assert(s@[k] != '\0');
        }
    }
    true
}

/// `std::str::from_utf8`, which reads bytes as a text exactly when they are
/// valid UTF-8; the text is then the characters they encode. The contract
/// states that, as the standard library documents it, over vstd's UTF-8
/// definitions.
#[verifier::external_body]
fn utf8_text(bytes: &[u8]) -> (r: Option<&str>)
    ensures
        r is Some <==> valid_utf8(bytes@),
        r matches Some(s) ==> s@ == decode_utf8(bytes@),
{
    std::str::from_utf8(bytes).ok()
}

/// The text of a C string that libhxcfe returned, given its bytes (`None`
/// for a null pointer): the characters the bytes encode, or the empty text
/// when there is no string or its bytes are not valid UTF-8.
pub open spec fn spec_c_text(bytes: Option<Seq<u8>>) -> Seq<char> {
    match bytes {
        Some(b) => if valid_utf8(b) {
            decode_utf8(b)
        } else {
            Seq::empty()
        },
        None => Seq::empty(),
    }
}

/// Reads a C string that libhxcfe returned, given its bytes (`None` for a
/// null pointer): its text, or "" for no string or bytes that are not UTF-8.
pub fn c_text<'a>(bytes: Option<&'a [u8]>) -> (r: &'a str)
    ensures
        r@ == spec_c_text(
            match bytes {
                Some(b) => Some(b@),
                None => None,
            },
        ),
{
    proof {
        reveal_strlit("");
    }
    match bytes {
        Some(b) => match utf8_text(b) {
            Some(s) => s,
            None => "",
        },
        None => "",
    }
}


/// `s` ends with `t`.
pub open spec fn ends_with(s: Seq<char>, t: Seq<char>) -> bool {
    t.len() <= s.len() && s.subrange(s.len() - t.len(), s.len() as int) == t
}

/// `t` occurs in `s` starting at position `i`.
pub open spec fn infix_at(s: Seq<char>, t: Seq<char>, i: int) -> bool {
    0 <= i && i + t.len() <= s.len() && s.subrange(i, i + t.len()) == t
}

/// `t` occurs somewhere in `s`.
pub open spec fn has_infix(s: Seq<char>, t: Seq<char>) -> bool {
    exists|i: int| #[trigger] infix_at(s, t, i)
}

/// A text that ends with `t` has the last character of `t` as its own last character.
pub proof fn lemma_ends_with_last(s: Seq<char>, t: Seq<char>)
    requires
        ends_with(s, t),
        t.len() > 0,
    ensures
        s[s.len() - 1] == t[t.len() - 1],
{
    assert(s.subrange(s.len() - t.len(), s.len() as int)[t.len() - 1] == s[s.len() - 1]);
}

/// A text in which some character of `t` never occurs does not contain `t`.
pub proof fn lemma_missing_char_no_infix(s: Seq<char>, t: Seq<char>, k: int)
    requires
        0 <= k < t.len(),
        forall|j: int| 0 <= j < s.len() ==> s[j] != t[k],
    ensures
        !has_infix(s, t),
{
    if has_infix(s, t) {
        let i = choose|i: int| #[trigger] infix_at(s, t, i);
        assert(s.subrange(i, i + t.len())[k] == s[i + k]);
    }
}

} // verus!

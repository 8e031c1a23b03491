//! Token symbols: short ASCII strings held in a fixed-size byte array.
use crate::text::{decimal, push_all, push_str, string_from_chars, u64_decimal};
use vstd::prelude::*;

verus! {

/// The most bytes that a symbol can have.
pub const MAX_SYMBOL_BYTES: usize = 10;

/// Whether a byte may occur in a symbol: NUL (padding) or a graphic ASCII character.
pub open spec fn valid_symbol_byte(b: u8) -> bool {
    b == 0 || (0x21 <= b && b <= 0x7e)
}

/// The first `MAX_SYMBOL_BYTES` bytes of `b`, padded with zeros.
pub open spec fn padded_bytes(b: Seq<u8>) -> Seq<u8> {
    Seq::new(10, |i: int| if i < b.len() { b[i] } else { 0u8 })
}

/// The bytes of `s` up to (not including) the first NUL.
pub open spec fn until_nul(s: Seq<u8>) -> Seq<u8>
    decreases s.len(),
{
    if s.len() == 0 || s[0] == 0 {
        Seq::empty()
    } else {
        seq![s[0]] + until_nul(s.drop_first())
    }
}

/// The text of a symbol: its bytes up to the first NUL, each read as a character.
pub open spec fn symbol_text(s: Seq<u8>) -> Seq<char> {
    until_nul(s).map_values(|b: u8| b as char)
}

/// The decimal renderings of the bytes, separated by `, `.
pub open spec fn joined_decimals(s: Seq<u8>) -> Seq<char>
    decreases s.len(),
{
    if s.len() == 0 {
        Seq::empty()
    } else if s.len() == 1 {
        decimal(s[0] as nat)
    } else {
        joined_decimals(s.drop_last()) + ", "@ + decimal(s.last() as nat)
    }
}

/// How a byte array prints with `{:?}`: `[68, 65, 79, 0]`.
pub open spec fn bytes_debug(s: Seq<u8>) -> Seq<char> {
    "["@ + joined_decimals(s) + "]"@
}

/// The message with which a symbol of `len` bytes is refused as too long.
pub open spec fn too_long_message(len: nat) -> Seq<char> {
    "Symbol must not exceed 10 bytes or characters, got "@ + decimal(len) + " bytes."@
}

/// The message with which symbol bytes holding a forbidden byte are refused.
pub open spec fn not_graphic_message(bytes: Seq<u8>) -> Seq<char> {
    "Symbol must be ASCII and graphic; got "@ + bytes_debug(bytes)
}

/// What validating the text with the given UTF-8 bytes as a symbol gives:
/// its bytes padded to `MAX_SYMBOL_BYTES`, or the message of the refusal.
pub open spec fn symbol_check(bytes: Seq<u8>) -> Result<Seq<u8>, Seq<char>> {
    if bytes.len() > 10 {
        Err(too_long_message(bytes.len()))
    } else if forall|i: int| 0 <= i < 10 ==> valid_symbol_byte(#[trigger] padded_bytes(bytes)[i]) {
        Ok(padded_bytes(bytes))
    } else {
        Err(not_graphic_message(padded_bytes(bytes)))
    }
}

/// A validated symbol, such as `CHAT` or `ICP`: at most `MAX_SYMBOL_BYTES`
/// graphic ASCII bytes, padded with NULs.
#[derive(Clone, Copy, Debug, PartialEq, Eq)]
pub struct ValidatedSymbol {
    repr: [u8; 10],
}

impl View for ValidatedSymbol {
    type V = Seq<u8>;

    closed spec fn view(&self) -> Seq<u8> {
        self.repr@
    }
}

/// Whether the bytes can be those of a symbol: `MAX_SYMBOL_BYTES` of them, each
/// NUL or graphic ASCII.
pub open spec fn valid_symbol_bytes(s: Seq<u8>) -> bool {
    s.len() == 10 && forall|i: int| 0 <= i < 10 ==> valid_symbol_byte(#[trigger] s[i])
}

impl ValidatedSymbol {
    #[verifier::type_invariant]
    closed spec fn well_formed(self) -> bool {
        valid_symbol_bytes(self.repr@)
    }
}

/// Copies the first `MAX_SYMBOL_BYTES` bytes of `input` into a zero-padded array.
pub fn take_bytes(input: &str) -> (result: [u8; 10])
    ensures
        result@ == padded_bytes(vstd::utf8::encode_utf8(input@)),
{
    let bytes = input.as_bytes();
    let copy_len = if bytes.len() < MAX_SYMBOL_BYTES {
        bytes.len()
    } else {
        MAX_SYMBOL_BYTES
    };
    let mut result = [0u8; 10];
    let mut i: usize = 0;
    while i < copy_len
        invariant
            copy_len <= 10,
            copy_len <= bytes@.len(),
            copy_len == bytes@.len() || copy_len == 10,
            bytes@ == vstd::utf8::encode_utf8(input@),
            i <= copy_len,
            forall|j: int| 0 <= j < i ==> result[j] == bytes@[j],
            forall|j: int| i <= j < 10 ==> result[j] == 0,
        decreases copy_len - i,
    {
        result[i] = bytes[i];
        i = i + 1;
    }
    assert(result@ =~= padded_bytes(vstd::utf8::encode_utf8(input@)));
    result
}

/// Whether the byte may occur in a symbol.
pub fn is_valid_symbol_character(b: &u8) -> (res: bool)
    ensures
        res == valid_symbol_byte(*b),
{
    *b == 0 || (0x21 <= *b && *b <= 0x7e)
}

/// The text of the symbol bytes: up to the first NUL, each byte read as a character.
pub fn bytes_to_string(bytes: &[u8]) -> (s: String)
    ensures
        s@ == symbol_text(bytes@),
{
    let mut out: Vec<char> = Vec::new();
    let mut i: usize = 0;
    while i < bytes.len() && bytes[i] != 0
        invariant
            i <= bytes@.len(),
            forall|j: int| 0 <= j < i ==> bytes@[j] != 0,
            out@ == bytes@.take(i as int).map_values(|b: u8| b as char),
        decreases bytes@.len() - i,
    {
        out.push(bytes[i] as char);
        i = i + 1;
        assert(bytes@.take(i as int).map_values(|b: u8| b as char) =~= bytes@.take(
            i - 1,
        ).map_values(|b: u8| b as char).push(bytes@[i - 1] as char));
    }
    proof {
        lemma_until_nul(bytes@, i as int);
    }
    string_from_chars(&out)
}

proof fn lemma_until_nul(s: Seq<u8>, i: int)
    requires
        0 <= i <= s.len(),
        forall|j: int| 0 <= j < i ==> s[j] != 0,
        i == s.len() || s[i] == 0,
    ensures
        until_nul(s) == s.take(i),
    decreases s.len(),
{
    if i == 0 {
        assert(s.take(0) =~= Seq::<u8>::empty());
    } else {
        lemma_until_nul(s.drop_first(), i - 1);
        assert(s.take(i) =~= seq![s[0]] + s.drop_first().take(i - 1));
    }
}

/// Whether `t` can be the text of a symbol: at most `MAX_SYMBOL_BYTES`
/// characters, each graphic ASCII.
pub open spec fn is_symbol_text(t: Seq<char>) -> bool {
    t.len() <= 10 && forall|i: int| 0 <= i < t.len() ==> '!' <= #[trigger] t[i] <= '~'
}

/// Whether nothing but NUL follows the first NUL of the symbol bytes.
pub open spec fn nul_padded(s: Seq<u8>) -> bool {
    forall|i: int, j: int| 0 <= i < j < s.len() && #[trigger] s[i] == 0 ==> #[trigger] s[j] == 0
}

proof fn lemma_ascii_char_byte(c: char)
    requires
        (c as u32) < 128,
    ensures
        ((c as u8) as char) == c,
        (c as u8) as u32 == c as u32,
{
    let u = c as u32;
    assert((u as u8) as u32 == u) by (bit_vector)
        requires
            u < 128,
    ;
    assert((c as u8) == (u as u8));
}

/// Validating a symbol text and printing the symbol gives the text back.
pub proof fn lemma_symbol_text_round_trip(t: Seq<char>)
    requires
        is_symbol_text(t),
    ensures
        symbol_check(vstd::utf8::encode_utf8(t)) matches Ok(b) && symbol_text(b) == t,
{
    assert(vstd::utf8::is_ascii_chars(t));
    vstd::utf8::is_ascii_chars_encode_utf8(t);
    let e = vstd::utf8::encode_utf8(t);
    let b = padded_bytes(e);
    assert forall|i: int| 0 <= i < t.len() implies #[trigger] b[i] == t[i] as u8 && (t[i] as u8)
        as char == t[i] && 0x21 <= b[i] <= 0x7e by {
        lemma_ascii_char_byte(t[i]);
        assert(e[i] == t[i] as u8);
    }
    assert(forall|i: int| 0 <= i < 10 ==> valid_symbol_byte(#[trigger] b[i]));
    lemma_until_nul(b, t.len() as int);
    assert(symbol_text(b) =~= t);
}

/// Printing a validated symbol whose bytes are NUL-padded, and validating the
/// text, gives the same symbol bytes back.
pub proof fn lemma_symbol_bytes_round_trip(s: Seq<u8>)
    requires
        s.len() == 10,
        forall|i: int| 0 <= i < 10 ==> valid_symbol_byte(#[trigger] s[i]),
        nul_padded(s),
    ensures
        symbol_check(vstd::utf8::encode_utf8(symbol_text(s))) == Ok::<Seq<u8>, Seq<char>>(s),
{
    lemma_until_nul_prefix(s);
    let k = until_nul(s).len() as int;
    let t = symbol_text(s);
    assert forall|j: int| 0 <= j < k implies #[trigger] t[j] == (s[j] as char) && (t[j] as u8)
        == s[j] && '!' <= t[j] <= '~' by {
        lemma_byte_char(s[j]);
    }
    lemma_symbol_text_round_trip(t);
    vstd::utf8::is_ascii_chars_encode_utf8(t);
    let e = vstd::utf8::encode_utf8(t);
    assert forall|i: int| 0 <= i < 10 implies #[trigger] padded_bytes(e)[i] == s[i] by {
        if i < k {
            assert(e[i] == t[i] as u8);
        } else if i > k {
            assert(s[k] == 0);
        }
    }
    assert(padded_bytes(e) =~= s);
}

proof fn lemma_byte_char(b: u8)
    requires
        0x21 <= b <= 0x7e,
    ensures
        ((b as char) as u8) == b,
        '!' <= (b as char) <= '~',
{
    assert(((b as char) as u32) == b as u32);
    let c = b as char;
    let u = c as u32;
    assert((u as u8) as u32 == u) by (bit_vector)
        requires
            u < 128,
    ;
    assert((c as u8) == (u as u8));
}

proof fn lemma_until_nul_prefix(s: Seq<u8>)
    ensures
        until_nul(s).len() <= s.len(),
        until_nul(s) == s.take(until_nul(s).len() as int),
        forall|j: int| 0 <= j < until_nul(s).len() ==> #[trigger] s[j] != 0,
        until_nul(s).len() == s.len() || s[until_nul(s).len() as int] == 0,
    decreases s.len(),
{
    if s.len() > 0 && s[0] != 0 {
        let d = s.drop_first();
        lemma_until_nul_prefix(d);
        assert(until_nul(s) =~= s.take(until_nul(s).len() as int));
        assert forall|j: int| 0 <= j < until_nul(s).len() implies #[trigger] s[j] != 0 by {
            if j > 0 {
                assert(s[j] == d[j - 1]);
            }
        }
    }
}

/// The `{:?}` rendering of a byte array.
fn debug_bytes(bytes: &[u8; 10]) -> (chars: Vec<char>)
    ensures
        chars@ == bytes_debug(bytes@),
{
    let mut inner: Vec<char> = Vec::new();
    let mut i: usize = 0;
    while i < 10
        invariant
            i <= 10,
            bytes@.len() == 10,
            inner@ == joined_decimals(bytes@.take(i as int)),
        decreases 10 - i,
    {
        let ghost prev = bytes@.take(i as int);
        if i > 0 {
            push_str(&mut inner, ", ");
        }
        let d = u64_decimal(bytes[i] as u64);
        push_all(&mut inner, &d);
        i = i + 1;
        proof {
            let cur = bytes@.take(i as int);
            assert(cur.drop_last() =~= prev);
            assert(cur.last() == bytes@[i - 1]);
            if i == 1 {
                assert(inner@ =~= joined_decimals(cur));
            } else {
                assert(inner@ =~= joined_decimals(cur));
            }
        }
    }
    assert(bytes@.take(10) =~= bytes@);
    let mut out: Vec<char> = Vec::new();
    push_str(&mut out, "[");
    push_all(&mut out, &inner);
    push_str(&mut out, "]");
    out
}

impl ValidatedSymbol {
    /// Accepts the bytes when each is NUL or graphic ASCII.
    pub fn try_from_bytes(value: [u8; 10]) -> (res: Result<ValidatedSymbol, String>)
        ensures
            match res {
                Ok(sym) => sym@ == value@ && forall|i: int|
                    0 <= i < 10 ==> valid_symbol_byte(#[trigger] value@[i]),
                Err(msg) => !(forall|i: int| 0 <= i < 10 ==> valid_symbol_byte(#[trigger] value@[i]))
                    && msg@ == not_graphic_message(value@),
            },
    {
        let mut i: usize = 0;
        while i < 10
            invariant
                i <= 10,
                forall|j: int| 0 <= j < i ==> valid_symbol_byte(#[trigger] value@[j]),
            decreases 10 - i,
        {
            if !is_valid_symbol_character(&value[i]) {
                let mut msg: Vec<char> = Vec::new();
                push_str(&mut msg, "Symbol must be ASCII and graphic; got ");
                let d = debug_bytes(&value);
                push_all(&mut msg, &d);
                return Err(string_from_chars(&msg));
            }
            i = i + 1;
        }
        Ok(ValidatedSymbol { repr: value })
    }

    /// Accepts text of at most `MAX_SYMBOL_BYTES` bytes, each graphic ASCII.
    pub fn try_from_str(value: &str) -> (res: Result<ValidatedSymbol, String>)
        ensures
            match res {
                Ok(sym) => symbol_check(vstd::utf8::encode_utf8(value@)) == Ok::<Seq<u8>, Seq<char>>(sym@),
                Err(msg) => symbol_check(vstd::utf8::encode_utf8(value@)) == Err::<Seq<u8>, Seq<char>>(msg@),
            },
    {
        let len = value.as_bytes().len();
        if len > MAX_SYMBOL_BYTES {
            let mut msg: Vec<char> = Vec::new();
            push_str(&mut msg, "Symbol must not exceed 10 bytes or characters, got ");
            let d = u64_decimal(len as u64);
            push_all(&mut msg, &d);
            push_str(&mut msg, " bytes.");
            return Err(string_from_chars(&msg));
        }
        let bytes = take_bytes(value);
        let res = Self::try_from_bytes(bytes);
        proof {
            let p = padded_bytes(vstd::utf8::encode_utf8(value@));
            assert(bytes@ == p);
            if forall|i: int| 0 <= i < 10 ==> valid_symbol_byte(#[trigger] p[i]) {
                assert(forall|i: int| 0 <= i < 10 ==> valid_symbol_byte(#[trigger] bytes@[i]));
            } else {
                let k = choose|i: int| 0 <= i < 10 && !valid_symbol_byte(#[trigger] p[i]);
                assert(!valid_symbol_byte(bytes@[k]));
            }
        }
        res
    }

    /// Accepts text of at most `MAX_SYMBOL_BYTES` bytes, each graphic ASCII.
    pub fn try_from_string(value: String) -> (res: Result<ValidatedSymbol, String>)
        ensures
            match res {
                Ok(sym) => symbol_check(vstd::utf8::encode_utf8(value@)) == Ok::<Seq<u8>, Seq<char>>(sym@),
                Err(msg) => symbol_check(vstd::utf8::encode_utf8(value@)) == Err::<Seq<u8>, Seq<char>>(
                    msg@,
                ),
            },
    {
        Self::try_from_str(value.as_str())
    }

    /// The bytes of the symbol.
    pub fn bytes(&self) -> (b: [u8; 10])
        ensures
            b@ == self@,
            valid_symbol_bytes(b@),
    {
        proof {
            use_type_invariant(self);
        }
        self.repr
    }

    /// Whether two symbols are the same.
    pub fn same_as(&self, other: &ValidatedSymbol) -> (res: bool)
        ensures
            res == (self@ == other@),
    {
        let mut i: usize = 0;
        while i < 10
            invariant
                i <= 10,
                self.repr@.len() == 10 && other.repr@.len() == 10,
                forall|j: int| 0 <= j < i ==> self.repr@[j] == other.repr@[j],
            decreases 10 - i,
        {
            if self.repr[i] != other.repr[i] {
                return false;
            }
            i = i + 1;
        }
        assert(self.repr@ =~= other.repr@);
        true
    }

    /// The text of the symbol, e.g. `ICP`.
    pub fn to_string(&self) -> (s: String)
        ensures
            s@ == symbol_text(self@),
    {
        bytes_to_string(self.repr.as_slice())
    }
}

} // verus!

//! Numbering the steps of an operation, and bounding the text kept in the audit trail.
use crate::text::{str_chars, string_from_chars};
use crate::types::{Operation, Step, TreasuryManagerOperation};
use vstd::prelude::*;

verus! {

/// The most characters of a reply that the audit trail keeps.
pub const MAX_REPLY_SIZE_BYTES: usize = 1_024;

/// Counts the calls made on behalf of one operation.
#[derive(Clone, Copy)]
pub struct OperationContext {
    operation: Operation,
    /// `None` until the first call.
    index: Option<usize>,
}

impl View for OperationContext {
    type V = (Operation, Option<usize>);

    closed spec fn view(&self) -> (Operation, Option<usize>) {
        (self.operation, self.index)
    }
}

/// The step index that the next call gets.
pub open spec fn next_index(index: Option<usize>) -> usize {
    match index {
        Some(i) => i,
        None => 0,
    }
}

/// The counter after a call.
pub open spec fn advanced_index(index: Option<usize>) -> Option<usize> {
    let i = next_index(index);
    if i < usize::MAX {
        Some((i + 1) as usize)
    } else {
        Some(usize::MAX)
    }
}

impl OperationContext {
    /// A context for `operation` in which no call has been made yet.
    pub fn new(operation: Operation) -> (ctx: OperationContext)
        ensures
            ctx@ == (operation, None::<usize>),
    {
        OperationContext { operation, index: None }
    }

    /// The operation this context counts for.
    pub fn operation(&self) -> (op: Operation)
        ensures
            op == self@.0,
    {
        self.operation
    }

    /// The step of the next call, which is never the final one; the counter
    /// moves on by one (and stays at its maximum once there).
    pub fn next_operation(&mut self) -> (op: TreasuryManagerOperation)
        ensures
            op == (TreasuryManagerOperation {
                operation: old(self)@.0,
                step: Step { index: next_index(old(self)@.1), is_final: false },
            }),
            final(self)@ == (old(self)@.0, advanced_index(old(self)@.1)),
    {
        let operation = self.operation;
        let index = match self.index {
            Some(i) => i,
            None => 0,
        };
        self.index = Some(index.saturating_add(1));
        let step = Step { index, is_final: false };
        TreasuryManagerOperation { operation, step }
    }
}

/// The calls of an operation get the step indices 0, 1, 2, ... in turn: the
/// first call gets 0, and each call the index after that of the call before,
/// until the counter reaches its maximum, where it stays.
pub proof fn lemma_steps_are_numbered_in_turn(index: Option<usize>)
    ensures
        next_index(None) == 0,
        next_index(index) < usize::MAX ==> next_index(advanced_index(index)) == next_index(index)
            + 1,
        next_index(index) == usize::MAX ==> next_index(advanced_index(index)) == usize::MAX,
{
}

/// `s` bounded to `max_len` characters: unchanged when it fits; else, for a
/// bound of at most three, its first `max_len` characters; else its head and
/// its tail around `...`, the head taking the larger half of what is left.
pub open spec fn clamped(s: Seq<char>, max_len: nat) -> Seq<char> {
    if max_len <= 3 {
        s.take(if s.len() < max_len { s.len() as int } else { max_len as int })
    } else if s.len() <= max_len {
        s
    } else {
        let content_len = max_len - 3;
        let tail_len = content_len / 2;
        let head_len = content_len - tail_len;
        s.take(head_len) + seq!['.', '.', '.'] + s.skip(s.len() - tail_len)
    }
}

/// Returns `s` bounded to `max_len` characters, removing middle characters.
pub fn clamp_string_len(s: &str, max_len: usize) -> (res: String)
    ensures
        res@ == clamped(s@, max_len as nat),
        res@.len() <= max_len,
        s@.len() <= max_len ==> res@ == s@,
{
    let chars = str_chars(s);
    let n = chars.len();
    let mut out: Vec<char> = Vec::new();
    if max_len <= 3 {
        let take = if n < max_len { n } else { max_len };
        let mut i: usize = 0;
        while i < take
            invariant
                take <= n == chars@.len(),
                i <= take,
                out@ == chars@.take(i as int),
            decreases take - i,
        {
            out.push(chars[i]);
            i = i + 1;
            assert(chars@.take(i as int) =~= chars@.take(i - 1).push(chars@[i - 1]));
        }
        return string_from_chars(&out);
    }
    if n <= max_len {
        return string_from_chars(&chars);
    }
    let content_len = max_len - 3;
    let tail_len = content_len / 2;
    let head_len = content_len - tail_len;
    let tail_begin = n - tail_len;
    let mut i: usize = 0;
    while i < head_len
        invariant
            head_len < n == chars@.len(),
            i <= head_len,
            out@ == chars@.take(i as int),
        decreases head_len - i,
    {
        out.push(chars[i]);
        i = i + 1;
        assert(chars@.take(i as int) =~= chars@.take(i - 1).push(chars@[i - 1]));
    }
    out.push('.');
    out.push('.');
    out.push('.');
    let ghost prefix = out@;
    assert(prefix =~= chars@.take(head_len as int) + seq!['.', '.', '.']);
    let mut j: usize = tail_begin;
    while j < n
        invariant
            tail_begin <= j <= n == chars@.len(),
            out@ == prefix + chars@.subrange(tail_begin as int, j as int),
        decreases n - j,
    {
        out.push(chars[j]);
        j = j + 1;
        assert(chars@.subrange(tail_begin as int, j as int) =~= chars@.subrange(
            tail_begin as int,
            j - 1,
        ).push(chars@[j - 1]));
    }
    assert(chars@.subrange(tail_begin as int, n as int) =~= chars@.skip(tail_begin as int));
    string_from_chars(&out)
}

/// `s` with every character outside ASCII replaced by `?`.
pub open spec fn ascii_lossy(s: Seq<char>) -> Seq<char> {
    s.map_values(|c: char| if c <= '\u{7f}' { c } else { '?' })
}

/// Replaces every character outside ASCII by `?`.
pub fn utf8_to_ascii_lossy(s: &str) -> (res: String)
    ensures
        res@ == ascii_lossy(s@),
{
    let chars = str_chars(s);
    let mut out: Vec<char> = Vec::new();
    let mut i: usize = 0;
    while i < chars.len()
        invariant
            i <= chars@.len(),
            out@ == ascii_lossy(chars@.take(i as int)),
        decreases chars@.len() - i,
    {
        let c = chars[i];
        if c <= '\u{7f}' {
            out.push(c);
        } else {
            out.push('?');
        }
        i = i + 1;
        assert(ascii_lossy(chars@.take(i as int)) =~= ascii_lossy(chars@.take(i - 1)).push(
            if c <= '\u{7f}' {
                c
            } else {
                '?'
            },
        ));
    }
    assert(chars@.take(i as int) =~= chars@);
    string_from_chars(&out)
}

/// A bounded text fits its bound, and bounding it again changes nothing.
pub proof fn lemma_clamped_fits_and_is_stable(s: Seq<char>, max_len: nat)
    ensures
        clamped(s, max_len).len() <= max_len,
        clamped(clamped(s, max_len), max_len) == clamped(s, max_len),
{
    if max_len <= 3 {
        let t = clamped(s, max_len);
        assert(t.take(t.len() as int) =~= t);
    }
}

proof fn lemma_char_nonnegative(c: char)
    ensures
        '\0' <= c,
{
}

/// Making a text ASCII keeps its length, gives ASCII, and leaves ASCII text as it is.
pub proof fn lemma_ascii_lossy_is_ascii(s: Seq<char>)
    ensures
        ascii_lossy(s).len() == s.len(),
        vstd::utf8::is_ascii_chars(ascii_lossy(s)),
        vstd::utf8::is_ascii_chars(s) ==> ascii_lossy(s) == s,
{
    let t = ascii_lossy(s);
    assert forall|i: int| 0 <= i < t.len() implies '\0' <= #[trigger] t[i] <= '\u{7f}' by {
        let c = s[i];
        if c <= '\u{7f}' {
            assert(t[i] == c);
            lemma_char_nonnegative(c);
        } else {
            assert(t[i] == '?');
            assert('\0' <= '?');
            assert('?' <= '\u{7f}');
        }
    }
    if vstd::utf8::is_ascii_chars(s) {
        assert forall|i: int| 0 <= i < s.len() implies #[trigger] t[i] == s[i] by {
            assert('\0' <= s[i] <= '\u{7f}');
        }
        assert(t =~= s);
    }
}

/// What the audit trail keeps of a reply is ASCII and takes at most
/// `MAX_REPLY_SIZE_BYTES` bytes in UTF-8.
pub proof fn lemma_kept_reply_fits(json: Seq<char>)
    ensures
        vstd::utf8::is_ascii_chars(clamped(ascii_lossy(json), MAX_REPLY_SIZE_BYTES as nat)),
        vstd::utf8::encode_utf8(clamped(ascii_lossy(json), MAX_REPLY_SIZE_BYTES as nat)).len()
            <= MAX_REPLY_SIZE_BYTES,
{
    let a = ascii_lossy(json);
    lemma_ascii_lossy_is_ascii(json);
    lemma_clamped_fits_and_is_stable(a, MAX_REPLY_SIZE_BYTES as nat);
    let c = clamped(a, MAX_REPLY_SIZE_BYTES as nat);
    if a.len() > MAX_REPLY_SIZE_BYTES {
        let content_len: nat = (MAX_REPLY_SIZE_BYTES - 3) as nat;
        let tail_len = content_len / 2;
        let head_len = content_len - tail_len;
        assert forall|i: int| 0 <= i < c.len() implies '\0' <= #[trigger] c[i] <= '\u{7f}' by {
            if i < head_len {
                assert(c[i] == a[i]);
            } else if i >= head_len + 3 {
                assert(c[i] == a[a.len() - tail_len + (i - head_len - 3)]);
            }
        }
    }
    vstd::utf8::is_ascii_chars_encode_utf8(c);
}

/// What the audit trail keeps of a reply, given the reply's JSON text, if it
/// could be serialized: the text made ASCII and bounded to
/// `MAX_REPLY_SIZE_BYTES` characters; or a fixed note when it could not.
pub fn serialize_reply_from_json(json: Option<String>) -> (res: String)
    ensures
        match json {
            Some(j) => res@ == clamped(ascii_lossy(j@), MAX_REPLY_SIZE_BYTES as nat),
            None => res@ == "<Failed serializing reply>"@,
        },
        res@.len() <= MAX_REPLY_SIZE_BYTES || json is None,
{
    match json {
        Some(j) => {
            let ascii = utf8_to_ascii_lossy(j.as_str());
            clamp_string_len(ascii.as_str(), MAX_REPLY_SIZE_BYTES)
        },
        None => {
            let c = str_chars("<Failed serializing reply>");
            string_from_chars(&c)
        },
    }
}

} // verus!

//! Script-source normalization. The interpreter's parsing rules want the
//! program text to end with a newline, so a read script is normalized by
//! appending one when it is absent; text already ending in a newline is
//! passed through untouched.

use vstd::prelude::*;

verus! {

/// `s` guaranteed to end with a newline: `s` itself when it already does,
/// else `s` with one newline appended.
pub open spec fn normalized(s: Seq<char>) -> Seq<char> {
    if s.len() > 0 && s[s.len() - 1] == '\n' {
        s
    } else {
        s + seq!['\n']
    }
}

/// Append a trailing newline to `code` unless one is already there.
pub fn normalize_source(code: String) -> (r: String)
    ensures
        r@ == normalized(code@),
{
    let n: usize = code.as_str().unicode_len();
    if n > 0 && code.as_str().get_char(n - 1) == '\n' {
        code
    } else {
        let mut r = code;
        r.append("\n");
        proof {
            reveal_strlit("\n");
            assert("\n"@ =~= seq!['\n']);
        }
        r
    }
}

/// Normalization is idempotent: normalizing already-normalized text is a
/// no-op.
pub proof fn lemma_normalize_idempotent(s: Seq<char>)
    ensures
        normalized(normalized(s)) == normalized(s),
{
    if !(s.len() > 0 && s[s.len() - 1] == '\n') {
        assert((s + seq!['\n'])[(s + seq!['\n']).len() - 1] == '\n');
    }
}

} // verus!

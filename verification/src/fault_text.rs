//! Classification of bus fault text: deciding whether a rendered error
//! indicates a lost connection — in which case the handlers answer with
//! the connection-required message — rather than a one-off operation
//! fault.

use vstd::prelude::*;
use vstd::string::StringExecFns;

verus! {

/// Whether `pattern` occurs contiguously somewhere in `text`.
pub open spec fn contains_seq(text: Seq<u8>, pattern: Seq<u8>) -> bool {
    exists|i: int|
        0 <= i && i + pattern.len() <= text.len() && #[trigger] text.subrange(
            i,
            i + pattern.len(),
        ) =~= pattern
}

/// Searches `text` for a contiguous occurrence of `pattern`.
pub fn contains_bytes(text: &Vec<u8>, pattern: &Vec<u8>) -> (found: bool)
    ensures
        found == contains_seq(text@, pattern@),
{
    if pattern.len() > text.len() {
        return false;
    }
    let mut i: usize = 0;
    while i <= text.len() - pattern.len()
        invariant
            pattern@.len() <= text@.len(),
            i <= text@.len() - pattern@.len() + 1,
            text@.len() <= usize::MAX,
            forall|s: int|
                0 <= s < i ==> !(#[trigger] text@.subrange(s, s + pattern@.len()) =~= pattern@),
        decreases text@.len() + 1 - pattern@.len() - i,
    {
        let mut j: usize = 0;
        let mut mismatch = false;
        while j < pattern.len()
            invariant
                pattern@.len() <= text@.len(),
                i + pattern@.len() <= text@.len(),
                text@.len() <= usize::MAX,
                j <= pattern@.len(),
                !mismatch ==> forall|k: int| 0 <= k < j ==> text@[i + k] == pattern@[k],
                mismatch ==> !(text@.subrange(i as int, i + pattern@.len()) =~= pattern@),
            decreases pattern@.len() - j,
        {
            if text[i + j] != pattern[j] {
                proof {
                    assert(text@.subrange(i as int, i + pattern@.len())[j as int] != pattern@[
                        j as int]);
                }
                mismatch = true;
                j = pattern.len();
            } else {
                j = j + 1;
            }
        }
        if !mismatch {
            proof {
                assert(text@.subrange(i as int, i + pattern@.len()) =~= pattern@);
            }
            return true;
        }
        i = i + 1;
    }
    false
}

/// The text that identifies a lost connection in a rendered bus error:
/// the bytes of "Connection timed out".
pub open spec fn timeout_pattern() -> Seq<u8> {
    "Connection timed out"@.map_values(|c: char| c as u8)
}

/// The rendered form of `timeout_pattern`.
fn timeout_pattern_bytes() -> (pattern: Vec<u8>)
    ensures
        pattern@ =~= timeout_pattern(),
{
    let text = "Connection timed out";
    proof {
        reveal_strlit("Connection timed out");
    }
    let mut pattern: Vec<u8> = Vec::new();
    let mut i: usize = 0;
    while i < text.unicode_len()
        invariant
            text@ =~= "Connection timed out"@,
            text.is_ascii(),
            i <= text@.len(),
            pattern@ =~= text@.subrange(0, i as int).map_values(|c: char| c as u8),
        decreases text@.len() - i,
    {
        let c = text.get_ascii(i);
        pattern.push(c);
        proof {
            assert(pattern@ =~= text@.subrange(0, i + 1).map_values(|c: char| c as u8));
        }
        i = i + 1;
    }
    proof {
        assert(text@.subrange(0, text@.len() as int) =~= text@);
    }
    pattern
}

/// Whether a rendered bus error reports a lost connection: exactly when
/// the connection-timeout text occurs in it. The handlers then answer
/// with the connection-required message instead of the error itself.
pub fn is_connection_timeout(text: &Vec<u8>) -> (timeout: bool)
    ensures
        timeout == contains_seq(text@, timeout_pattern()),
{
    let pattern = timeout_pattern_bytes();
    contains_bytes(text, &pattern)
}

/// How a bus fault is treated. An absent interlock is neither: it is a
/// guarded skip of the iteration, not a fault.
pub enum BusFault {
    /// The bus is unreachable: the connection timed out.
    ConnectionFault,
    /// One operation failed on an otherwise healthy bus; stale values
    /// are retained and the fault is not fatal.
    IoFault,
}

/// Sorts a rendered bus error into the fault taxonomy: a lost connection
/// exactly when the connection-timeout text occurs in it, a single
/// failed operation otherwise.
pub fn classify_fault(rendered: &Vec<u8>) -> (fault: BusFault)
    ensures
        fault is ConnectionFault <==> contains_seq(rendered@, timeout_pattern()),
        fault is IoFault <==> !contains_seq(rendered@, timeout_pattern()),
{
    if is_connection_timeout(rendered) {
        BusFault::ConnectionFault
    } else {
        BusFault::IoFault
    }
}

} // verus!

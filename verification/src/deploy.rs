//! Reading what the contract tool printed: where the hash of uploaded code,
//! or the address of a new contract, stands in its output.

use vstd::prelude::*;
use vstd::slice::slice_subrange;

verus! {

/// Whether `pattern` stands in `text` at position `at`.
pub open spec fn spec_occurs_at(text: Seq<u8>, pattern: Seq<u8>, at: int) -> bool {
    0 <= at && at + pattern.len() <= text.len() && text.subrange(at, at + pattern.len()) == pattern
}

/// Where `pattern` stands first in `text`, if it stands there at all.
pub open spec fn spec_find(text: Seq<u8>, pattern: Seq<u8>) -> Option<int> {
    if exists|at: int| spec_occurs_at(text, pattern, at) {
        Some(choose|at: int| spec_is_first(text, pattern, at))
    } else {
        None
    }
}

/// Whether `at` is the first position at which `pattern` stands in `text`.
pub open spec fn spec_is_first(text: Seq<u8>, pattern: Seq<u8>, at: int) -> bool {
    spec_occurs_at(text, pattern, at) && forall|earlier: int|
        0 <= earlier < at ==> !spec_occurs_at(text, pattern, earlier)
}

/// The words after which the tool prints what is looked for, in the order in which they are tried.
pub open spec fn spec_markers() -> Seq<Seq<u8>> {
    seq![
        seq![67u8, 111, 110, 116, 114, 97, 99, 116, 32],
        seq![99u8, 111, 100, 101, 32, 104, 97, 115, 104, 58, 32],
        seq![67u8, 111, 100, 101, 32, 104, 97, 115, 104, 32, 92, 34],
    ]
}

/// Where the text that is looked for begins: right after the first marker
/// that stands in the output, at the first place it stands.
pub open spec fn spec_hex_start(raw: Seq<u8>) -> Option<int> {
    let markers = spec_markers();
    match spec_find(raw, markers[0]) {
        Some(at) => Some(at + markers[0].len()),
        None => match spec_find(raw, markers[1]) {
            Some(at) => Some(at + markers[1].len()),
            None => match spec_find(raw, markers[2]) {
                Some(at) => Some(at + markers[2].len()),
                None => None,
            },
        },
    }
}

/// Where the text that is looked for stands: from its beginning up to the
/// next backslash.
pub open spec fn spec_get_hex(raw: Seq<u8>) -> Option<(int, int)> {
    match spec_hex_start(raw) {
        None => None,
        Some(start) => match spec_find(raw.subrange(start, raw.len() as int), seq![92u8]) {
            None => None,
            Some(length) => Some((start, start + length)),
        },
    }
}

/// The first position is the only one that is first.
proof fn lemma_first_is_unique(text: Seq<u8>, pattern: Seq<u8>, at: int)
    requires
        spec_is_first(text, pattern, at),
    ensures
        spec_find(text, pattern) == Some(at),
{
    let found = choose|found: int| spec_is_first(text, pattern, found);
    assert(spec_is_first(text, pattern, found));
    if found < at {
        assert(!spec_occurs_at(text, pattern, found));
    }
    if at < found {
        assert(!spec_occurs_at(text, pattern, at));
    }
}

/// Tells whether `pattern` stands in `text` at position `at`.
fn occurs_at(text: &[u8], pattern: &[u8], at: usize) -> (occurs: bool)
    requires
        at + pattern@.len() <= text@.len(),
    ensures
        occurs == spec_occurs_at(text@, pattern@, at as int),
{
    let total = text.len();
    let mut i: usize = 0;
    while i < pattern.len()
        invariant
            i <= pattern@.len(),
            total == text@.len(),
            at + pattern@.len() <= text@.len(),
            forall|j: int| 0 <= j < i ==> text@[at + j] == pattern@[j],
        decreases pattern@.len() - i,
    {
        if text[at + i] != pattern[i] {
            assert(text@.subrange(at as int, at + pattern@.len())[i as int] != pattern@[i as int]);
            return false;
        }
        i += 1;
    }
    assert(text@.subrange(at as int, at + pattern@.len()) =~= pattern@);
    true
}

/// Finds where `pattern` stands first in `text`.
pub fn find(text: &[u8], pattern: &[u8]) -> (found: Option<usize>)
    ensures
        match found {
            Some(at) => spec_find(text@, pattern@) == Some(at as int) && at + pattern@.len()
                <= text@.len(),
            None => spec_find(text@, pattern@) is None,
        },
{
    if pattern.len() > text.len() {
        return None;
    }
    let last = text.len() - pattern.len();
    let mut at: usize = 0;
    loop
        invariant
            last + pattern@.len() == text@.len(),
            at <= last,
            forall|earlier: int| 0 <= earlier < at ==> !spec_occurs_at(text@, pattern@, earlier),
        decreases last - at,
    {
        if occurs_at(text, pattern, at) {
            proof {
                lemma_first_is_unique(text@, pattern@, at as int);
            }
            return Some(at);
        }
        if at == last {
            return None;
        }
        at += 1;
    }
}

/// Finds, in what the tool printed, the text that follows the first of
/// `Contract `, `code hash: ` and `Code hash \"` that occurs, up to the next
/// backslash. It answers with where the text begins and where it ends, or
/// with nothing if no marker or no backslash after it is there.
pub fn get_hex(raw: &[u8]) -> (place: Option<(usize, usize)>)
    ensures
        match place {
            Some((start, end)) => spec_get_hex(raw@) == Some((start as int, end as int)) && start
                <= end <= raw@.len(),
            None => spec_get_hex(raw@) is None,
        },
{
    let contract: [u8; 9] = [67, 111, 110, 116, 114, 97, 99, 116, 32];
    let code_hash: [u8; 11] = [99, 111, 100, 101, 32, 104, 97, 115, 104, 58, 32];
    let quoted: [u8; 12] = [67, 111, 100, 101, 32, 104, 97, 115, 104, 32, 92, 34];
    let backslash: [u8; 1] = [92];
    let total = raw.len();
    proof {
        assert(contract@.len() == 9 && code_hash@.len() == 11 && quoted@.len() == 12);
        assert(contract@ =~= spec_markers()[0]);
        assert(code_hash@ =~= spec_markers()[1]);
        assert(quoted@ =~= spec_markers()[2]);
        assert(backslash@ =~= seq![92u8]);
    }
    let start = match find(raw, contract.as_slice()) {
        Some(at) => at + 9,
        None => match find(raw, code_hash.as_slice()) {
            Some(at) => at + 11,
            None => match find(raw, quoted.as_slice()) {
                Some(at) => at + 12,
                None => {
                    return None;
                },
            },
        },
    };
    let left = slice_subrange(raw, start, total);
    match find(left, backslash.as_slice()) {
        Some(length) => Some((start, start + length)),
        None => None,
    }
}

} // verus!

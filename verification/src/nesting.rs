//! How deeply the lists and dictionaries of a bencoded content descriptor
//! are nested. The decoder calls itself once for every list or dictionary
//! that it enters, so a descriptor is handed to it only where its nesting is
//! within a limit.
//!
//! The scan walks the bytes as the decoder does. At each element it reads
//! one byte: `l` or `d` opens a level, `e` closes one, `i` begins an integer
//! that ends with the next `e`, and anything else begins a string, whose
//! length stands in decimal before a `:`. The scan takes no notice of what
//! the decoder refuses beyond that (an integer that is none, a key that is
//! no string, a dictionary out of order): where the decoder gives up, the
//! scan may go on, and so counts no fewer levels than the decoder enters.

use vstd::prelude::*;

verus! {

/// The deepest nesting of lists and dictionaries that is handed to the
/// decoder.
pub const MAX_NESTING: usize = 64;

/// The byte that opens a list.
pub const LIST_OPEN: u8 = 108;

/// The byte that opens a dictionary.
pub const DICTIONARY_OPEN: u8 = 100;

/// The byte that closes a list, a dictionary and an integer.
pub const CLOSE: u8 = 101;

/// The byte that opens an integer.
pub const INTEGER_OPEN: u8 = 105;

/// The byte between the length of a string and its bytes.
pub const COLON: u8 = 58;

/// The sign that may stand before the length of a string.
pub const PLUS: u8 = 43;

/// How many bytes stand at `from` before the first `target`, or `None`
/// where no `target` follows.
pub open spec fn run_to(bytes: Seq<u8>, target: u8, from: nat) -> Option<nat>
    decreases bytes.len() - from,
{
    if from >= bytes.len() {
        None
    } else if bytes[from as int] == target {
        Some(0)
    } else {
        match run_to(bytes, target, from + 1) {
            Some(run) => Some(run + 1),
            None => None,
        }
    }
}

/// Whether the bytes are decimal digits.
pub open spec fn all_digits(digits: Seq<u8>) -> bool {
    forall|i: int| 0 <= i < digits.len() ==> 48 <= #[trigger] digits[i] <= 57
}

/// The number that decimal digits stand for.
pub open spec fn decimal(digits: Seq<u8>) -> nat
    decreases digits.len(),
{
    if digits.len() == 0 {
        0
    } else {
        decimal(digits.drop_last()) * 10 + (digits.last() - 48) as nat
    }
}

/// The digits of the length of a string: what stands before the colon,
/// without a plus sign at its head.
pub open spec fn length_digits(written: Seq<u8>) -> Seq<u8> {
    if written.len() > 0 && written[0] == PLUS {
        written.subrange(1, written.len() as int)
    } else {
        written
    }
}

/// The length that the bytes before a colon announce: one or more decimal
/// digits, a plus sign before them or not. Anything else announces none.
pub open spec fn announced_length(written: Seq<u8>) -> Option<nat> {
    let digits = length_digits(written);
    if digits.len() > 0 && all_digits(digits) {
        Some(decimal(digits))
    } else {
        None
    }
}

/// Where the element behind a string begins, for a string whose length
/// stands from `start` to the colon `run` bytes further on. `None` where
/// the colon lies outside the bytes, no length is announced or the string
/// reaches the end of the bytes.
pub open spec fn after_string(bytes: Seq<u8>, start: nat, run: nat) -> Option<nat> {
    if start + run >= bytes.len() {
        None
    } else {
        match announced_length(bytes.subrange(start as int, (start + run) as int)) {
            Some(length) => if start + run + 1 + length >= bytes.len() {
                None
            } else {
                Some(start + run + 1 + length)
            },
            None => None,
        }
    }
}

/// Whether the scan from `pos` on, begun at the given depth, stays within
/// the limit. (The end of an integer always lies in the bytes; that it does
/// is said where the scan goes on behind it, so that the scan is seen to
/// end.)
pub open spec fn scan(bytes: Seq<u8>, pos: nat, depth: nat) -> bool
    decreases bytes.len() - pos,
{
    if pos >= bytes.len() {
        true
    } else if bytes[pos as int] == LIST_OPEN || bytes[pos as int] == DICTIONARY_OPEN {
        depth < MAX_NESTING && scan(bytes, pos + 1, depth + 1)
    } else if bytes[pos as int] == CLOSE && depth > 0 {
        scan(bytes, pos + 1, (depth - 1) as nat)
    } else if bytes[pos as int] == INTEGER_OPEN {
        match run_to(bytes, CLOSE, pos + 1) {
            Some(run) => pos + 1 + run < bytes.len() && scan(bytes, pos + 1 + run + 1, depth),
            None => true,
        }
    } else {
        match run_to(bytes, COLON, pos) {
            Some(run) => match after_string(bytes, pos, run) {
                Some(next) => scan(bytes, next, depth),
                None => true,
            },
            None => true,
        }
    }
}

/// Whether the lists and dictionaries of the bytes are nested within the
/// limit.
pub open spec fn shallow(bytes: Seq<u8>) -> bool {
    scan(bytes, 0, 0)
}

/// Where a run ends lies in the bytes, and the target stands there.
pub proof fn lemma_run_to(bytes: Seq<u8>, target: u8, from: nat)
    ensures
        run_to(bytes, target, from) matches Some(run) ==> from + run < bytes.len() && bytes[(from
            + run) as int] == target,
    decreases bytes.len() - from,
{
    if from < bytes.len() && bytes[from as int] != target {
        lemma_run_to(bytes, target, from + 1);
    }
}

/// How many bytes stand at `from` before the first `target`.
pub fn find_byte(bytes: &[u8], target: u8, from: usize) -> (found: Option<usize>)
    ensures
        found matches Some(run) ==> from + run < bytes.len(),
        match found {
            Some(run) => run_to(bytes@, target, from as nat) == Some(run as nat),
            None => run_to(bytes@, target, from as nat) is None,
        },
{
    if from >= bytes.len() {
        return None;
    }
    let mut i: usize = bytes.len();
    let mut found: Option<usize> = None;
    while i > from
        invariant
            from <= i <= bytes.len(),
            found matches Some(run) ==> i + run < bytes.len(),
            match found {
                Some(run) => run_to(bytes@, target, i as nat) == Some(run as nat),
                None => run_to(bytes@, target, i as nat) is None,
            },
        decreases i,
    {
        i -= 1;
        if bytes[i] == target {
            found = Some(0);
        } else {
            found =
            match found {
                Some(run) => Some(run + 1),
                None => None,
            };
        }
    }
    found
}

/// Where the element behind a string begins, for a string whose length
/// stands from `start` to the colon `run` bytes further on.
pub fn skip_string(bytes: &[u8], start: usize, run: usize) -> (next: Option<usize>)
    ensures
        match next {
            Some(at) => after_string(bytes@, start as nat, run as nat) == Some(at as nat) && start
                < at < bytes.len(),
            None => after_string(bytes@, start as nat, run as nat) is None,
        },
{
    if run >= bytes.len() || start >= bytes.len() - run {
        return None;
    }
    let colon: usize = start + run;
    let ghost written = bytes@.subrange(start as int, colon as int);
    let first: usize = if start < colon && bytes[start] == PLUS {
        start + 1
    } else {
        start
    };
    let ghost digits = length_digits(written);
    assert(digits =~= bytes@.subrange(first as int, colon as int));
    if first == colon {
        return None;
    }
    let limit: u128 = bytes.len() as u128;
    let mut value: u128 = 0;
    let mut huge: bool = false;
    let mut j: usize = first;
    while j < colon
        invariant
            first <= j <= colon < bytes.len(),
            limit == bytes.len(),
            colon == start + run,
            digits == bytes@.subrange(first as int, colon as int),
            digits == length_digits(bytes@.subrange(start as int, (start + run) as int)),
            all_digits(digits.subrange(0, j - first)),
            huge ==> decimal(digits.subrange(0, j - first)) > limit,
            !huge ==> value == decimal(digits.subrange(0, j - first)) && value <= limit,
        decreases colon - j,
    {
        let byte: u8 = bytes[j];
        if byte < 48 || byte > 57 {
            assert(digits[j - first] == byte);
            assert(!all_digits(digits));
            return None;
        }
        proof {
            let longer = digits.subrange(0, j - first + 1);
            assert(longer.drop_last() =~= digits.subrange(0, j - first));
            assert(longer.last() == byte);
        }
        if !huge {
            value = value * 10 + (byte - 48) as u128;
            if value > limit {
                huge = true;
            }
        }
        j += 1;
    }
    assert(digits.subrange(0, colon - first) =~= digits);
    if huge || value >= (bytes.len() - colon - 1) as u128 {
        None
    } else {
        Some(colon + 1 + value as usize)
    }
}

/// Whether the lists and dictionaries of the bytes are nested within the
/// limit.
pub fn is_shallow(bytes: &[u8]) -> (within: bool)
    ensures
        within == shallow(bytes@),
{
    let mut pos: usize = 0;
    let mut depth: usize = 0;
    while pos < bytes.len()
        invariant
            pos <= bytes.len(),
            depth <= MAX_NESTING,
            shallow(bytes@) == scan(bytes@, pos as nat, depth as nat),
        decreases bytes.len() - pos,
    {
        let byte: u8 = bytes[pos];
        if byte == LIST_OPEN || byte == DICTIONARY_OPEN {
            if depth >= MAX_NESTING {
                return false;
            }
            depth += 1;
            pos += 1;
        } else if byte == CLOSE && depth > 0 {
            depth -= 1;
            pos += 1;
        } else if byte == INTEGER_OPEN {
            match find_byte(bytes, CLOSE, pos + 1) {
                Some(run) => {
                    pos = pos + 1 + run + 1;
                },
                None => {
                    return true;
                },
            }
        } else {
            match find_byte(bytes, COLON, pos) {
                Some(run) => match skip_string(bytes, pos, run) {
                    Some(next) => {
                        pos = next;
                    },
                    None => {
                        return true;
                    },
                },
                None => {
                    return true;
                },
            }
        }
    }
    true
}

} // verus!

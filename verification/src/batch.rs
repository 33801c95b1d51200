use crate::text::{digits_of, push_decimal};
use vstd::prelude::*;

verus! {

// ---------------------------------------------------------------------------
// File names: extensions, stems, and per-frame output names
// ---------------------------------------------------------------------------

/// The index of the last '.' in a file name, if any.
pub open spec fn last_dot(s: Seq<char>) -> Option<int>
    decreases s.len(),
{
    if s.len() == 0 {
        None
    } else if s.last() == '.' {
        Some(s.len() - 1)
    } else {
        last_dot(s.drop_last())
    }
}

/// The extension of a file name: what follows the last '.', unless that
/// dot starts the name (a hidden file has no extension).
pub open spec fn extension_of(s: Seq<char>) -> Option<Seq<char>> {
    match last_dot(s) {
        Some(i) => if i > 0 {
            Some(s.subrange(i + 1, s.len() as int))
        } else {
            None
        },
        None => None,
    }
}

/// The stem of a file name: what precedes the extension, or the whole name
/// when there is no extension.
pub open spec fn stem_of(s: Seq<char>) -> Seq<char> {
    match last_dot(s) {
        Some(i) => if i > 0 {
            s.subrange(0, i)
        } else {
            s
        },
        None => s,
    }
}

/// Find the last '.' of a file name.
fn find_last_dot(s: &str) -> (r: Option<usize>)
    ensures
        match r {
            Some(i) => last_dot(s@) == Some(i as int) && i < s@.len(),
            None => last_dot(s@) is None,
        },
{
    let n = s.unicode_len();
    let mut k = n;
    proof {
        assert(s@.take(n as int) =~= s@);
    }
    while k > 0
        invariant
            k <= n == s@.len(),
            last_dot(s@.take(k as int)) == last_dot(s@),
        decreases k,
    {
        proof {
            assert(s@.take(k as int).drop_last() =~= s@.take(k - 1));
            assert(s@.take(k as int).last() == s@[k - 1]);
        }
        if s.get_char(k - 1) == '.' {
            return Some(k - 1);
        }
        k = k - 1;
    }
    None
}

/// Whether a directory entry takes part in a batch: its name carries the
/// expected source extension.
pub fn is_batch_candidate(file_name: &str, extension: &str) -> (r: bool)
    ensures
        r == (extension_of(file_name@) == Some(extension@)),
{
    let n = file_name.unicode_len();
    match find_last_dot(file_name) {
        Some(i) => {
            if i == 0 {
                return false;
            }
            let ext = file_name.substring_char(i + 1, n);
            proof {
                assert(ext@ =~= file_name@.subrange(i + 1, n as int));
            }
            crate::text::str_eq(ext, extension)
        },
        None => false,
    }
}

/// The output name of one batch entry: the input's stem with the
/// destination extension.
pub fn batch_output_name(input_name: &str, new_extension: &str) -> (r: String)
    ensures
        r@ == stem_of(input_name@) + seq!['.'] + new_extension@,
{
    proof {
        reveal_strlit(".");
        assert("."@ =~= seq!['.']);
    }
    let n = input_name.unicode_len();
    let stem = match find_last_dot(input_name) {
        Some(i) => {
            if i == 0 {
                input_name
            } else {
                let head = input_name.substring_char(0, i);
                proof {
                    assert(head@ =~= input_name@.subrange(0, i as int));
                }
                head
            }
        },
        None => input_name,
    };
    let mut out = stem.to_owned();
    out.append(".");
    out.append(new_extension);
    out
}

/// A run of `width` zero characters.
pub open spec fn zero_pad(width: nat) -> Seq<char> {
    Seq::new(width, |i: int| '0')
}

/// The name of one frame's output file: the frame index in decimal, padded
/// with zeros to six digits, then a dot and the extension.
pub open spec fn spec_frame_file_name(index: nat, extension: Seq<char>) -> Seq<char> {
    let digits = digits_of(index);
    let pad: nat = if digits.len() < 6 {
        (6 - digits.len()) as nat
    } else {
        0
    };
    zero_pad(pad) + digits + seq!['.'] + extension
}

/// Build the output file name of one frame of a capture conversion.
pub fn frame_file_name(index: usize, extension: &str) -> (r: String)
    ensures
        r@ == spec_frame_file_name(index as nat, extension@),
{
    proof {
        reveal_strlit(".");
        reveal_strlit("0");
        assert("."@ =~= seq!['.']);
        assert("0"@ =~= seq!['0']);
    }
    let mut digits = String::new();
    push_decimal(index, &mut digits);
    let width = digits.as_str().unicode_len();
    let pad: usize = if width < 6 {
        6 - width
    } else {
        0
    };
    let mut out = String::new();
    let mut i: usize = 0;
    while i < pad
        invariant
            i <= pad,
            out@ =~= zero_pad(i as nat),
        decreases pad - i,
    {
        out.append("0");
        proof {
            reveal_strlit("0");
            assert("0"@ =~= seq!['0']);
            assert(out@ =~= zero_pad((i + 1) as nat));
        }
        i = i + 1;
    }
    out.append(digits.as_str());
    out.append(".");
    out.append(extension);
    proof {
        assert(out@ =~= spec_frame_file_name(index as nat, extension@));
    }
    out
}

// ---------------------------------------------------------------------------
// Batch bookkeeping
// ---------------------------------------------------------------------------

/// How many entries of `s` are true.
pub open spec fn count_true(s: Seq<bool>) -> nat
    decreases s.len(),
{
    if s.len() == 0 {
        0
    } else {
        count_true(s.drop_last()) + if s.last() {
            1nat
        } else {
            0nat
        }
    }
}

/// The outcome of a batch: how many entries converted and how many failed.
/// A failed entry never aborts its siblings; the tally is the batch's whole
/// verdict.
#[derive(Debug, Clone, Copy, PartialEq, Eq, Structural)]
pub struct BatchSummary {
    pub succeeded: usize,
    pub failed: usize,
}

/// Tally the per-file outcomes of a batch.
pub fn tally_results(results: &Vec<bool>) -> (r: BatchSummary)
    ensures
        r.succeeded == count_true(results@),
        r.succeeded + r.failed == results@.len(),
{
    let n = results.len();
    let mut succeeded: usize = 0;
    let mut failed: usize = 0;
    let mut i: usize = 0;
    while i < n
        invariant
            i <= n == results@.len(),
            succeeded == count_true(results@.take(i as int)),
            succeeded + failed == i,
        decreases n - i,
    {
        proof {
            assert(results@.take(i + 1).drop_last() =~= results@.take(i as int));
            assert(results@.take(i + 1).last() == results@[i as int]);
        }
        if results[i] {
            succeeded = succeeded + 1;
        } else {
            failed = failed + 1;
        }
        i = i + 1;
    }
    proof {
        assert(results@.take(n as int) =~= results@);
    }
    BatchSummary { succeeded, failed }
}

} // verus!

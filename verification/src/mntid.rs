use vstd::prelude::*;

use crate::errno::Errno;

verus! {

/// The newline byte.
pub const NL: u8 = 10;

/// The filesystem magic number of a real procfs.
pub const PROC_SUPER_MAGIC: i64 = 0x9fa0;

/// Whether a filesystem type field identifies a real procfs: guards
/// against a look-alike bind-mounted over the proc path.
pub fn is_procfs_magic(f_type: i64) -> (r: bool)
    ensures
        r == (f_type == PROC_SUPER_MAGIC),
{
    f_type == PROC_SUPER_MAGIC
}

/// What `classify_handle_probe` decides for the kernel file-handle
/// probe, which is issued with an empty handle buffer on purpose.
///
/// - The call succeeding at all is anomalous for a zero-byte buffer:
///   abandon the method (`Ok(None)`).
/// - `EOVERFLOW` is the expected answer, and the kernel has still
///   filled in the mount id: take it.
/// - `ENOSYS`, `EPERM` and `EOPNOTSUPP` mean the probe is unavailable
///   here: fall through to the next method (`Ok(None)`).
/// - Anything else is a real error.
pub open spec fn spec_classify_handle_probe(succeeded: bool, eno: Errno, mnt_id: i32) -> Result<
    Option<u32>,
    Errno,
> {
    if succeeded {
        Ok(None)
    } else {
        match eno {
            Errno::EOVERFLOW => Ok(Some(mnt_id as u32)),
            Errno::ENOSYS => Ok(None),
            Errno::EPERM => Ok(None),
            Errno::EOPNOTSUPP => Ok(None),
            _ => Err(eno),
        }
    }
}

/// Classifies the outcome of the kernel file-handle probe, exactly as
/// `spec_classify_handle_probe` describes.
pub fn classify_handle_probe(succeeded: bool, eno: Errno, mnt_id: i32) -> (r: Result<
    Option<u32>,
    Errno,
>)
    ensures
        r == spec_classify_handle_probe(succeeded, eno, mnt_id),
{
    if succeeded {
        Ok(None)
    } else {
        match eno {
            Errno::EOVERFLOW => Ok(Some(#[verifier::truncate] (mnt_id as u32))),
            Errno::ENOSYS => Ok(None),
            Errno::EPERM => Ok(None),
            Errno::EOPNOTSUPP => Ok(None),
            _ => Err(eno),
        }
    }
}

/// The length of the first line of `s`, not counting its newline.
pub open spec fn line_len(s: Seq<u8>) -> nat
    decreases s.len(),
{
    if s.len() == 0 || s[0] == NL {
        0
    } else {
        1 + line_len(s.drop_first())
    }
}

proof fn lemma_line_len_le(s: Seq<u8>)
    ensures
        line_len(s) <= s.len(),
    decreases s.len(),
{
    if s.len() == 0 || s[0] == NL {
    } else {
        lemma_line_len_le(s.drop_first());
    }
}

proof fn lemma_line_len_is(s: Seq<u8>, n: int)
    requires
        0 <= n <= s.len(),
        forall|m: int| 0 <= m < n ==> s[m] != NL,
        n == s.len() || s[n] == NL,
    ensures
        line_len(s) == n,
    decreases n,
{
    if n == 0 {
    } else {
        lemma_line_len_is(s.drop_first(), n - 1);
    }
}

/// The field label that carries the mount id.
pub open spec fn mnt_id_label() -> Seq<u8> {
    seq![109u8, 110u8, 116u8, 95u8, 105u8, 100u8, 58u8]
}

/// Whether a line starts with the mount-id label.
pub open spec fn line_is_mnt_id(line: Seq<u8>) -> bool {
    line.len() >= 7 && line.take(7) == mnt_id_label()
}

#[via_fn]
proof fn mnt_line_suffix_decreases(c: Seq<u8>)
{
    if c.len() > 0 {
        lemma_line_len_le(c);
    }
}

/// The text after the label on the first line that carries it, or
/// `None` when no line does.
pub open spec fn spec_mnt_line_suffix(c: Seq<u8>) -> Option<Seq<u8>>
    decreases c.len(),
    via mnt_line_suffix_decreases
{
    if c.len() == 0 {
        None
    } else {
        let n = line_len(c) as int;
        let line = c.take(n);
        if line_is_mnt_id(line) {
            Some(line.skip(7))
        } else if n >= c.len() {
            None
        } else {
            spec_mnt_line_suffix(c.skip(n + 1))
        }
    }
}

/// Whether a byte is ASCII whitespace, as number parsing trims it.
pub open spec fn is_ascii_space(b: u8) -> bool {
    b == 32 || b == 9 || b == 10 || b == 13 || b == 11 || b == 12
}

/// The string without its leading whitespace.
pub open spec fn trim_start(s: Seq<u8>) -> Seq<u8>
    decreases s.len(),
{
    if s.len() > 0 && is_ascii_space(s[0]) {
        trim_start(s.skip(1))
    } else {
        s
    }
}

/// The string without its trailing whitespace.
pub open spec fn trim_end(s: Seq<u8>) -> Seq<u8>
    decreases s.len(),
{
    if s.len() > 0 && is_ascii_space(s[s.len() - 1]) {
        trim_end(s.drop_last())
    } else {
        s
    }
}

/// The string without leading and trailing whitespace.
pub open spec fn spec_trim(s: Seq<u8>) -> Seq<u8> {
    trim_end(trim_start(s))
}

/// Whether a byte is an ASCII decimal digit.
pub open spec fn is_digit(b: u8) -> bool {
    48 <= b <= 57
}

/// Whether every byte of the string is a decimal digit.
pub open spec fn all_digits(s: Seq<u8>) -> bool {
    forall|i: int| 0 <= i < s.len() ==> is_digit(s[i])
}

/// The numeric value of a digit string.
pub open spec fn digits_val(s: Seq<u8>) -> nat
    decreases s.len(),
{
    if s.len() == 0 {
        0
    } else {
        digits_val(s.drop_last()) * 10 + (s[s.len() - 1] - 48) as nat
    }
}

/// A digit string is worth at least any of its prefixes.
proof fn lemma_digits_val_prefix(s: Seq<u8>, k: int)
    requires
        0 <= k <= s.len(),
        all_digits(s),
    ensures
        digits_val(s.take(k)) <= digits_val(s),
    decreases s.len() - k,
{
    if k == s.len() {
        assert(s.take(k) =~= s);
    } else {
        lemma_digits_val_prefix(s, k + 1);
        assert(s.take(k + 1).drop_last() =~= s.take(k));
        assert(digits_val(s.take(k + 1)) == digits_val(s.take(k)) * 10 + (s[k] - 48) as nat);
    }
}

/// What number parsing makes of a trimmed field: an optional plus sign,
/// then at least one digit, valued in range.
pub open spec fn spec_parse_u32(s: Seq<u8>) -> Option<u32> {
    let t = if s.len() > 0 && s[0] == 43 {
        s.skip(1)
    } else {
        s
    };
    if t.len() > 0 && all_digits(t) && digits_val(t) <= u32::MAX {
        Some(digits_val(t) as u32)
    } else {
        None
    }
}

/// What `fdinfo_mnt_id` extracts from the descriptor-information text:
/// the trimmed, parsed value after the first mount-id label, or `None`
/// when there is no such line or its field does not parse.
pub open spec fn spec_fdinfo_mnt_id(c: Seq<u8>) -> Option<u32> {
    match spec_mnt_line_suffix(c) {
        Some(suffix) => spec_parse_u32(spec_trim(suffix)),
        None => None,
    }
}

/// Parses one trimmed numeric field, exactly as `spec_parse_u32`
/// describes.
fn parse_u32_field(s: &[u8]) -> (r: Option<u32>)
    ensures
        r == spec_parse_u32(s@),
{
    let start: usize = if s.len() > 0 && s[0] == 43 {
        1
    } else {
        0
    };
    let ghost t = if s@.len() > 0 && s@[0] == 43 {
        s@.skip(1)
    } else {
        s@
    };
    proof {
        assert(t =~= s@.subrange(start as int, s@.len() as int));
    }
    if s.len() == start {
        return None;
    }
    let mut acc: u64 = 0;
    let mut i: usize = start;
    while i < s.len()
        invariant
            start <= i <= s@.len(),
            start <= 1,
            t == s@.subrange(start as int, s@.len() as int),
            t == (if s@.len() > 0 && s@[0] == 43 {
                s@.skip(1)
            } else {
                s@
            }),
            t.len() == s@.len() - start,
            all_digits(t.take(i - start)),
            acc == digits_val(t.take(i - start)),
            acc <= u32::MAX,
        decreases s@.len() - i,
    {
        let b = s[i];
        if !(48 <= b && b <= 57) {
            proof {
                assert(t[i - start] == s@[i as int]);
                assert(!is_digit(t[i - start]));
                assert(!all_digits(t));
            }
            return None;
        }
        let d = (b - 48) as u64;
        let next = acc * 10 + d;
        proof {
            assert(t.take(i - start + 1).drop_last() =~= t.take(i - start));
            assert(t.take(i - start + 1)[i - start] == s@[i as int]);
            assert(digits_val(t.take(i - start + 1)) == digits_val(t.take(i - start)) * 10 + (
            b - 48) as nat);
        }
        if next > u32::MAX as u64 {
            proof {
                if all_digits(t) {
                    lemma_digits_val_prefix(t, i - start + 1);
                }
            }
            return None;
        }
        acc = next;
        i = i + 1;
        proof {
            assert(all_digits(t.take(i - start))) by {
                assert(forall|m: int|
                    0 <= m < i - start ==> t.take(i - start)[m] == t[m]);
            }
        }
    }
    proof {
        assert(t.take(s@.len() - start) =~= t);
    }
    Some(#[verifier::truncate] (acc as u32))
}

/// Extracts the mount id from the text of a descriptor-information
/// file, exactly as `spec_fdinfo_mnt_id` describes: the first line
/// starting with the mount-id label, its field trimmed of ASCII
/// whitespace and parsed as a decimal number.
pub fn fdinfo_mnt_id(contents: &[u8]) -> (r: Option<u32>)
    ensures
        r == spec_fdinfo_mnt_id(contents@),
{
    let c = contents;
    let mut i: usize = 0;
    proof {
        assert(c@.skip(0) =~= c@);
    }
    while i < c.len()
        invariant
            c@ == contents@,
            i <= c@.len(),
            spec_mnt_line_suffix(c@.skip(i as int)) == spec_mnt_line_suffix(c@),
        decreases c@.len() - i,
    {
        let ghost rest = c@.skip(i as int);
        // Find the end of this line.
        let mut j: usize = i;
        while j < c.len() && c[j] != NL
            invariant
                i <= j <= c@.len(),
                forall|m: int| i <= m < j ==> c@[m] != NL,
            decreases c@.len() - j,
        {
            j = j + 1;
        }
        proof {
            assert(forall|m: int| 0 <= m < j - i ==> rest[m] == c@[i + m] && rest[m] != NL);
            assert(j - i == rest.len() || rest[j - i] == NL);
            lemma_line_len_is(rest, j - i);
        }
        let is_label = j - i >= 7 && c[i] == 109 && c[i + 1] == 110 && c[i + 2] == 116 && c[i
            + 3] == 95 && c[i + 4] == 105 && c[i + 5] == 100 && c[i + 6] == 58;
        let ghost line = rest.take(j - i);
        proof {
            if j - i >= 7 {
                assert(line.take(7) =~= mnt_id_label() || !is_label) by {
                    if is_label {
                        assert(line.take(7)[0] == c@[i as int]);
                        assert(line.take(7)[1] == c@[i + 1]);
                        assert(line.take(7)[2] == c@[i + 2]);
                        assert(line.take(7)[3] == c@[i + 3]);
                        assert(line.take(7)[4] == c@[i + 4]);
                        assert(line.take(7)[5] == c@[i + 5]);
                        assert(line.take(7)[6] == c@[i + 6]);
                        assert(line.take(7) =~= mnt_id_label());
                    }
                }
                if !is_label {
                    assert(line.take(7) != mnt_id_label()) by {
                        if line.take(7) == mnt_id_label() {
                            assert(c@[i as int] == line.take(7)[0]);
                            assert(c@[i + 1] == line.take(7)[1]);
                            assert(c@[i + 2] == line.take(7)[2]);
                            assert(c@[i + 3] == line.take(7)[3]);
                            assert(c@[i + 4] == line.take(7)[4]);
                            assert(c@[i + 5] == line.take(7)[5]);
                            assert(c@[i + 6] == line.take(7)[6]);
                        }
                    }
                }
            }
            assert(is_label == line_is_mnt_id(line));
        }
        if is_label {
            // Trim the field and parse it.
            let ghost suffix = line.skip(7);
            let mut a: usize = i + 7;
            while a < j && (c[a] == 32 || c[a] == 9 || c[a] == 10 || c[a] == 13 || c[a] == 11
                || c[a] == 12)
                invariant
                    i + 7 <= a <= j <= c@.len(),
                    forall|m: int| i + 7 <= m < a ==> is_ascii_space(c@[m]),
                decreases j - a,
            {
                a = a + 1;
            }
            let mut b: usize = j;
            while b > a && (c[b - 1] == 32 || c[b - 1] == 9 || c[b - 1] == 10 || c[b - 1] == 13
                || c[b - 1] == 11 || c[b - 1] == 12)
                invariant
                    a <= b <= j,
                    j <= c@.len(),
                    forall|m: int| b <= m < j ==> is_ascii_space(c@[m]),
                decreases b,
            {
                b = b - 1;
            }
            proof {
                assert(suffix.len() == j - i - 7);
                assert(forall|m: int|
                    0 <= m < suffix.len() ==> suffix[m] == c@[i + 7 + m]);
                if a < j {
                    assert(!is_ascii_space(c@[a as int]));
                }
                if b == a && a < j {
                    assert(is_ascii_space(c@[a as int]));
                }
                lemma_trim_is(suffix, a - (i + 7), b - (i + 7), c@, i + 7);
                assert(spec_mnt_line_suffix(c@) == Some(suffix));
            }
            let mut field: Vec<u8> = Vec::new();
            let mut k: usize = a;
            while k < b
                invariant
                    a <= k <= b <= c@.len(),
                    field@ == c@.subrange(a as int, k as int),
                decreases b - k,
            {
                field.push(c[k]);
                k = k + 1;
                proof {
                    assert(field@ =~= c@.subrange(a as int, k as int));
                }
            }
            proof {
                assert(field@ =~= spec_trim(suffix));
            }
            return parse_u32_field(field.as_slice());
        }
        if j == c.len() {
            proof {
                assert(line_len(rest) as int >= rest.len());
            }
            return None;
        }
        proof {
            assert(rest.skip(j - i + 1) =~= c@.skip(j as int + 1));
        }
        i = j + 1;
    }
    proof {
        assert(c@.skip(i as int) =~= Seq::<u8>::empty());
    }
    None
}

/// The trimmed field equals the byte range between the trim cursors:
/// `a` past the leading whitespace, `b` before the trailing whitespace,
/// within the suffix that starts at `off` in `c` and ends where the
/// line does.
proof fn lemma_trim_is(suffix: Seq<u8>, a: int, b: int, c: Seq<u8>, off: int)
    requires
        0 <= off,
        off + suffix.len() <= c.len(),
        forall|m: int| 0 <= m < suffix.len() ==> suffix[m] == c[off + m],
        0 <= a <= b <= suffix.len(),
        forall|m: int| 0 <= m < a ==> is_ascii_space(suffix[m]),
        a == suffix.len() || !is_ascii_space(suffix[a]),
        forall|m: int| b <= m < suffix.len() ==> is_ascii_space(suffix[m]),
        b > a ==> !is_ascii_space(suffix[b - 1]),
        b == a ==> a == suffix.len(),
    ensures
        spec_trim(suffix) == c.subrange(off + a, off + b),
{
    lemma_trim_start_is(suffix, a);
    let mid = suffix.skip(a);
    if b == a {
        assert(mid =~= Seq::<u8>::empty());
        assert(c.subrange(off + a, off + b) =~= Seq::<u8>::empty());
    } else {
        assert(mid.len() == suffix.len() - a);
        assert(forall|m: int| b - a <= m < mid.len() ==> is_ascii_space(mid[m]));
        assert(!is_ascii_space(mid[b - a - 1]));
        lemma_trim_end_is(mid, b - a);
        assert(mid.take(b - a) =~= c.subrange(off + a, off + b));
    }
}

proof fn lemma_trim_start_is(s: Seq<u8>, a: int)
    requires
        0 <= a <= s.len(),
        forall|m: int| 0 <= m < a ==> is_ascii_space(s[m]),
        a == s.len() || !is_ascii_space(s[a]),
    ensures
        trim_start(s) == s.skip(a),
    decreases a,
{
    if a == 0 {
        assert(s.skip(0) =~= s);
    } else {
        lemma_trim_start_is(s.skip(1), a - 1);
        assert(s.skip(1).skip(a - 1) =~= s.skip(a));
    }
}

proof fn lemma_trim_end_is(s: Seq<u8>, b: int)
    requires
        0 < b <= s.len(),
        !is_ascii_space(s[b - 1]),
        forall|m: int| b <= m < s.len() ==> is_ascii_space(s[m]),
    ensures
        trim_end(s) == s.take(b),
    decreases s.len(),
{
    if b == s.len() {
        assert(s.take(b) =~= s);
    } else {
        lemma_trim_end_is(s.drop_last(), b);
        assert(s.drop_last().take(b) =~= s.take(b));
    }
}

proof fn lemma_trim_end_all_space(s: Seq<u8>)
    requires
        forall|m: int| 0 <= m < s.len() ==> is_ascii_space(s[m]),
    ensures
        trim_end(s) == Seq::<u8>::empty(),
    decreases s.len(),
{
    if s.len() == 0 {
        assert(s =~= Seq::<u8>::empty());
    } else {
        lemma_trim_end_all_space(s.drop_last());
    }
}

} // verus!

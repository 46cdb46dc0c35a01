//! Normalization of raw feed payloads before they are parsed: the byte-order mark that the
//! file source writes is dropped, and two quirks of the broadcast's JSON are rewritten.
use vstd::prelude::*;

verus! {

/// The UTF-8 byte-order mark.
pub open spec fn bom() -> Seq<u8> {
    seq![0xEFu8, 0xBBu8, 0xBFu8]
}

/// `s` without a leading byte-order mark.
pub open spec fn without_bom(s: Seq<u8>) -> Seq<u8> {
    if s.len() >= 3 && s.subrange(0, 3) == bom() {
        s.subrange(3, s.len() as int)
    } else {
        s
    }
}

/// Whether `pat` occurs in `s` at index `i`.
pub open spec fn occurs_at(s: Seq<u8>, pat: Seq<u8>, i: int) -> bool {
    0 <= i && i + pat.len() <= s.len() && s.subrange(i, i + pat.len()) == pat
}

/// `s` from index `i` on, with every occurrence of `pat` replaced by `rep`, scanning from the
/// left and not overlapping.
pub open spec fn replaced_from(s: Seq<u8>, pat: Seq<u8>, rep: Seq<u8>, i: int) -> Seq<u8>
    recommends
        pat.len() > 0,
    decreases s.len() - i,
{
    if i < 0 || i >= s.len() || pat.len() == 0 {
        Seq::empty()
    } else if occurs_at(s, pat, i) {
        rep + replaced_from(s, pat, rep, i + pat.len())
    } else {
        seq![s[i]] + replaced_from(s, pat, rep, i + 1)
    }
}

/// `s` with every occurrence of `pat` replaced by `rep`, scanning from the left.
pub open spec fn replaced(s: Seq<u8>, pat: Seq<u8>, rep: Seq<u8>) -> Seq<u8> {
    replaced_from(s, pat, rep, 0)
}

/// The bytes of `"type":`, a key that the event feed uses and that is a reserved word.
pub open spec fn type_key() -> Seq<u8> {
    seq![34u8, 116u8, 121u8, 112u8, 101u8, 34u8, 58u8]
}

/// The bytes of `"type_":`, the key that the event record reads instead.
pub open spec fn type_key_renamed() -> Seq<u8> {
    seq![34u8, 116u8, 121u8, 112u8, 101u8, 95u8, 34u8, 58u8]
}

/// The bytes of `: null,`, a null that some feeds send where a string belongs.
pub open spec fn null_value() -> Seq<u8> {
    seq![58u8, 32u8, 110u8, 117u8, 108u8, 108u8, 44u8]
}

/// The bytes of `: "",`, the empty string that stands in for such a null.
pub open spec fn empty_string_value() -> Seq<u8> {
    seq![58u8, 32u8, 34u8, 34u8, 44u8]
}

fn type_key_bytes() -> (r: Vec<u8>)
    ensures
        r@ == type_key(),
{
    let r: Vec<u8> = vec![34, 116, 121, 112, 101, 34, 58];
    assert(r@ =~= type_key());
    r
}

fn type_key_renamed_bytes() -> (r: Vec<u8>)
    ensures
        r@ == type_key_renamed(),
{
    let r: Vec<u8> = vec![34, 116, 121, 112, 101, 95, 34, 58];
    assert(r@ =~= type_key_renamed());
    r
}

fn null_value_bytes() -> (r: Vec<u8>)
    ensures
        r@ == null_value(),
{
    let r: Vec<u8> = vec![58, 32, 110, 117, 108, 108, 44];
    assert(r@ =~= null_value());
    r
}

fn empty_string_value_bytes() -> (r: Vec<u8>)
    ensures
        r@ == empty_string_value(),
{
    let r: Vec<u8> = vec![58, 32, 34, 34, 44];
    assert(r@ =~= empty_string_value());
    r
}

/// Whether `pat` occurs in `s` at index `i`.
fn occurs_at_exec(s: &[u8], pat: &[u8], i: usize) -> (r: bool)
    ensures
        r == occurs_at(s@, pat@, i as int),
{
    if pat.len() > s.len() || i > s.len() - pat.len() {
        return false;
    }
    let mut j: usize = 0;
    while j < pat.len()
        invariant
            j <= pat@.len(),
            i + pat@.len() <= s@.len() <= usize::MAX,
            forall|k: int| 0 <= k < j ==> s@[i + k] == pat@[k],
        decreases pat@.len() - j,
    {
        if s[i + j] != pat[j] {
            assert(s@.subrange(i as int, i + pat@.len())[j as int] != pat@[j as int]);
            return false;
        }
        j = j + 1;
    }
    assert(s@.subrange(i as int, i + pat@.len()) =~= pat@);
    true
}

/// Copies `s` with every occurrence of `pat` replaced by `rep`, scanning from the left.
pub fn replace_all(s: &[u8], pat: &[u8], rep: &[u8]) -> (r: Vec<u8>)
    requires
        pat@.len() > 0,
    ensures
        r@ == replaced(s@, pat@, rep@),
{
    let mut out: Vec<u8> = Vec::new();
    let mut i: usize = 0;
    while i < s.len()
        invariant
            pat@.len() > 0,
            i <= s@.len(),
            out@ + replaced_from(s@, pat@, rep@, i as int) == replaced(s@, pat@, rep@),
        decreases s@.len() - i,
    {
        let ghost before = out@;
        if occurs_at_exec(s, pat, i) {
            let mut k: usize = 0;
            while k < rep.len()
                invariant
                    k <= rep@.len(),
                    out@ == before + rep@.subrange(0, k as int),
                decreases rep@.len() - k,
            {
                out.push(rep[k]);
                k = k + 1;
                assert(out@ =~= before + rep@.subrange(0, k as int));
            }
            assert(rep@.subrange(0, k as int) =~= rep@);
            assert(before + (rep@ + replaced_from(s@, pat@, rep@, i + pat@.len())) =~= out@
                + replaced_from(s@, pat@, rep@, i + pat@.len()));
            i = i + pat.len();
        } else {
            out.push(s[i]);
            assert(before + (seq![s@[i as int]] + replaced_from(s@, pat@, rep@, i + 1)) =~= out@
                + replaced_from(s@, pat@, rep@, i + 1));
            i = i + 1;
        }
    }
    assert(out@ + replaced_from(s@, pat@, rep@, i as int) =~= out@);
    out
}

/// Copies `s` without a leading byte-order mark.
pub fn strip_bom(s: &[u8]) -> (r: Vec<u8>)
    ensures
        r@ == without_bom(s@),
{
    let has_bom = s.len() >= 3 && s[0] == 0xEF && s[1] == 0xBB && s[2] == 0xBF;
    let start: usize = if has_bom { 3 } else { 0 };
    assert(has_bom <==> (s@.len() >= 3 && s@.subrange(0, 3) == bom())) by {
        if s@.len() >= 3 {
            if s@.subrange(0, 3) == bom() {
                assert(s@[0] == s@.subrange(0, 3)[0]);
                assert(s@[1] == s@.subrange(0, 3)[1]);
                assert(s@[2] == s@.subrange(0, 3)[2]);
            }
            if has_bom {
                assert(s@.subrange(0, 3) =~= bom());
            }
        }
    }
    let mut out: Vec<u8> = Vec::new();
    let mut i: usize = start;
    while i < s.len()
        invariant
            start <= i <= s@.len(),
            out@ == s@.subrange(start as int, i as int),
        decreases s@.len() - i,
    {
        out.push(s[i]);
        i = i + 1;
        assert(out@ =~= s@.subrange(start as int, i as int));
    }
    assert(s@.subrange(0, s@.len() as int) =~= s@);
    out
}

/// Renames the reserved `"type":` key to `"type_":`.
pub fn rename_type_key(s: &[u8]) -> (r: Vec<u8>)
    ensures
        r@ == replaced(s@, type_key(), type_key_renamed()),
{
    let pat = type_key_bytes();
    let rep = type_key_renamed_bytes();
    replace_all(s, pat.as_slice(), rep.as_slice())
}

/// Replaces each `: null,` by `: "",`.
pub fn null_to_empty_string(s: &[u8]) -> (r: Vec<u8>)
    ensures
        r@ == replaced(s@, null_value(), empty_string_value()),
{
    let pat = null_value_bytes();
    let rep = empty_string_value_bytes();
    replace_all(s, pat.as_slice(), rep.as_slice())
}

} // verus!

use vstd::prelude::*;

use crate::path::{Status, SymbolicPath};

verus! {

/// Draws two fresh `u32`, narrows them to `4..=7` and `5..=8`, and checks
/// that their product lies in `20..=56`. A live path never fails the check;
/// a pruned one stops after the narrowing and yields 0.
pub fn bounded_product(path: &mut SymbolicPath) -> (r: u32)
    requires
        old(path).wf(),
    ensures
        final(path).wf(),
        old(path)@.status != Status::Failed ==> final(path)@.status != Status::Failed,
        final(path).live() ==> 20 <= r <= 56,
        old(path)@.can_draw(2) ==> ({
            let a = old(path)@.pending[0] as u32;
            let b = old(path)@.pending[1] as u32;
            let inside = 4 <= a <= 7 && 5 <= b <= 8;
            &&& final(path)@.status == (if inside { Status::Live } else { Status::Pruned })
            &&& inside ==> r == a * b
        }),
{
    let a = path.fresh_u32();
    let b = path.fresh_u32();
    path.constrain(4 <= a && a <= 7);
    path.constrain(5 <= b && b <= 8);
    if !path.is_live() {
        return 0;
    }
    assert(20 <= a * b <= 56) by (nonlinear_arith)
        requires
            4 <= a <= 7,
            5 <= b <= 8,
    ;
    let r = a * b;
    path.check(20 <= r && r <= 56);
    r
}

/// Writes its position into the slot of `mem` that each entry of `refs`
/// names, then reads back the slot of the first entry. Distinct entries
/// stand for exclusive references, which never alias.
pub fn bing(mem: &mut Vec<usize>, refs: &Vec<usize>) -> (r: usize)
    requires
        refs@.len() > 0,
        forall|i: int| 0 <= i < refs@.len() ==> refs@[i] < old(mem)@.len(),
        forall|i: int, j: int| 0 <= i < j < refs@.len() ==> refs@[i] != refs@[j],
    ensures
        final(mem)@.len() == old(mem)@.len(),
        forall|i: int| 0 <= i < refs@.len() ==> final(mem)@[refs@[i] as int] == i,
        forall|k: int|
            0 <= k < old(mem)@.len() && (forall|i: int| 0 <= i < refs@.len() ==> refs@[i] != k)
                ==> final(mem)@[k] == old(mem)@[k],
        r == 0,
{
    let mut i: usize = 0;
    while i < refs.len()
        invariant
            i <= refs@.len(),
            mem@.len() == old(mem)@.len(),
            forall|j: int| 0 <= j < refs@.len() ==> refs@[j] < old(mem)@.len(),
            forall|a: int, b: int| 0 <= a < b < refs@.len() ==> refs@[a] != refs@[b],
            forall|j: int| 0 <= j < i ==> mem@[refs@[j] as int] == j,
            forall|k: int|
                0 <= k < old(mem)@.len() && (forall|j: int| 0 <= j < i ==> refs@[j] != k)
                    ==> mem@[k] == old(mem)@[k],
        decreases refs@.len() - i,
    {
        let slot = refs[i];
        mem.set(slot, i);
        i = i + 1;
    }
    mem[refs[0]]
}

/// The index is 0 or 1.
pub fn is_bit(x: usize) -> (r: bool)
    ensures
        r == (x == 0 || x == 1),
{
    x == 0 || x == 1
}

/// Lays out `2 * size` zeroed slots in pairs, picks one slot of each pair by
/// a fresh index narrowed to 0 or 1, runs `bing` over the picks and checks
/// that the first pick reads back 0. A live path never fails the check.
pub fn startup(path: &mut SymbolicPath, size: usize) -> (r: usize)
    requires
        old(path).wf(),
        1 <= size <= usize::MAX / 2,
    ensures
        final(path).wf(),
        old(path)@.status != Status::Failed ==> final(path)@.status != Status::Failed,
        final(path).live() ==> r == 0,
{
    let mut mem: Vec<usize> = Vec::new();
    let slots: usize = 2 * size;
    let mut k: usize = 0;
    while k < slots
        invariant
            k <= slots,
            mem@.len() == k,
        decreases slots - k,
    {
        mem.push(0);
        k = k + 1;
    }
    let mut refs: Vec<usize> = Vec::new();
    let mut i: usize = 0;
    while i < size
        invariant
            path.wf(),
            i <= size,
            1 <= size <= usize::MAX / 2,
            mem@.len() == 2 * size,
            old(path)@.status != Status::Failed ==> path@.status != Status::Failed,
            path.live() ==> refs@.len() == i,
            path.live() ==> forall|j: int| 0 <= j < i ==> refs@[j] == 2 * j || refs@[j] == 2 * j + 1,
        decreases size - i,
    {
        let idx = path.fresh_usize_where(is_bit);
        if !path.is_live() {
            return 0;
        }
        refs.push(2 * i + idx);
        i = i + 1;
    }
    if !path.is_live() {
        return 0;
    }
    assert forall|a: int, b: int| 0 <= a < b < refs@.len() implies refs@[a] != refs@[b] by {
        assert(refs@[a] == 2 * a || refs@[a] == 2 * a + 1);
        assert(refs@[b] == 2 * b || refs@[b] == 2 * b + 1);
    }
    let r = bing(&mut mem, &refs);
    path.check(r == 0);
    r
}

/// The characters that bytes decode to as UTF-8, or `None` where they are
/// not valid UTF-8.
pub uninterp spec fn utf8_decoded(bytes: Seq<u8>) -> Option<Seq<char>>;

/// Relies on `String::from_utf8`: it succeeds exactly on valid UTF-8, and
/// the string then holds the decoded characters.
#[verifier::external_body]
fn string_from_utf8(bytes: Vec<u8>) -> (r: Option<String>)
    ensures
        r.is_some() == utf8_decoded(bytes@).is_some(),
        r.is_some() ==> utf8_decoded(bytes@) == Some(r.unwrap()@),
{
    String::from_utf8(bytes).ok()
}

/// Unwraps a decoding: a failed one fails the path.
pub fn settle_decoding(path: &mut SymbolicPath, decoded: Option<String>) -> (r: Option<String>)
    ensures
        r == decoded,
        final(path)@ == (if decoded.is_some() { old(path)@ } else { old(path)@.aborted() }),
        final(path).wf() == old(path).wf(),
{
    if decoded.is_none() {
        path.abort();
    }
    decoded
}

/// Decodes `bytes` as UTF-8; bytes that are not valid UTF-8 fail the path.
pub fn decode_or_fail(path: &mut SymbolicPath, bytes: Vec<u8>) -> (r: Option<String>)
    ensures
        r.is_some() == utf8_decoded(bytes@).is_some(),
        r.is_some() ==> utf8_decoded(bytes@) == Some(r.unwrap()@),
        final(path)@ == (if utf8_decoded(bytes@).is_some() { old(path)@ } else { old(path)@.aborted() }),
        final(path).wf() == old(path).wf(),
{
    let decoded = string_from_utf8(bytes);
    settle_decoding(path, decoded)
}

/// Decodes two fresh bytes with nothing assumed of them: the path fails
/// wherever they are not valid UTF-8.
pub fn decode_fresh_pair(path: &mut SymbolicPath) -> (r: Option<String>)
    requires
        old(path).wf(),
    ensures
        final(path).wf(),
        old(path)@.can_draw(2) ==> ({
            let bytes = seq![old(path)@.pending[0] as u8, old(path)@.pending[1] as u8];
            &&& r.is_some() == utf8_decoded(bytes).is_some()
            &&& utf8_decoded(bytes).is_none() ==> final(path)@.status == Status::Failed
            &&& utf8_decoded(bytes).is_some() ==> final(path)@.status == Status::Live
        }),
{
    let b1 = path.fresh_u8();
    let b2 = path.fresh_u8();
    if !path.is_live() {
        return None;
    }
    let bytes: Vec<u8> = vec![b1, b2];
    proof {
        assert(bytes@ =~= seq![old(path)@.pending[0] as u8, old(path)@.pending[1] as u8]);
    }
    decode_or_fail(path, bytes)
}

/// Decodes two fresh bytes under the assumption that they are valid UTF-8:
/// the decoding then never fails the path.
pub fn decode_fresh_valid_pair(path: &mut SymbolicPath) -> (r: Option<String>)
    requires
        old(path).wf(),
    ensures
        final(path).wf(),
        old(path)@.status != Status::Failed ==> final(path)@.status != Status::Failed,
        final(path).live() ==> r.is_some(),
        old(path)@.can_draw(2) ==> ({
            let bytes = seq![old(path)@.pending[0] as u8, old(path)@.pending[1] as u8];
            &&& final(path)@.status == (if utf8_decoded(bytes).is_some() { Status::Live } else { Status::Pruned })
            &&& r.is_some() ==> utf8_decoded(bytes) == Some(r.unwrap()@)
        }),
{
    let b1 = path.fresh_u8();
    let b2 = path.fresh_u8();
    if !path.is_live() {
        return None;
    }
    let probe: Vec<u8> = vec![b1, b2];
    let valid = string_from_utf8(probe).is_some();
    path.constrain(valid);
    if !path.is_live() {
        return None;
    }
    let bytes: Vec<u8> = vec![b1, b2];
    proof {
        assert(bytes@ =~= seq![old(path)@.pending[0] as u8, old(path)@.pending[1] as u8]);
    }
    decode_or_fail(path, bytes)
}

} // verus!

use vstd::prelude::*;

verus! {

/// Where an explored path stands.
#[derive(PartialEq, Eq, Structural, Clone, Copy, Debug)]
pub enum Status {
    /// The path goes on.
    Live,
    /// The path was discarded by a false assumption or a rejection: no error.
    Pruned,
    /// The path ended with a verification failure.
    Failed,
}

/// One explored execution path, as the backend sees it.
///
/// The backend is injected: fresh symbolic values are taken, in order, from
/// the raw words it was built with, and each assumption handed to it is
/// recorded. A path whose words are used up has nothing left to explore and
/// is pruned.
pub struct SymbolicPath {
    status: Status,
    draws: Vec<u64>,
    next: usize,
    assumptions: Vec<bool>,
    diagnostic: Option<String>,
}

/// The abstract state of a path.
pub struct PathView {
    pub status: Status,
    /// The raw words not yet handed out.
    pub pending: Seq<u64>,
    /// Every assumption recorded while the path was live, in order.
    pub assumptions: Seq<bool>,
    /// The message reported with the failure, if one was.
    pub diagnostic: Option<Seq<char>>,
}

impl PathView {
    /// The path is live and holds at least `k` raw words.
    pub open spec fn can_draw(self, k: nat) -> bool {
        self.status == Status::Live && self.pending.len() >= k
    }

    /// The same path once `k` raw words were handed out.
    pub open spec fn advanced(self, k: nat) -> PathView {
        PathView { pending: self.pending.skip(k as int), ..self }
    }

    /// The same path after a request it could not serve: a live path is pruned.
    pub open spec fn halted(self) -> PathView {
        PathView { status: if self.status == Status::Live { Status::Pruned } else { self.status }, ..self }
    }

    /// The same path after a failure with no message: a live path fails.
    pub open spec fn aborted(self) -> PathView {
        PathView { status: if self.status == Status::Live { Status::Failed } else { self.status }, ..self }
    }

    /// The same path after a failure reported with `message`: a live path
    /// fails and keeps the message.
    pub open spec fn failed(self, message: Seq<char>) -> PathView {
        if self.status == Status::Live {
            PathView { status: Status::Failed, diagnostic: Some(message), ..self }
        } else {
            self
        }
    }

    /// The same path after `pred` was handed over as a path condition.
    pub open spec fn constrained(self, pred: bool) -> PathView {
        if self.status == Status::Live {
            PathView {
                status: if pred { Status::Live } else { Status::Pruned },
                assumptions: self.assumptions.push(pred),
                ..self
            }
        } else {
            self
        }
    }

    /// How a request for `k` raw words leaves the path: served whole, or not at all.
    pub open spec fn drew(self, next: PathView, k: nat) -> bool {
        &&& self.can_draw(k) ==> next == self.advanced(k)
        &&& !self.can_draw(k) ==> next == self.halted()
    }
}

/// The number that bytes give in little-endian order: the first byte is the
/// least significant.
pub open spec fn le_value(bytes: Seq<u8>) -> nat
    decreases bytes.len(),
{
    if bytes.len() == 0 {
        0
    } else {
        bytes[0] as nat + 256 * le_value(bytes.drop_first())
    }
}

/// The low byte of each raw word.
pub open spec fn low_bytes(words: Seq<u64>) -> Seq<u8> {
    words.map_values(|w: u64| w as u8)
}

pub open spec fn pow256(n: nat) -> nat
    decreases n,
{
    if n == 0 {
        1
    } else {
        256 * pow256((n - 1) as nat)
    }
}

proof fn lemma_le_value_bound(bytes: Seq<u8>)
    ensures
        le_value(bytes) < pow256(bytes.len()),
    decreases bytes.len(),
{
    if bytes.len() > 0 {
        lemma_le_value_bound(bytes.drop_first());
        assert(pow256(bytes.len()) == 256 * pow256(bytes.drop_first().len()));
    }
}

proof fn lemma_pow256_16()
    ensures
        pow256(16) == 0x1_0000_0000_0000_0000_0000_0000_0000_0000,
{
    reveal_with_fuel(pow256, 17);
}

proof fn lemma_pow256_mono(a: nat, b: nat)
    requires
        a <= b,
    ensures
        pow256(a) <= pow256(b),
    decreases b,
{
    if a < b {
        lemma_pow256_mono(a, (b - 1) as nat);
    }
}

impl View for SymbolicPath {
    type V = PathView;

    closed spec fn view(&self) -> PathView {
        PathView {
            status: self.status,
            pending: self.draws@.skip(self.next as int),
            assumptions: self.assumptions@,
            diagnostic: match &self.diagnostic {
                Some(m) => Some(m@),
                None => None,
            },
        }
    }
}

impl SymbolicPath {
    pub closed spec fn wf(&self) -> bool {
        self.next <= self.draws@.len()
    }

    pub open spec fn live(&self) -> bool {
        self@.status == Status::Live
    }

    /// A live path whose symbolic values will be the given raw words, in order.
    pub fn new(draws: Vec<u64>) -> (r: Self)
        ensures
            r.wf(),
            r@.status == Status::Live,
            r@.pending == draws@,
            r@.assumptions == Seq::<bool>::empty(),
            r@.diagnostic.is_none(),
    {
        let r = SymbolicPath { status: Status::Live, draws: draws, next: 0, assumptions: Vec::new(), diagnostic: None };
        proof {
            assert(r.draws@.skip(0) =~= r.draws@);
        }
        r
    }

    pub fn status(&self) -> (r: Status)
        ensures
            r == self@.status,
    {
        self.status
    }

    pub fn is_live(&self) -> (r: bool)
        ensures
            r == (self@.status == Status::Live),
    {
        self.status == Status::Live
    }

    pub fn is_pruned(&self) -> (r: bool)
        ensures
            r == (self@.status == Status::Pruned),
    {
        self.status == Status::Pruned
    }

    pub fn has_failed(&self) -> (r: bool)
        ensures
            r == (self@.status == Status::Failed),
    {
        self.status == Status::Failed
    }

    /// The number of raw words not yet handed out.
    pub fn pending_len(&self) -> (r: usize)
        requires
            self.wf(),
        ensures
            r == self@.pending.len(),
    {
        self.draws.len() - self.next
    }

    /// The assumptions recorded so far.
    pub fn assumptions(&self) -> (r: &Vec<bool>)
        ensures
            r@ == self@.assumptions,
    {
        &self.assumptions
    }

    /// Asks the backend for one raw word.
    fn draw(&mut self) -> (r: u64)
        requires
            old(self).wf(),
        ensures
            final(self).wf(),
            old(self)@.drew(final(self)@, 1),
            old(self)@.can_draw(1) ==> r == old(self)@.pending[0],
            !old(self)@.can_draw(1) ==> r == 0,
            final(self).draws@ == old(self).draws@,
            old(self)@.can_draw(1) ==> final(self).next == old(self).next + 1,
    {
        if self.status == Status::Live && self.next < self.draws.len() {
            let r = self.draws[self.next];
            self.next = self.next + 1;
            proof {
                assert(self.draws@.skip(self.next as int) =~= old(self)@.pending.skip(1));
            }
            r
        } else {
            if self.status == Status::Live {
                self.status = Status::Pruned;
            }
            0
        }
    }

    /// A fresh symbolic `u8`, from the low byte of the next raw word.
    pub fn fresh_u8(&mut self) -> (r: u8)
        requires
            old(self).wf(),
        ensures
            final(self).wf(),
            old(self)@.drew(final(self)@, 1),
            old(self)@.can_draw(1) ==> r == old(self)@.pending[0] as u8,
            !old(self)@.can_draw(1) ==> r == 0,
    {
        self.draw() as u8
    }

    /// A fresh symbolic `u16`, from the low bits of the next raw word.
    pub fn fresh_u16(&mut self) -> (r: u16)
        requires
            old(self).wf(),
        ensures
            final(self).wf(),
            old(self)@.drew(final(self)@, 1),
            old(self)@.can_draw(1) ==> r == old(self)@.pending[0] as u16,
            !old(self)@.can_draw(1) ==> r == 0,
    {
        self.draw() as u16
    }

    /// A fresh symbolic `u32`, from the low bits of the next raw word.
    pub fn fresh_u32(&mut self) -> (r: u32)
        requires
            old(self).wf(),
        ensures
            final(self).wf(),
            old(self)@.drew(final(self)@, 1),
            old(self)@.can_draw(1) ==> r == old(self)@.pending[0] as u32,
            !old(self)@.can_draw(1) ==> r == 0,
    {
        self.draw() as u32
    }

    /// A fresh symbolic `u64`: the next raw word.
    pub fn fresh_u64(&mut self) -> (r: u64)
        requires
            old(self).wf(),
        ensures
            final(self).wf(),
            old(self)@.drew(final(self)@, 1),
            old(self)@.can_draw(1) ==> r == old(self)@.pending[0],
            !old(self)@.can_draw(1) ==> r == 0,
    {
        self.draw()
    }

    /// A fresh symbolic `usize`, from the low bits of the next raw word.
    pub fn fresh_usize(&mut self) -> (r: usize)
        requires
            old(self).wf(),
        ensures
            final(self).wf(),
            old(self)@.drew(final(self)@, 1),
            old(self)@.can_draw(1) ==> r == old(self)@.pending[0] as usize,
            !old(self)@.can_draw(1) ==> r == 0,
    {
        self.draw() as usize
    }

    /// A fresh symbolic `i8`: the low byte of the next raw word, two's complement.
    pub fn fresh_i8(&mut self) -> (r: i8)
        requires
            old(self).wf(),
        ensures
            final(self).wf(),
            old(self)@.drew(final(self)@, 1),
            old(self)@.can_draw(1) ==> r == old(self)@.pending[0] as i8,
            !old(self)@.can_draw(1) ==> r == 0,
    {
        self.draw() as i8
    }

    /// A fresh symbolic `i16`: the low bits of the next raw word, two's complement.
    pub fn fresh_i16(&mut self) -> (r: i16)
        requires
            old(self).wf(),
        ensures
            final(self).wf(),
            old(self)@.drew(final(self)@, 1),
            old(self)@.can_draw(1) ==> r == old(self)@.pending[0] as i16,
            !old(self)@.can_draw(1) ==> r == 0,
    {
        self.draw() as i16
    }

    /// A fresh symbolic `i32`: the low bits of the next raw word, two's complement.
    pub fn fresh_i32(&mut self) -> (r: i32)
        requires
            old(self).wf(),
        ensures
            final(self).wf(),
            old(self)@.drew(final(self)@, 1),
            old(self)@.can_draw(1) ==> r == old(self)@.pending[0] as i32,
            !old(self)@.can_draw(1) ==> r == 0,
    {
        self.draw() as i32
    }

    /// A fresh symbolic `i64`: the next raw word, two's complement.
    pub fn fresh_i64(&mut self) -> (r: i64)
        requires
            old(self).wf(),
        ensures
            final(self).wf(),
            old(self)@.drew(final(self)@, 1),
            old(self)@.can_draw(1) ==> r == old(self)@.pending[0] as i64,
            !old(self)@.can_draw(1) ==> r == 0,
    {
        self.draw() as i64
    }

    /// A fresh symbolic `isize`: the low bits of the next raw word, two's complement.
    pub fn fresh_isize(&mut self) -> (r: isize)
        requires
            old(self).wf(),
        ensures
            final(self).wf(),
            old(self)@.drew(final(self)@, 1),
            old(self)@.can_draw(1) ==> r == old(self)@.pending[0] as isize,
            !old(self)@.can_draw(1) ==> r == 0,
    {
        self.draw() as isize
    }

    /// A fresh symbolic `u128`, wider than the backend's word: it is made of
    /// sixteen fresh bytes, the low byte of each of the next sixteen raw
    /// words, in little-endian order (the first byte drawn is the least
    /// significant). With fewer than sixteen words left the path is pruned
    /// and none is taken.
    pub fn fresh_u128(&mut self) -> (r: u128)
        requires
            old(self).wf(),
        ensures
            final(self).wf(),
            old(self)@.drew(final(self)@, 16),
            old(self)@.can_draw(16) ==> r as nat == le_value(low_bytes(old(self)@.pending.take(16))),
            !old(self)@.can_draw(16) ==> r == 0,
    {
        if !(self.status == Status::Live && self.draws.len() - self.next >= 16) {
            if self.status == Status::Live {
                self.status = Status::Pruned;
            }
            return 0;
        }
        let mut bytes: Vec<u8> = Vec::new();
        let mut k: usize = 0;
        while k < 16
            invariant
                self.wf(),
                k <= 16,
                self.status == Status::Live,
                self.draws@ == old(self).draws@,
                self.assumptions@ == old(self).assumptions@,
                self@.diagnostic == old(self)@.diagnostic,
                self.next == old(self).next + k,
                old(self).next + 16 <= self.draws@.len(),
                bytes@ == low_bytes(old(self)@.pending.take(k as int)),
            decreases 16 - k,
        {
            let w = self.draw();
            bytes.push(w as u8);
            k = k + 1;
            proof {
                assert(bytes@ =~= low_bytes(old(self)@.pending.take(k as int)));
            }
        }
        proof {
            assert(self.draws@.skip(self.next as int) =~= old(self)@.pending.skip(16));
        }
        let mut r: u128 = 0;
        let mut i: usize = 16;
        while i > 0
            invariant
                i <= 16,
                bytes@.len() == 16,
                r as nat == le_value(bytes@.subrange(i as int, 16)),
            decreases i,
        {
            i = i - 1;
            proof {
                let s = bytes@.subrange(i as int, 16);
                assert(s.drop_first() =~= bytes@.subrange(i + 1, 16));
                lemma_le_value_bound(s);
                lemma_pow256_mono(s.len(), 16);
                lemma_pow256_16();
            }
            r = r * 256 + bytes[i] as u128;
        }
        proof {
            assert(bytes@.subrange(0, 16) =~= bytes@);
        }
        r
    }

    /// A fresh symbolic `i128`: the bits of a fresh `u128`, two's complement.
    pub fn fresh_i128(&mut self) -> (r: i128)
        requires
            old(self).wf(),
        ensures
            final(self).wf(),
            old(self)@.drew(final(self)@, 16),
            old(self)@.can_draw(16) ==> r == le_value(low_bytes(old(self)@.pending.take(16))) as i128,
            !old(self)@.can_draw(16) ==> r == 0,
    {
        self.fresh_u128() as i128
    }

    /// A fresh symbolic `bool`: a fresh byte is constrained to be 0 or 1, and
    /// 1 stands for `true`.
    pub fn fresh_bool(&mut self) -> (r: bool)
        requires
            old(self).wf(),
        ensures
            final(self).wf(),
            old(self)@.can_draw(1) ==> ({
                let c = old(self)@.pending[0] as u8;
                &&& r == (c == 1)
                &&& final(self)@ == old(self)@.advanced(1).constrained(c == 0 || c == 1)
            }),
            !old(self)@.can_draw(1) ==> final(self)@ == old(self)@.halted() && !r,
            final(self).live() ==> (old(self)@.pending[0] as u8 == 0 || old(self)@.pending[0] as u8 == 1),
    {
        let c = self.fresh_u8();
        self.constrain(c == 0 || c == 1);
        c == 1
    }

    /// A fresh symbolic `u64` for which `pred` holds: one fresh value, with
    /// `pred` of it recorded as a path condition in the same request. On a
    /// path that stays live the value satisfies `pred`.
    pub fn fresh_u64_where<F: Fn(u64) -> bool>(&mut self, pred: F) -> (r: u64)
        requires
            old(self).wf(),
            forall|x: u64| pred.requires((x,)),
        ensures
            final(self).wf(),
            final(self).live() ==> pred.ensures((r,), true),
            old(self)@.can_draw(1) ==> ({
                let ok = final(self)@.assumptions.last();
                &&& r == old(self)@.pending[0] as u64
                &&& pred.ensures((r,), ok)
                &&& final(self)@ == old(self)@.advanced(1).constrained(ok)
            }),
            !old(self)@.can_draw(1) ==> final(self)@ == old(self)@.halted() && r == 0,
    {
        let x = self.fresh_u64();
        let ok = pred(x);
        self.constrain(ok);
        x
    }

    /// A fresh symbolic `usize` for which `pred` holds: one fresh value, with
    /// `pred` of it recorded as a path condition in the same request. On a
    /// path that stays live the value satisfies `pred`.
    pub fn fresh_usize_where<F: Fn(usize) -> bool>(&mut self, pred: F) -> (r: usize)
        requires
            old(self).wf(),
            forall|x: usize| pred.requires((x,)),
        ensures
            final(self).wf(),
            final(self).live() ==> pred.ensures((r,), true),
            old(self)@.can_draw(1) ==> ({
                let ok = final(self)@.assumptions.last();
                &&& r == old(self)@.pending[0] as usize
                &&& pred.ensures((r,), ok)
                &&& final(self)@ == old(self)@.advanced(1).constrained(ok)
            }),
            !old(self)@.can_draw(1) ==> final(self)@ == old(self)@.halted() && r == 0,
    {
        let x = self.fresh_usize();
        let ok = pred(x);
        self.constrain(ok);
        x
    }

    /// A fresh symbolic `isize` for which `pred` holds: one fresh value, with
    /// `pred` of it recorded as a path condition in the same request. On a
    /// path that stays live the value satisfies `pred`.
    pub fn fresh_isize_where<F: Fn(isize) -> bool>(&mut self, pred: F) -> (r: isize)
        requires
            old(self).wf(),
            forall|x: isize| pred.requires((x,)),
        ensures
            final(self).wf(),
            final(self).live() ==> pred.ensures((r,), true),
            old(self)@.can_draw(1) ==> ({
                let ok = final(self)@.assumptions.last();
                &&& r == old(self)@.pending[0] as isize
                &&& pred.ensures((r,), ok)
                &&& final(self)@ == old(self)@.advanced(1).constrained(ok)
            }),
            !old(self)@.can_draw(1) ==> final(self)@ == old(self)@.halted() && r == 0,
    {
        let x = self.fresh_isize();
        let ok = pred(x);
        self.constrain(ok);
        x
    }

    /// Records `pred` as a path condition; a false one prunes the path. On a
    /// path that already ended nothing happens.
    pub fn constrain(&mut self, pred: bool)
        ensures
            final(self)@ == old(self)@.constrained(pred),
            final(self).wf() == old(self).wf(),
    {
        if self.status == Status::Live {
            self.assumptions.push(pred);
            if !pred {
                self.status = Status::Pruned;
            }
        }
    }

    /// Discards the path: the same as constraining it by `false`.
    pub fn reject(&mut self)
        ensures
            final(self)@ == old(self)@.constrained(false),
            final(self).wf() == old(self).wf(),
    {
        self.constrain(false);
    }

    /// Ends a live path with a verification failure.
    pub fn abort(&mut self)
        ensures
            final(self)@ == old(self)@.aborted(),
            final(self).wf() == old(self).wf(),
    {
        if self.status == Status::Live {
            self.status = Status::Failed;
        }
    }

    /// Ends a live path with a verification failure reported with `message`.
    pub fn fail_with(&mut self, message: &str)
        ensures
            final(self)@ == old(self)@.failed(message@),
            final(self).wf() == old(self).wf(),
    {
        if self.status == Status::Live {
            self.status = Status::Failed;
            self.diagnostic = Some(message.to_owned());
        }
    }

    /// The message the path failed with, if any.
    pub fn diagnostic(&self) -> (r: Option<&String>)
        ensures
            r.is_none() == self@.diagnostic.is_none(),
            r.is_some() ==> self@.diagnostic == Some(r.unwrap()@),
    {
        self.diagnostic.as_ref()
    }

    /// Fails the path, reporting `message`, when `cond` is false; otherwise
    /// does nothing.
    pub fn check_with(&mut self, cond: bool, message: &str)
        ensures
            final(self)@ == (if cond { old(self)@ } else { old(self)@.failed(message@) }),
            final(self).wf() == old(self).wf(),
    {
        if !cond {
            self.fail_with(message);
        }
    }

    /// Fails the path when `cond` is false; otherwise does nothing.
    pub fn check(&mut self, cond: bool)
        ensures
            final(self)@ == (if cond { old(self)@ } else { old(self)@.failed(check_message()) }),
            final(self).wf() == old(self).wf(),
    {
        self.check_with(cond, "assertion failed");
        proof {
            reveal_strlit("assertion failed");
        }
    }

    /// Fails the path unless the two values are equal; each operand is
    /// evaluated once, by the caller.
    pub fn check_eq(&mut self, left: i128, right: i128)
        ensures
            final(self)@ == (if left == right { old(self)@ } else { old(self)@.failed(check_eq_message()) }),
            final(self).wf() == old(self).wf(),
    {
        self.check_with(left == right, "assertion failed: `(left == right)`");
        proof {
            reveal_strlit("assertion failed: `(left == right)`");
        }
    }

    /// Fails the path when the two values are equal.
    pub fn check_ne(&mut self, left: i128, right: i128)
        ensures
            final(self)@ == (if left != right { old(self)@ } else { old(self)@.failed(check_ne_message()) }),
            final(self).wf() == old(self).wf(),
    {
        self.check_with(left != right, "assertion failed: `(left != right)`");
        proof {
            reveal_strlit("assertion failed: `(left != right)`");
        }
    }
}

pub open spec fn check_message() -> Seq<char> {
    "assertion failed"@
}

pub open spec fn check_eq_message() -> Seq<char> {
    "assertion failed: `(left == right)`"@
}

pub open spec fn check_ne_message() -> Seq<char> {
    "assertion failed: `(left != right)`"@
}

} // verus!

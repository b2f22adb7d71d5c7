//! A byte budget for reading decompressed data: reading past the limit is
//! an error, not a silent truncation.

use vstd::prelude::*;
use vstd::string::*;
use crate::conversions::string_from_chars;

verus! {

/// Hard cap on the decompressed size of one gzip-compressed blob (1 GiB),
/// against decompression bombs.
pub const MAX_GUNZIP_SIZE: u64 = 1073741824;

/// Hard cap on the total decompressed size read from one `.tgz` stream
/// (1 GiB).
pub const MAX_TGZ_SIZE: u64 = 1073741824;

/// The decimal digit character for `d` (below 10).
pub open spec fn digit_char(d: nat) -> char {
    (48 + d) as char
}

/// The decimal notation of `n`, without leading zeros.
pub open spec fn decimal(n: nat) -> Seq<char>
    decreases n,
{
    if n < 10 {
        seq![digit_char(n)]
    } else {
        decimal(n / 10).push(digit_char(n % 10))
    }
}

/// The decimal notation of `n`.
pub fn decimal_string(n: u64) -> (r: String)
    ensures
        r@ == decimal(n as nat),
{
    let mut m = n;
    let mut acc: Vec<char> = Vec::new();
    while m >= 10
        invariant
            decimal(n as nat) == decimal(m as nat) + acc@,
        decreases m,
    {
        let d = (m % 10) as u8;
        let c = (48u8 + d) as char;
        assert(c == digit_char((m % 10) as nat));
        let ghost old_acc = acc@;
        acc.insert(0, c);
        assert(decimal(m as nat) == decimal((m / 10) as nat).push(digit_char((m % 10) as nat)));
        assert(decimal(m as nat) + old_acc =~= decimal((m / 10) as nat) + acc@);
        m = m / 10;
    }
    let c = (48u8 + (m as u8)) as char;
    assert(c == digit_char(m as nat));
    acc.insert(0, c);
    assert(decimal(n as nat) =~= acc@);
    string_from_chars(&acc)
}

/// Reading went past the byte limit.
pub struct LimitExceeded {
    /// The limit that was exceeded.
    pub limit: u64,
}

/// The message of an exceeded limit.
pub open spec fn limit_message(limit: u64) -> Seq<char> {
    "Refusing to decompress further: exceeded "@ + decimal(limit as nat)
        + " byte limit (possible decompression bomb)"@
}

impl LimitExceeded {
    /// The message that reports the exceeded limit.
    pub fn message(&self) -> (r: String)
        ensures
            r@ == limit_message(self.limit),
    {
        let mut r = "Refusing to decompress further: exceeded ".to_owned();
        let d = decimal_string(self.limit);
        r.append(d.as_str());
        r.append(" byte limit (possible decompression bomb)");
        r
    }
}

/// Whether a read of `n` bytes is accepted after `consumed` bytes under
/// `limit`: the new total stays within the limit.
pub open spec fn accepts(consumed: nat, limit: nat, n: nat) -> bool {
    consumed + n <= limit
}

/// The total of the read sizes.
pub open spec fn total(ns: Seq<nat>) -> nat
    decreases ns.len(),
{
    if ns.len() == 0 {
        0
    } else {
        total(ns.drop_last()) + ns.last()
    }
}

/// The bytes handed out by reads of sizes `ns`, one after another, from a
/// reader that had counted `start` bytes: each accepted read hands out its
/// bytes, a refused one none.
pub open spec fn delivered(limit: nat, start: nat, ns: Seq<nat>) -> nat
    decreases ns.len(),
{
    if ns.len() == 0 {
        0
    } else {
        let init = ns.drop_last();
        delivered(limit, start, init) + if accepts(start + total(init), limit, ns.last()) {
            ns.last()
        } else {
            0
        }
    }
}

/// A reader of `inner` with a byte budget: each read reports how many
/// bytes it returned, and once more than `limit` bytes have been read in
/// all, the read that went past the limit is refused.
pub struct SizeLimitedReader<R> {
    inner: R,
    limit: u64,
    consumed: u64,
}

impl<R> SizeLimitedReader<R> {
    /// The wrapped reader.
    pub closed spec fn inner_spec(self) -> R {
        self.inner
    }

    /// The byte limit.
    pub closed spec fn limit_spec(self) -> u64 {
        self.limit
    }

    /// The bytes read so far.
    pub closed spec fn consumed_spec(self) -> u64 {
        self.consumed
    }

    /// A reader of `inner` that has read nothing yet and may read at most
    /// `limit` bytes.
    pub fn new(inner: R, limit: u64) -> (r: Self)
        ensures
            r.inner_spec() == inner,
            r.limit_spec() == limit,
            r.consumed_spec() == 0,
    {
        SizeLimitedReader { inner, limit, consumed: 0 }
    }

    /// The byte limit.
    pub fn limit(&self) -> (r: u64)
        ensures
            r == self.limit_spec(),
    {
        self.limit
    }

    /// The bytes read so far.
    pub fn consumed(&self) -> (r: u64)
        ensures
            r == self.consumed_spec(),
    {
        self.consumed
    }

    /// The wrapped reader, to read from; the budget is unchanged.
    pub fn get_mut(&mut self) -> (r: &mut R)
        ensures
            *r == old(self).inner_spec(),
            final(self).inner_spec() == *final(r),
            final(self).limit_spec() == old(self).limit_spec(),
            final(self).consumed_spec() == old(self).consumed_spec(),
    {
        &mut self.inner
    }

    /// Counts a read of `n` bytes against the budget: `Ok(n)` while the
    /// total stays within the limit, the error once it goes past it. The
    /// count keeps the bytes of a refused read too.
    pub fn record_read(&mut self, n: usize) -> (r: Result<usize, LimitExceeded>)
        requires
            old(self).consumed_spec() + n <= u64::MAX,
        ensures
            final(self).consumed_spec() == old(self).consumed_spec() + n,
            final(self).limit_spec() == old(self).limit_spec(),
            final(self).inner_spec() == old(self).inner_spec(),
            r is Ok <==> accepts(
                old(self).consumed_spec() as nat,
                old(self).limit_spec() as nat,
                n as nat,
            ),
            final(self).consumed_spec() <= final(self).limit_spec() ==> r == Ok::<
                usize,
                LimitExceeded,
            >(n),
            final(self).consumed_spec() > final(self).limit_spec() ==> (r matches Err(e)
                && e.limit == final(self).limit_spec()),
    {
        self.consumed = self.consumed + n as u64;
        if self.consumed > self.limit {
            return Err(LimitExceeded { limit: self.limit });
        }
        Ok(n)
    }
}


proof fn lemma_delivered_within_total(limit: nat, start: nat, ns: Seq<nat>)
    ensures
        delivered(limit, start, ns) <= total(ns),
    decreases ns.len(),
{
    if ns.len() > 0 {
        lemma_delivered_within_total(limit, start, ns.drop_last());
    }
}

/// Over any sequence of reads from a reader that starts within its limit
/// (a new reader starts at 0), the bytes handed out never take the count
/// past the limit: a caller never receives more than `limit` bytes in all.
pub proof fn reads_never_exceed_limit(limit: nat, start: nat, ns: Seq<nat>)
    requires
        start <= limit,
    ensures
        start + delivered(limit, start, ns) <= limit,
    decreases ns.len(),
{
    if ns.len() > 0 {
        let init = ns.drop_last();
        reads_never_exceed_limit(limit, start, init);
        lemma_delivered_within_total(limit, start, init);
    }
}

/// Once reading has gone past the limit, it stays past it: every later
/// read, which adds its bytes to the count and keeps the limit, is
/// refused as well.
pub proof fn refusal_is_final<R>(before: SizeLimitedReader<R>, after: SizeLimitedReader<R>, n: nat)
    requires
        before.consumed_spec() > before.limit_spec(),
        after.consumed_spec() == before.consumed_spec() + n,
        after.limit_spec() == before.limit_spec(),
    ensures
        after.consumed_spec() > after.limit_spec(),
{
}

} // verus!

use vstd::prelude::*;

verus! {

/// `n` is a power of two: it is positive and has a single bit set.
pub open spec fn is_power_of_two(n: usize) -> bool {
    n > 0 && n & ((n - 1) as usize) == 0
}

/// The logical content after pushing `x` onto `c` in a buffer of capacity `cap`:
/// the new value is appended and, once `cap` values are held, the oldest one leaves.
pub open spec fn push_model(c: Seq<u32>, x: u32, cap: nat) -> Seq<u32> {
    if c.len() < cap {
        c.push(x)
    } else {
        c.push(x).drop_first()
    }
}

/// The logical content of an empty buffer of capacity `cap` after pushing `xs` in order.
pub open spec fn pushes_model(xs: Seq<u32>, cap: nat) -> Seq<u32>
    decreases xs.len(),
{
    if xs.len() == 0 {
        Seq::empty()
    } else {
        push_model(pushes_model(xs.drop_last(), cap), xs.last(), cap)
    }
}

/// The last `min(cap, xs.len())` values of `xs`.
pub open spec fn last_values(xs: Seq<u32>, cap: nat) -> Seq<u32> {
    if xs.len() <= cap {
        xs
    } else {
        xs.subrange(xs.len() - cap, xs.len() as int)
    }
}

/// Sum of the values of `s`.
pub open spec fn seq_sum(s: Seq<u32>) -> int
    decreases s.len(),
{
    if s.len() == 0 {
        0
    } else {
        seq_sum(s.drop_last()) + s.last()
    }
}

/// Largest value of `s`, or 0 for an empty sequence.
pub open spec fn seq_max(s: Seq<u32>) -> u32
    decreases s.len(),
{
    if s.len() == 0 {
        0
    } else if seq_max(s.drop_last()) < s.last() {
        s.last()
    } else {
        seq_max(s.drop_last())
    }
}

/// A fixed-capacity circular buffer of `N` frame-time samples, in microseconds.
/// `N` must be a power of two, so that the write position wraps with a mask.
pub struct RingBuffer<const N: usize> {
    buffer: Vec<u32>,
    ptr: usize,
    len: usize,
}

impl<const N: usize> RingBuffer<N> {
    pub closed spec fn wf(&self) -> bool {
        &&& is_power_of_two(N)
        &&& self.buffer@.len() == N
        &&& self.ptr < N
        &&& self.len <= N
        &&& self.len < N ==> self.ptr == self.len
    }

    /// The valid slots `[0, len)` in storage order: what `iter` yields.
    pub closed spec fn slots(&self) -> Seq<u32> {
        self.buffer@.subrange(0, self.len as int)
    }

    /// The samples held, oldest first.
    pub closed spec fn contents(&self) -> Seq<u32> {
        if self.len < N {
            self.buffer@.subrange(0, self.len as int)
        } else {
            self.buffer@.subrange(self.ptr as int, N as int) + self.buffer@.subrange(
                0,
                self.ptr as int,
            )
        }
    }

    /// An empty buffer with every slot zeroed.
    pub fn new() -> (r: Self)
        requires
            is_power_of_two(N),
        ensures
            r.wf(),
            r.contents() == Seq::<u32>::empty(),
            r.slots() == Seq::<u32>::empty(),
    {
        let mut buffer: Vec<u32> = Vec::new();
        let mut i: usize = 0;
        while i < N
            invariant
                i <= N,
                buffer@.len() == i,
            decreases N - i,
        {
            buffer.push(0);
            i = i + 1;
        }
        let r = RingBuffer { buffer, ptr: 0, len: 0 };
        assert(r.slots() =~= Seq::<u32>::empty());
        r
    }

    pub fn is_empty(&self) -> (r: bool)
        requires
            self.wf(),
        ensures
            r == (self.contents().len() == 0),
    {
        self.len == 0
    }

    pub fn len(&self) -> (r: usize)
        requires
            self.wf(),
        ensures
            r == self.contents().len(),
            r == self.slots().len(),
            r <= N,
    {
        self.len
    }

    /// Writes `item` over the slot at the write position and advances it,
    /// evicting the oldest sample once the buffer is full.
    pub fn push(&mut self, item: u32)
        requires
            old(self).wf(),
        ensures
            final(self).wf(),
            final(self).contents() == push_model(old(self).contents(), item, N as nat),
            final(self).contents().len() == if old(self).contents().len() < N {
                old(self).contents().len() + 1
            } else {
                N as nat
            },
    {
        let ghost old_buf = self.buffer@;
        let p = self.ptr;
        self.buffer.set(p, item);
        let next = p + 1;
        let mask: usize = N - 1;
        proof {
            lemma_mask_wraps(p, N);
        }
        self.ptr = next & mask;
        if self.len < N {
            self.len = self.len + 1;
        }
        proof {
            let b = self.buffer@;
            if old(self).len < N {
                assert(b.subrange(0, self.len as int) =~= old_buf.subrange(
                    0,
                    old(self).len as int,
                ).push(item));
            } else {
                let oc = old(self).contents();
                assert(oc.push(item).drop_first() =~= b.subrange(self.ptr as int, N as int)
                    + b.subrange(0, self.ptr as int));
            }
        }
    }

    /// The valid slots `[0, len)` in storage order (not oldest first).
    pub fn iter(&self) -> (r: Vec<u32>)
        requires
            self.wf(),
        ensures
            r@ == self.slots(),
    {
        let mut r: Vec<u32> = Vec::new();
        let mut i: usize = 0;
        while i < self.len
            invariant
                self.wf(),
                i <= self.len,
                r@ == self.buffer@.subrange(0, i as int),
            decreases self.len - i,
        {
            r.push(self.buffer[i]);
            i = i + 1;
            assert(r@ =~= self.buffer@.subrange(0, i as int));
        }
        r
    }

    /// Sum of the held samples.
    pub fn total(&self) -> (r: u128)
        requires
            self.wf(),
        ensures
            r == seq_sum(self.slots()),
    {
        let mut acc: u128 = 0;
        let mut i: usize = 0;
        while i < self.len
            invariant
                self.wf(),
                i <= self.len,
                acc == seq_sum(self.buffer@.subrange(0, i as int)),
                acc <= i * 0xffff_ffffu128,
            decreases self.len - i,
        {
            proof {
                let s = self.buffer@.subrange(0, i + 1);
                assert(s.drop_last() =~= self.buffer@.subrange(0, i as int));
            }
            acc = acc + self.buffer[i] as u128;
            i = i + 1;
        }
        assert(self.buffer@.subrange(0, i as int) == self.slots());
        acc
    }

    /// Largest held sample, or 0 when the buffer is empty.
    pub fn largest(&self) -> (r: u32)
        requires
            self.wf(),
        ensures
            r == seq_max(self.slots()),
    {
        let mut m: u32 = 0;
        let mut i: usize = 0;
        while i < self.len
            invariant
                self.wf(),
                i <= self.len,
                m == seq_max(self.buffer@.subrange(0, i as int)),
            decreases self.len - i,
        {
            proof {
                let s = self.buffer@.subrange(0, i + 1);
                assert(s.drop_last() =~= self.buffer@.subrange(0, i as int));
            }
            let x = self.buffer[i];
            if m < x {
                m = x;
            }
            i = i + 1;
        }
        m
    }

    /// The valid slots hold the same samples as the logical content, in another order.
    pub proof fn lemma_slots_permute(&self)
        requires
            self.wf(),
        ensures
            self.slots().to_multiset() =~= self.contents().to_multiset(),
            self.slots().len() == self.contents().len(),
    {
        if self.len == N {
            let b = self.buffer@;
            assert(b.subrange(0, N as int) =~= b.subrange(0, self.ptr as int) + b.subrange(
                self.ptr as int,
                N as int,
            ));
            vstd::seq_lib::lemma_seq_union_to_multiset_commutative(
                b.subrange(0, self.ptr as int),
                b.subrange(self.ptr as int, N as int),
            );
        }
    }
    /// A buffer that has taken the pushes `xs` since it was created holds, in its valid
    /// slots and whatever their storage order, exactly the last `min(N, |xs|)` pushed values:
    /// as many as were pushed up to `N`, and `N` beyond that.
    pub proof fn lemma_holds_last_pushed(&self, xs: Seq<u32>)
        requires
            self.wf(),
            self.contents() == pushes_model(xs, N as nat),
        ensures
            self.slots().to_multiset() == last_values(xs, N as nat).to_multiset(),
            self.slots().len() == if xs.len() <= N {
                xs.len()
            } else {
                N as nat
            },
    {
        self.lemma_slots_permute();
        lemma_pushes_keep_last(xs, N as nat);
    }
}

/// Pushing `xs` into an empty buffer of capacity `cap` leaves exactly the last
/// `min(cap, |xs|)` pushed values, oldest first: the length is the number of pushes
/// while that is at most `cap`, and stays at `cap` beyond it.
pub proof fn lemma_pushes_keep_last(xs: Seq<u32>, cap: nat)
    requires
        cap > 0,
    ensures
        pushes_model(xs, cap) == last_values(xs, cap),
        pushes_model(xs, cap).len() == if xs.len() <= cap {
            xs.len()
        } else {
            cap
        },
    decreases xs.len(),
{
    if xs.len() > 0 {
        let p = xs.drop_last();
        lemma_pushes_keep_last(p, cap);
        if p.len() < cap {
            assert(p.push(xs.last()) =~= xs);
        } else {
            let prev = last_values(p, cap);
            assert(prev.push(xs.last()).drop_first() =~= xs.subrange(
                xs.len() - cap,
                xs.len() as int,
            ));
        }
    }
}

/// With a power-of-two `n`, masking `p + 1` by `n - 1` wraps it to 0 exactly at `n`.
proof fn lemma_mask_wraps(p: usize, n: usize)
    requires
        is_power_of_two(n),
        p < n,
    ensures
        ((p + 1) as usize & (n - 1) as usize) == if p + 1 < n {
            p + 1
        } else {
            0
        },
{
    let q: usize = (p + 1) as usize;
    let m: usize = (n - 1) as usize;
    assert(q < n && n > 0 && n & m == 0 && m == n - 1 ==> q & m == q) by (bit_vector);
}

} // verus!

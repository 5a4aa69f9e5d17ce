use vstd::prelude::*;

verus! {

/// Parameters per slot.
pub const SLOT_FX_PARAM_COUNT: usize = 100;

/// Slots whose parameters are stored.
pub const SLOT_COUNT: usize = 8;

/// Per-slot effect parameter storage: for each of the 8 slots, 100 parameter
/// values indexed by parameter id. Each value is held as the bit pattern of
/// an `f32` (`f32::to_bits`), so storing and reading back are exact.
#[derive(Debug, Clone)]
pub struct SlotFxParams {
    data: Vec<u32>,
}

impl View for SlotFxParams {
    /// `view[slot][pid]` is the stored bit pattern.
    type V = Seq<Seq<u32>>;

    closed spec fn view(&self) -> Seq<Seq<u32>> {
        Seq::new(
            SLOT_COUNT as nat,
            |s: int|
                Seq::new(
                    SLOT_FX_PARAM_COUNT as nat,
                    |p: int| self.data@[s * SLOT_FX_PARAM_COUNT + p],
                ),
        )
    }
}

/// The storage has 8 slots of 100 values each.
pub open spec fn params_shape(v: Seq<Seq<u32>>) -> bool {
    &&& v.len() == SLOT_COUNT
    &&& forall|s: int| 0 <= s < SLOT_COUNT ==> (#[trigger] v[s]).len() == SLOT_FX_PARAM_COUNT
}

impl SlotFxParams {
    /// The storage holds exactly 8 slots of 100 values.
    pub closed spec fn wf(self) -> bool {
        self.data@.len() == SLOT_COUNT * SLOT_FX_PARAM_COUNT
    }

    /// Every value of every slot is 0 (the bits of `0.0`).
    pub fn new() -> (p: SlotFxParams)
        ensures
            p.wf(),
            params_shape(p@),
            forall|s: int, q: int|
                0 <= s < SLOT_COUNT && 0 <= q < SLOT_FX_PARAM_COUNT ==> #[trigger] p@[s][q] == 0,
    {
        let mut data: Vec<u32> = Vec::new();
        let mut i: usize = 0;
        while i < SLOT_COUNT * SLOT_FX_PARAM_COUNT
            invariant
                i <= SLOT_COUNT * SLOT_FX_PARAM_COUNT,
                data@.len() == i,
                forall|j: int| 0 <= j < i ==> data@[j] == 0,
            decreases SLOT_COUNT * SLOT_FX_PARAM_COUNT - i,
        {
            data.push(0);
            i += 1;
        }
        let p = SlotFxParams { data };
        proof {
            assert forall|s: int, q: int|
                0 <= s < SLOT_COUNT && 0 <= q < SLOT_FX_PARAM_COUNT implies #[trigger] p@[s][q] == 0 by {
                assert(0 <= s * SLOT_FX_PARAM_COUNT + q < SLOT_COUNT * SLOT_FX_PARAM_COUNT);
            }
        }
        p
    }

    /// The bits stored for parameter `pid` of slot `slot`; 0 when either is out
    /// of range.
    pub fn get_bits(&self, slot: usize, pid: u8) -> (bits: u32)
        requires
            self.wf(),
        ensures
            params_shape(self@),
            bits == if slot < SLOT_COUNT && (pid as usize) < SLOT_FX_PARAM_COUNT {
                self@[slot as int][pid as int]
            } else {
                0
            },
    {
        if slot < SLOT_COUNT && (pid as usize) < SLOT_FX_PARAM_COUNT {
            self.data[slot * SLOT_FX_PARAM_COUNT + pid as usize]
        } else {
            0
        }
    }

    /// Store `bits` for parameter `pid` of slot `slot`; nothing happens when
    /// either is out of range.
    pub fn set_bits(&mut self, slot: usize, pid: u8, bits: u32)
        requires
            old(self).wf(),
        ensures
            final(self).wf(),
            params_shape(final(self)@),
            slot < SLOT_COUNT && (pid as usize) < SLOT_FX_PARAM_COUNT ==> final(self)@ == old(self)@.update(
                slot as int,
                old(self)@[slot as int].update(pid as int, bits),
            ),
            !(slot < SLOT_COUNT && (pid as usize) < SLOT_FX_PARAM_COUNT) ==> final(self)@ == old(self)@,
    {
        if slot < SLOT_COUNT && (pid as usize) < SLOT_FX_PARAM_COUNT {
            let ghost before = self@;
            let idx = slot * SLOT_FX_PARAM_COUNT + pid as usize;
            self.data.set(idx, bits);
            proof {
                let want = before.update(slot as int, before[slot as int].update(pid as int, bits));
                assert forall|s: int| 0 <= s < SLOT_COUNT implies #[trigger] self@[s] =~= want[s] by {
                    assert forall|q: int| 0 <= q < SLOT_FX_PARAM_COUNT implies self@[s][q] == want[s][q] by {
                        assert(0 <= s * SLOT_FX_PARAM_COUNT + q < SLOT_COUNT * SLOT_FX_PARAM_COUNT);
                        if s != slot {
                            assert(s * SLOT_FX_PARAM_COUNT + q != idx) by (nonlinear_arith)
                                requires
                                    s != slot, 0 <= q < 100, pid < 100,
                                    idx == slot * 100 + pid,
                            ;
                        } else if q != pid {
                            assert(s * SLOT_FX_PARAM_COUNT + q != idx);
                        }
                    }
                }
                assert(self@ =~= want);
            }
        }
    }

    /// Copy every parameter of slot `from` into slot `to`; nothing happens
    /// unless both are below 8.
    pub fn copy_slot(&mut self, from: usize, to: usize)
        requires
            old(self).wf(),
        ensures
            final(self).wf(),
            params_shape(final(self)@),
            from < SLOT_COUNT && to < SLOT_COUNT ==> final(self)@ == old(self)@.update(
                to as int,
                old(self)@[from as int],
            ),
            !(from < SLOT_COUNT && to < SLOT_COUNT) ==> final(self)@ == old(self)@,
    {
        if from < SLOT_COUNT && to < SLOT_COUNT {
            let ghost before = self@;
            let mut i: usize = 0;
            while i < SLOT_FX_PARAM_COUNT
                invariant
                    from < SLOT_COUNT,
                    to < SLOT_COUNT,
                    i <= SLOT_FX_PARAM_COUNT,
                    self.data@.len() == SLOT_COUNT * SLOT_FX_PARAM_COUNT,
                    forall|j: int|
                        0 <= j < SLOT_COUNT * SLOT_FX_PARAM_COUNT ==> #[trigger] self.data@[j] == if to
                            * SLOT_FX_PARAM_COUNT <= j < to * SLOT_FX_PARAM_COUNT + i {
                            before[from as int][j - to * SLOT_FX_PARAM_COUNT]
                        } else {
                            before[(j / SLOT_FX_PARAM_COUNT as int)][j % SLOT_FX_PARAM_COUNT as int]
                        },
                decreases SLOT_FX_PARAM_COUNT - i,
            {
                let v = self.data[from * SLOT_FX_PARAM_COUNT + i];
                self.data.set(to * SLOT_FX_PARAM_COUNT + i, v);
                i += 1;
            }
            proof {
                let want = before.update(to as int, before[from as int]);
                assert forall|s: int| 0 <= s < SLOT_COUNT implies #[trigger] self@[s] =~= want[s] by {
                    assert forall|q: int| 0 <= q < SLOT_FX_PARAM_COUNT implies self@[s][q] == want[s][q] by {
                        let j = s * SLOT_FX_PARAM_COUNT + q;
                        assert(j / SLOT_FX_PARAM_COUNT as int == s && j % SLOT_FX_PARAM_COUNT as int == q)
                            by (nonlinear_arith)
                            requires j == s * 100 + q, 0 <= q < 100;
                        assert(to * SLOT_FX_PARAM_COUNT <= j < to * SLOT_FX_PARAM_COUNT + 100 <==> s == to)
                            by (nonlinear_arith)
                            requires j == s * 100 + q, 0 <= q < 100;
                    }
                }
                assert(self@ =~= want);
            }
        }
    }

    /// Set every parameter of slot `slot` to 0; nothing happens unless it is
    /// below 8.
    pub fn clear_slot(&mut self, slot: usize)
        requires
            old(self).wf(),
        ensures
            final(self).wf(),
            params_shape(final(self)@),
            slot < SLOT_COUNT ==> final(self)@ == old(self)@.update(
                slot as int,
                Seq::new(SLOT_FX_PARAM_COUNT as nat, |p: int| 0u32),
            ),
            !(slot < SLOT_COUNT) ==> final(self)@ == old(self)@,
    {
        if slot < SLOT_COUNT {
            let ghost before = self@;
            let mut i: usize = 0;
            while i < SLOT_FX_PARAM_COUNT
                invariant
                    slot < SLOT_COUNT,
                    i <= SLOT_FX_PARAM_COUNT,
                    self.data@.len() == SLOT_COUNT * SLOT_FX_PARAM_COUNT,
                    forall|j: int|
                        0 <= j < SLOT_COUNT * SLOT_FX_PARAM_COUNT ==> #[trigger] self.data@[j] == if slot
                            * SLOT_FX_PARAM_COUNT <= j < slot * SLOT_FX_PARAM_COUNT + i {
                            0
                        } else {
                            before[(j / SLOT_FX_PARAM_COUNT as int)][j % SLOT_FX_PARAM_COUNT as int]
                        },
                decreases SLOT_FX_PARAM_COUNT - i,
            {
                self.data.set(slot * SLOT_FX_PARAM_COUNT + i, 0);
                i += 1;
            }
            proof {
                let want = before.update(slot as int, Seq::new(SLOT_FX_PARAM_COUNT as nat, |p: int| 0u32));
                assert forall|s: int| 0 <= s < SLOT_COUNT implies #[trigger] self@[s] =~= want[s] by {
                    assert forall|q: int| 0 <= q < SLOT_FX_PARAM_COUNT implies self@[s][q] == want[s][q] by {
                        let j = s * SLOT_FX_PARAM_COUNT + q;
                        assert(j / SLOT_FX_PARAM_COUNT as int == s && j % SLOT_FX_PARAM_COUNT as int == q)
                            by (nonlinear_arith)
                            requires j == s * 100 + q, 0 <= q < 100;
                        assert(slot * SLOT_FX_PARAM_COUNT <= j < slot * SLOT_FX_PARAM_COUNT + 100 <==> s == slot)
                            by (nonlinear_arith)
                            requires j == s * 100 + q, 0 <= q < 100;
                    }
                }
                assert(self@ =~= want);
            }
        }
    }
}

/// A read gives back what the last write to the same parameter stored, and a
/// write changes no other parameter of any slot.
pub proof fn lemma_read_after_write(
    before: Seq<Seq<u32>>,
    slot: int,
    pid: int,
    bits: u32,
    other_slot: int,
    other_pid: int,
)
    requires
        params_shape(before),
        0 <= slot < SLOT_COUNT,
        0 <= pid < SLOT_FX_PARAM_COUNT,
        0 <= other_slot < SLOT_COUNT,
        0 <= other_pid < SLOT_FX_PARAM_COUNT,
    ensures
        ({
            let after = before.update(slot, before[slot].update(pid, bits));
            &&& params_shape(after)
            &&& after[slot][pid] == bits
            &&& (other_slot != slot || other_pid != pid) ==> after[other_slot][other_pid]
                == before[other_slot][other_pid]
        }),
{
    let after = before.update(slot, before[slot].update(pid, bits));
    assert forall|s: int| 0 <= s < SLOT_COUNT implies (#[trigger] after[s]).len() == SLOT_FX_PARAM_COUNT by {
        if s != slot {
            assert(after[s] == before[s]);
        }
    }
}

/// After a copy the destination slot reads as the source slot did, and after
/// a clear every parameter of the slot reads 0; other slots are untouched.
pub proof fn lemma_copy_and_clear(before: Seq<Seq<u32>>, from: int, to: int, s: int, q: int)
    requires
        params_shape(before),
        0 <= from < SLOT_COUNT,
        0 <= to < SLOT_COUNT,
        0 <= s < SLOT_COUNT,
        0 <= q < SLOT_FX_PARAM_COUNT,
    ensures
        before.update(to, before[from])[to][q] == before[from][q],
        s != to ==> before.update(to, before[from])[s][q] == before[s][q],
        before.update(to, Seq::new(SLOT_FX_PARAM_COUNT as nat, |p: int| 0u32))[to][q] == 0,
        s != to ==> before.update(to, Seq::new(SLOT_FX_PARAM_COUNT as nat, |p: int| 0u32))[s][q]
            == before[s][q],
{
}

} // verus!

//! Memory management for constrained Jetson devices.
//!
//! A [`MemoryBudget`] is a ledger of device memory: a total, a part withheld
//! for the system, and a running count of what has been handed out. It never
//! hands out more than the usable part.
//!
//! The ledger is single-owner: every operation that changes it takes it by
//! exclusive reference, so a check and the update that follows it are one
//! step. Callers that share a ledger between tasks serialize access to it.

use vstd::prelude::*;
use crate::error::Error;
use crate::units::{Percent, Ratio};

verus! {

/// The state of a ledger as three numbers, all in MB.
pub struct BudgetView {
    /// Total device memory.
    pub total_mb: nat,
    /// Memory withheld for the system.
    pub reserved_mb: nat,
    /// Memory currently handed out.
    pub allocated_mb: nat,
}

impl BudgetView {
    /// Memory that may be handed out at all: the total less the reserve,
    /// floored at zero.
    pub open spec fn usable(self) -> nat {
        if self.total_mb >= self.reserved_mb {
            (self.total_mb - self.reserved_mb) as nat
        } else {
            0
        }
    }

    /// Memory that may still be handed out, floored at zero.
    pub open spec fn available(self) -> nat {
        if self.total_mb >= self.reserved_mb + self.allocated_mb {
            (self.total_mb - self.reserved_mb - self.allocated_mb) as nat
        } else {
            0
        }
    }

    /// The ledger is not over-committed.
    pub open spec fn wf(self) -> bool {
        self.allocated_mb <= self.usable()
    }

    /// Whether a request of `size_mb` fits.
    pub open spec fn can_allocate(self, size_mb: nat) -> bool {
        size_mb <= self.available()
    }

    /// The state after `size_mb` has been handed out.
    pub open spec fn allocate(self, size_mb: nat) -> BudgetView {
        BudgetView { allocated_mb: self.allocated_mb + size_mb, ..self }
    }

    /// The state after a handle of `size_mb` has been given back. A handle
    /// larger than everything handed out empties the ledger.
    pub open spec fn release(self, size_mb: nat) -> BudgetView {
        BudgetView {
            allocated_mb: if size_mb <= self.allocated_mb {
                (self.allocated_mb - size_mb) as nat
            } else {
                0
            },
            ..self
        }
    }

    /// Handed-out memory as a share of usable memory, in thousandths of a
    /// percent, rounded down; zero where nothing is usable.
    pub open spec fn utilization_millis(self) -> nat {
        if self.usable() == 0 {
            0
        } else {
            (self.allocated_mb * 100_000 / self.usable()) as nat
        }
    }

    /// The state after the requests in `sizes` have been served one after
    /// another, each granted exactly if it fits at its turn.
    pub open spec fn serve(self, sizes: Seq<u64>) -> BudgetView
        decreases sizes.len(),
    {
        if sizes.len() == 0 {
            self
        } else {
            let before = self.serve(sizes.drop_last());
            if before.can_allocate(sizes.last() as nat) {
                before.allocate(sizes.last() as nat)
            } else {
                before
            }
        }
    }

    /// Whether request `i` of `sizes` is granted when the requests are served
    /// one after another.
    pub open spec fn granted(self, sizes: Seq<u64>, i: int) -> bool
        recommends
            0 <= i < sizes.len(),
    {
        self.serve(sizes.take(i)).can_allocate(sizes[i] as nat)
    }
}

/// The sum of a sequence of sizes.
pub open spec fn total_size(sizes: Seq<u64>) -> nat
    decreases sizes.len(),
{
    if sizes.len() == 0 {
        0
    } else {
        total_size(sizes.drop_last()) + sizes.last() as nat
    }
}

/// Memory budget enforcer.
///
/// Prevents allocation that would exceed the configured budget.
#[derive(Debug)]
pub struct MemoryBudget {
    /// Total device memory in MB
    total_mb: u64,
    /// Reserved for system in MB
    reserved_mb: u64,
    /// Currently allocated in MB
    allocated: u64,
}

impl View for MemoryBudget {
    type V = BudgetView;

    closed spec fn view(&self) -> BudgetView {
        BudgetView {
            total_mb: self.total_mb as nat,
            reserved_mb: self.reserved_mb as nat,
            allocated_mb: self.allocated as nat,
        }
    }
}

/// A token for memory handed out by a [`MemoryBudget`].
///
/// It is made only by a successful [`MemoryBudget::try_allocate`] and is used
/// up by [`MemoryBudget::release`], so it can be given back at most once.
#[derive(Debug)]
#[must_use]
pub struct MemoryGuard {
    size_mb: u64,
}

impl MemoryGuard {
    /// The size of the allocation in MB, as a specification.
    pub closed spec fn spec_size_mb(&self) -> u64 {
        self.size_mb
    }

    /// Get the size of this allocation in MB.
    #[must_use]
    #[verifier::when_used_as_spec(spec_size_mb)]
    pub fn size_mb(&self) -> (mb: u64)
        ensures
            mb == self.spec_size_mb(),
    {
        self.size_mb
    }
}

impl MemoryBudget {
    #[verifier::type_invariant]
    spec fn inv(self) -> bool {
        self@.wf()
    }

    /// Create a new memory budget with nothing handed out.
    ///
    /// `total_mb` is the total device memory and `reserved_mb` the part
    /// withheld for the system, both in MB.
    #[must_use]
    pub fn new(total_mb: u64, reserved_mb: u64) -> (budget: Self)
        ensures
            budget@ == (BudgetView {
                total_mb: total_mb as nat,
                reserved_mb: reserved_mb as nat,
                allocated_mb: 0,
            }),
            budget@.wf(),
    {
        MemoryBudget { total_mb, reserved_mb, allocated: 0 }
    }

    /// Create budget for Jetson Orin Nano 8GB.
    #[must_use]
    pub fn orin_nano_8gb() -> (budget: Self)
        ensures
            budget@ == (BudgetView { total_mb: 8192, reserved_mb: 2048, allocated_mb: 0 }),
    {
        Self::new(8192, 2048)
    }

    /// Create budget for Jetson Orin Nano 4GB.
    #[must_use]
    pub fn orin_nano_4gb() -> (budget: Self)
        ensures
            budget@ == (BudgetView { total_mb: 4096, reserved_mb: 1024, allocated_mb: 0 }),
    {
        Self::new(4096, 1024)
    }

    /// Get available memory in MB.
    #[must_use]
    pub fn available_mb(&self) -> (mb: u64)
        ensures
            mb == self@.available(),
            self@.wf(),
    {
        proof {
            use_type_invariant(self);
        }
        self.total_mb.saturating_sub(self.reserved_mb + self.allocated)
    }

    /// Get allocated memory in MB. It never exceeds the usable memory.
    #[must_use]
    pub fn allocated_mb(&self) -> (mb: u64)
        ensures
            mb == self@.allocated_mb,
            mb <= self@.usable(),
    {
        proof {
            use_type_invariant(self);
        }
        self.allocated
    }

    /// Get usable memory (total - reserved) in MB.
    #[must_use]
    pub fn usable_mb(&self) -> (mb: u64)
        ensures
            mb == self@.usable(),
    {
        self.total_mb.saturating_sub(self.reserved_mb)
    }

    /// Try to allocate memory.
    ///
    /// Succeeds exactly if `size_mb` does not exceed what is available, and
    /// then counts `size_mb` as handed out. Otherwise the ledger is left as it
    /// was and the error names the request and what was available.
    pub fn try_allocate(&mut self, size_mb: u64) -> (outcome: Result<MemoryGuard, Error>)
        ensures
            match outcome {
                Ok(guard) => {
                    &&& old(self)@.can_allocate(size_mb as nat)
                    &&& guard.spec_size_mb() == size_mb
                    &&& final(self)@ == old(self)@.allocate(size_mb as nat)
                },
                Err(e) => {
                    &&& !old(self)@.can_allocate(size_mb as nat)
                    &&& e == (Error::InsufficientMemory {
                        requested_mb: size_mb,
                        available_mb: old(self)@.available() as u64,
                    })
                    &&& final(self)@ == old(self)@
                },
            },
            final(self)@.wf(),
    {
        proof {
            use_type_invariant(&*self);
        }
        let available: u64 = self.available_mb();
        if size_mb > available {
            return Err(Error::InsufficientMemory { requested_mb: size_mb, available_mb: available });
        }
        self.allocated = self.allocated + size_mb;
        Ok(MemoryGuard { size_mb })
    }

    /// Give back the memory that `guard` stands for.
    ///
    /// The count of handed-out memory goes down by the size of the guard. The
    /// guard is used up, so the same allocation cannot be given back twice.
    pub fn release(&mut self, guard: MemoryGuard)
        ensures
            final(self)@ == old(self)@.release(guard.spec_size_mb() as nat),
            final(self)@.wf(),
    {
        proof {
            use_type_invariant(&*self);
        }
        self.allocated = self.allocated.saturating_sub(guard.size_mb);
    }

    /// Check if allocation would fit.
    #[must_use]
    pub fn can_allocate(&self, size_mb: u64) -> (fits: bool)
        ensures
            fits == self@.can_allocate(size_mb as nat),
    {
        size_mb <= self.available_mb()
    }

    /// Get memory utilization as percentage of the usable memory, rounded
    /// down to a thousandth of a percent; zero where nothing is usable.
    #[must_use]
    pub fn utilization_percent(&self) -> (used: Percent)
        ensures
            used.millis == self@.utilization_millis(),
            used.millis <= 100_000,
    {
        proof {
            use_type_invariant(self);
        }
        let usable: u64 = self.usable_mb();
        if usable == 0 {
            return Percent { millis: 0 };
        }
        proof {
            law_utilization_range(self@);
        }
        Percent::share(self.allocated_mb(), usable)
    }
}

/// A request that fits is granted in full: afterwards exactly `size_mb` less
/// is available, and the ledger is still not over-committed. Unless the
/// reserve alone is more than the total, what is handed out and the reserve
/// together stay within the total.
pub proof fn law_allocate_takes_exactly_size(v: BudgetView, size_mb: nat)
    requires
        v.wf(),
        size_mb <= v.available(),
    ensures
        v.can_allocate(size_mb),
        v.allocate(size_mb).available() == v.available() - size_mb,
        v.allocate(size_mb).wf(),
        v.reserved_mb <= v.total_mb ==> v.allocate(size_mb).allocated_mb + v.reserved_mb
            <= v.total_mb,
{
}

/// A request that does not fit is refused whatever else holds: granting it
/// would over-commit the ledger.
pub proof fn law_refused_request_would_overcommit(v: BudgetView, size_mb: nat)
    requires
        v.wf(),
        size_mb > v.available(),
    ensures
        !v.can_allocate(size_mb),
        !v.allocate(size_mb).wf(),
{
}

/// Release is the inverse of allocate: handing out `size_mb` and giving it
/// back leaves the ledger, and so what is available, as it was.
pub proof fn law_release_restores(v: BudgetView, size_mb: nat)
    requires
        v.wf(),
        size_mb <= v.available(),
    ensures
        v.allocate(size_mb).release(size_mb) == v,
        v.allocate(size_mb).release(size_mb).available() == v.available(),
{
}

/// Giving back a handle never over-commits the ledger and never lowers what
/// is available.
pub proof fn law_release_keeps_wf(v: BudgetView, size_mb: nat)
    requires
        v.wf(),
    ensures
        v.release(size_mb).wf(),
        v.release(size_mb).available() >= v.available(),
{
}

/// Serving requests one after another changes only the count of handed-out
/// memory, never lowers it, and keeps the ledger within its usable memory.
pub proof fn lemma_serve_keeps_wf(v: BudgetView, sizes: Seq<u64>)
    requires
        v.wf(),
    ensures
        v.serve(sizes).wf(),
        v.serve(sizes).total_mb == v.total_mb,
        v.serve(sizes).reserved_mb == v.reserved_mb,
        v.serve(sizes).allocated_mb >= v.allocated_mb,
        v.serve(sizes).allocated_mb <= v.allocated_mb + total_size(sizes),
    decreases sizes.len(),
{
    if sizes.len() > 0 {
        lemma_serve_keeps_wf(v, sizes.drop_last());
    }
}

/// Where every request of `sizes` is granted, all of them have been handed
/// out.
pub proof fn lemma_all_granted_sum(v: BudgetView, sizes: Seq<u64>)
    requires
        v.wf(),
        forall|i: int| 0 <= i < sizes.len() ==> v.granted(sizes, i),
    ensures
        v.serve(sizes).allocated_mb == v.allocated_mb + total_size(sizes),
    decreases sizes.len(),
{
    if sizes.len() > 0 {
        let head = sizes.drop_last();
        let last = sizes.len() - 1;
        assert forall|i: int| 0 <= i < head.len() implies v.granted(head, i) by {
            assert(v.granted(sizes, i));
            assert(head.take(i) =~= sizes.take(i));
        }
        lemma_all_granted_sum(v, head);
        assert(v.granted(sizes, last));
        assert(sizes.take(last) =~= head);
    }
}

/// However many requests arrive and in whatever order they are served, the
/// memory granted to them together never exceeds what was available before
/// the first, at any point of the run; and where the requests add up to more
/// than was available, at least one of them is refused.
pub proof fn law_requests_never_overcommit(v: BudgetView, sizes: Seq<u64>)
    requires
        v.wf(),
    ensures
        forall|n: int|
            0 <= n <= sizes.len() ==> #[trigger] v.serve(sizes.take(n)).allocated_mb
                - v.allocated_mb <= v.available(),
        v.serve(sizes).allocated_mb - v.allocated_mb <= v.available(),
        total_size(sizes) > v.available() ==> exists|i: int|
            0 <= i < sizes.len() && !v.granted(sizes, i),
{
    assert forall|n: int| 0 <= n <= sizes.len() implies #[trigger] v.serve(
        sizes.take(n),
    ).allocated_mb - v.allocated_mb <= v.available() by {
        lemma_serve_keeps_wf(v, sizes.take(n));
    }
    lemma_serve_keeps_wf(v, sizes);
    if total_size(sizes) > v.available() {
        if forall|i: int| 0 <= i < sizes.len() ==> v.granted(sizes, i) {
            lemma_all_granted_sum(v, sizes);
        }
    }
}

/// Utilization stays between 0 and 100 percent: it is 0 where nothing is
/// handed out and 100 where everything usable is.
pub proof fn law_utilization_range(v: BudgetView)
    requires
        v.wf(),
    ensures
        v.utilization_millis() <= 100_000,
        v.allocated_mb == 0 ==> v.utilization_millis() == 0,
        v.usable() > 0 && v.allocated_mb == v.usable() ==> v.utilization_millis() == 100_000,
{
    let usable = v.usable() as int;
    let allocated = v.allocated_mb as int;
    if usable > 0 {
        assert(allocated * 100_000 / usable <= 100_000) by (nonlinear_arith)
            requires
                0 <= allocated <= usable,
                usable > 0,
        ;
        assert(0int * 100_000 / usable == 0) by (nonlinear_arith)
            requires
                usable > 0,
        ;
        assert(usable * 100_000 / usable == 100_000) by (nonlinear_arith)
            requires
                usable > 0,
        ;
    }
}

/// Utilization approaches 100 percent as the handed-out memory approaches the
/// usable memory: it never falls when more is handed out, and it is short of
/// 100 percent by no more than the share that is still free, rounded up.
pub proof fn law_utilization_approaches_full(v: BudgetView, w: BudgetView)
    requires
        v.wf(),
        w.wf(),
        v.total_mb == w.total_mb,
        v.reserved_mb == w.reserved_mb,
        v.allocated_mb <= w.allocated_mb,
        v.usable() > 0,
    ensures
        v.utilization_millis() <= w.utilization_millis(),
        100_000 - v.utilization_millis() <= (v.usable() - v.allocated_mb) * 100_000 / (
        v.usable() as int) + 1,
{
    let usable = v.usable() as int;
    let a = v.allocated_mb as int;
    let b = w.allocated_mb as int;
    assert(a * 100_000 / usable <= b * 100_000 / usable) by (nonlinear_arith)
        requires
            0 <= a <= b,
            usable > 0,
    ;
    assert(100_000 - a * 100_000 / usable <= (usable - a) * 100_000 / usable + 1)
        by (nonlinear_arith)
        requires
            0 <= a <= usable,
            usable > 0,
    ;
}

/// Estimate model memory requirements.
#[derive(Debug, Clone, Copy)]
pub struct ModelMemoryEstimate {
    /// Model weights in MB
    pub weights_mb: u64,
    /// Activation memory in MB
    pub activations_mb: u64,
    /// KV cache per token in KB
    pub kv_cache_per_token_kb: u64,
    /// Maximum context length
    pub max_context: u64,
}

impl ModelMemoryEstimate {
    /// Total memory in MB for a context of `context_length` tokens: weights,
    /// activations and the KV cache, the cache rounded down to whole MB.
    pub open spec fn spec_total_mb(&self, context_length: u64) -> nat {
        (self.weights_mb + self.activations_mb + (self.kv_cache_per_token_kb * context_length)
            / 1024) as nat
    }

    /// Create estimate for a model of `params_millions` million parameters
    /// stored at `bits_per_param` bits each.
    ///
    /// Weights take one byte per eight bits, activations a tenth of a MB per
    /// million parameters, and the KV cache one KB per token for every five
    /// hundred million parameters, each rounded down. A weight size beyond
    /// `u64::MAX` is capped there.
    #[must_use]
    pub fn for_params(params_millions: u64, bits_per_param: u8, max_context: u64) -> (estimate:
        Self)
        ensures
            estimate.weights_mb == (Ratio { num: bits_per_param as u64, den: 8 }).spec_apply(
                params_millions,
            ),
            estimate.activations_mb == params_millions / 10,
            estimate.kv_cache_per_token_kb == params_millions / 500,
            estimate.max_context == max_context,
    {
        let per_byte = Ratio { num: bits_per_param as u64, den: 8 };
        ModelMemoryEstimate {
            weights_mb: per_byte.apply(params_millions),
            activations_mb: params_millions / 10,
            kv_cache_per_token_kb: params_millions / 500,
            max_context,
        }
    }

    /// Total memory for given context length.
    #[must_use]
    pub fn total_mb(&self, context_length: u64) -> (mb: u64)
        requires
            self.spec_total_mb(context_length) <= u64::MAX,
        ensures
            mb == self.spec_total_mb(context_length),
    {
        let total: u128 = self.total_wide(context_length);
        total as u64
    }

    /// Check if model fits in budget.
    #[must_use]
    pub fn fits_in(&self, budget: &MemoryBudget, context_length: u64) -> (fits: bool)
        ensures
            fits == (self.spec_total_mb(context_length) <= budget@.available()),
    {
        let total: u128 = self.total_wide(context_length);
        total <= budget.available_mb() as u128
    }

    /// The total of `spec_total_mb`, computed where it cannot overflow.
    fn total_wide(&self, context_length: u64) -> (mb: u128)
        ensures
            mb == self.spec_total_mb(context_length),
    {
        assert(self.kv_cache_per_token_kb * context_length <= u64::MAX * u64::MAX)
            by (nonlinear_arith)
            requires
                self.kv_cache_per_token_kb <= u64::MAX,
                context_length <= u64::MAX,
        ;
        let cache_kb: u128 = (self.kv_cache_per_token_kb as u128) * (context_length as u128);
        (self.weights_mb as u128) + (self.activations_mb as u128) + cache_kb / 1024
    }
}

} // verus!

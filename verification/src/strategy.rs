//! Capture-strategy selection: which platform capture techniques to try,
//! in which order.

use vstd::prelude::*;

verus! {

/// One operating-system capture technique. The techniques are tried in a
/// fixed priority order, each at most once per capture call, stopping at
/// the first that reports success; the caller performs the actual
/// drawing calls.
#[derive(Debug, Clone, Copy, PartialEq, Eq, Structural)]
pub enum CaptureStrategy {
    /// Ask the window-rendering service to paint the window's full
    /// content, including parts normally clipped by occlusion.
    FullContent,
    /// The same rendering service without the full-content flag: paints
    /// only what the system would normally composite.
    BestEffort,
    /// Copy pixels directly from the window's device context at its
    /// screen position; the universal fallback.
    BlockCopy,
}

/// The ordered attempt schedule: full-content capture only from major
/// version 8 on, best-effort capture only while desktop composition is
/// enabled, and the raw block copy always, last.
pub open spec fn strategy_plan_spec(os_major_version: u8, composition_enabled: bool) -> Seq<CaptureStrategy> {
    (if os_major_version >= 8 {
        seq![CaptureStrategy::FullContent]
    } else {
        Seq::<CaptureStrategy>::empty()
    }) + (if composition_enabled {
        seq![CaptureStrategy::BestEffort]
    } else {
        Seq::<CaptureStrategy>::empty()
    }) + seq![CaptureStrategy::BlockCopy]
}

/// Build the attempt schedule for one capture call.
pub fn strategy_plan(os_major_version: u8, composition_enabled: bool) -> (r: Vec<CaptureStrategy>)
    ensures
        r@ == strategy_plan_spec(os_major_version, composition_enabled),
{
    let mut r: Vec<CaptureStrategy> = Vec::new();
    if os_major_version >= 8 {
        r.push(CaptureStrategy::FullContent);
    }
    if composition_enabled {
        r.push(CaptureStrategy::BestEffort);
    }
    r.push(CaptureStrategy::BlockCopy);
    proof {
        assert(r@ =~= strategy_plan_spec(os_major_version, composition_enabled));
    }
    r
}

/// Whatever the platform facts are, the raw block copy is in the
/// schedule, exactly once, and last: a capture call always has a
/// universal fallback to end on.
pub proof fn lemma_block_copy_is_the_last_resort(os_major_version: u8, composition_enabled: bool)
    ensures
        ({
            let plan = strategy_plan_spec(os_major_version, composition_enabled);
            &&& plan.len() >= 1
            &&& plan.last() == CaptureStrategy::BlockCopy
            &&& forall|i: int|
                0 <= i < plan.len() - 1 ==> #[trigger] plan[i] != CaptureStrategy::BlockCopy
        }),
{
}

/// When the full-content strategy is inapplicable (major version below 8)
/// and composition is disabled, the raw block copy is the only strategy
/// ever attempted.
pub proof fn lemma_only_block_copy(os_major_version: u8, composition_enabled: bool)
    requires
        os_major_version < 8,
        !composition_enabled,
    ensures
        strategy_plan_spec(os_major_version, composition_enabled) =~= seq![CaptureStrategy::BlockCopy],
{
}

} // verus!

//! Which effect passes a processing call runs, and in what order.

use vstd::prelude::*;

verus! {

/// The four effects of the engine.
#[derive(Clone, Copy, Debug, PartialEq, Eq, Structural)]
pub enum EffectKind {
    Delay,
    Distortion,
    Chorus,
    Tremolo,
}

/// The parameter groups of one processing call, each present or absent.
/// The parameter types are left to the caller.
pub struct EffectConfig<D, X, C, R> {
    pub delay: Option<D>,
    pub distortion: Option<X>,
    pub chorus: Option<C>,
    pub tremolo: Option<R>,
}

/// `[kind]` when the group is present, nothing otherwise.
pub open spec fn pass_if<P>(group: Option<P>, kind: EffectKind) -> Seq<EffectKind> {
    if group is Some {
        seq![kind]
    } else {
        Seq::empty()
    }
}

impl<D, X, C, R> EffectConfig<D, X, C, R> {
    /// The passes to run: delay, distortion, chorus, tremolo, in that order,
    /// each one only when its group is present.
    pub open spec fn pass_order(&self) -> Seq<EffectKind> {
        pass_if(self.delay, EffectKind::Delay) + pass_if(self.distortion, EffectKind::Distortion)
            + pass_if(self.chorus, EffectKind::Chorus) + pass_if(self.tremolo, EffectKind::Tremolo)
    }

    /// The passes that a call with this configuration runs, each over the
    /// whole buffer before the next begins.
    pub fn passes(&self) -> (r: Vec<EffectKind>)
        ensures
            r@ == self.pass_order(),
    {
        let mut r: Vec<EffectKind> = Vec::new();
        if self.delay.is_some() {
            r.push(EffectKind::Delay);
        }
        if self.distortion.is_some() {
            r.push(EffectKind::Distortion);
        }
        if self.chorus.is_some() {
            r.push(EffectKind::Chorus);
        }
        if self.tremolo.is_some() {
            r.push(EffectKind::Tremolo);
        }
        assert(r@ =~= self.pass_order());
        r
    }
}

/// Every pass runs at most once, and the passes keep the fixed order
/// delay, distortion, chorus, tremolo.
pub proof fn lemma_passes_in_fixed_order<D, X, C, R>(config: EffectConfig<D, X, C, R>, i: int, j: int)
    requires
        0 <= i < j < config.pass_order().len(),
    ensures
        rank(config.pass_order()[i]) < rank(config.pass_order()[j]),
{
}

/// The place of an effect in the fixed order.
pub open spec fn rank(kind: EffectKind) -> int {
    match kind {
        EffectKind::Delay => 0,
        EffectKind::Distortion => 1,
        EffectKind::Chorus => 2,
        EffectKind::Tremolo => 3,
    }
}

} // verus!

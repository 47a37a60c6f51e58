//! Effects: time-driven pixel generators that stack and wrap one another.

use vstd::prelude::*;

use crate::effect::model::{
    blend_buffers, lemma_applied_len, lemma_applied_wf, lemma_bundle_mode, lemma_bundle_wf,
    lemma_bundle_fits, lemma_members_applied_len, lemma_members_applied_wf, lemma_wf_fits,
    members_applied, members_fit, members_updated, render_start, scratch_applied,
    scratch_pixels, scratch_updated, scratch_wf, EffectModel,
    EventModel, FadeModel, ScratchModel, SinePulseModel,
};
use crate::effect::sine_pulse::SineTable;
use crate::render::rgb::Rgb;
use crate::render::LED_COUNT;
use crate::time::now;

pub use self::fade_transition::{FadeCurve, FadeDirection, FadeTransitionEffect};

pub use self::sine_pulse::SinePulseEffect;

pub mod fade_transition;
pub mod model;
pub mod sine_pulse;

verus! {

/// A name by which an effect can be addressed from outside.
#[derive(Clone, Copy, Debug, PartialEq, Eq, Structural)]
pub struct EffectId(pub u32);

/// Whether an effect overwrites every pixel or combines with what lies beneath.
#[derive(Clone, Copy, Debug, PartialEq, Eq, Structural)]
pub enum DisplayMode {
    Blend,
    Opaque,
}

/// What an effect asks of its owner after an update.
#[derive(Debug, PartialEq, Eq)]
pub enum EffectEvent {
    /// The effect hands the rest of its life to another one.
    Replace(Box<Effect>),
    /// The effect is done.
    Remove,
}

/// An effect together with the scratch buffer it is rendered into.
#[derive(Debug, PartialEq, Eq)]
pub struct EffectBuffer {
    pub effect: Box<Effect>,
    pub buffer: Vec<Rgb>,
}

/// The closed set of effects.
#[derive(Debug, PartialEq, Eq)]
pub enum Effect {
    /// One colour on every pixel.
    Solid(Rgb),
    SinePulse(SinePulseEffect),
    FadeTransition(FadeTransitionEffect),
    /// A sequence of effects, bottom first.
    Bundle(Vec<Effect>),
}

impl View for EffectBuffer {
    type V = ScratchModel;

    open spec fn view(&self) -> ScratchModel {
        ScratchModel { effect: Box::new(self.effect.model()), buffer: self.buffer@ }
    }
}

impl View for Effect {
    type V = EffectModel;

    open spec fn view(&self) -> EffectModel {
        self.model()
    }
}

impl View for EffectEvent {
    type V = EventModel;

    open spec fn view(&self) -> EventModel {
        match self {
            EffectEvent::Replace(next) => EventModel::Replace(next.model()),
            EffectEvent::Remove => EventModel::Remove,
        }
    }
}

/// The model of a wrapped effect and its scratch buffer, where there is one.
pub open spec fn buffer_model(wrapped: Option<EffectBuffer>) -> Option<ScratchModel>
    decreases wrapped,
{
    match wrapped {
        None => None,
        Some(scratch) => Some(
            ScratchModel { effect: Box::new(scratch.effect.model()), buffer: scratch.buffer@ },
        ),
    }
}

/// The models of a sequence of effects, bottom first.
pub open spec fn stack_model(stack: Vec<Effect>) -> Seq<EffectModel>
    decreases stack,
{
    Seq::new(
        stack.len() as nat,
        |i: int|
            if 0 <= i < stack.len() {
                stack[i].model()
            } else {
                EffectModel::Solid(Rgb::black())
            },
    )
}

/// The model of the event that an update handed back, where there is one.
pub open spec fn event_model(event: Option<EffectEvent>) -> Option<EventModel> {
    match event {
        Some(e) => Some(e@),
        None => None,
    }
}

impl Effect {
    /// The effect as a plain value.
    pub open spec fn model(self) -> EffectModel
        decreases self,
    {
        match self {
            Effect::Solid(color) => EffectModel::Solid(color),
            Effect::SinePulse(pulse) => EffectModel::SinePulse(
                SinePulseModel {
                    id: pulse.id,
                    start: pulse.start,
                    period: pulse.period,
                    amplitude: pulse.amplitude,
                    offset: pulse.offset,
                    wrapped: buffer_model(pulse.wrapped),
                },
            ),
            Effect::FadeTransition(fade) => EffectModel::FadeTransition(
                FadeModel {
                    id: fade.id,
                    start: fade.start,
                    duration: fade.duration,
                    curve: fade.fade_curve,
                    direction: fade.fade_direction,
                    wrapped: buffer_model(fade.wrapped),
                },
            ),
            Effect::Bundle(members) => EffectModel::Bundle(stack_model(members)),
        }
    }

    pub fn id(&self) -> (id: Option<EffectId>)
        ensures
            id == self@.id(),
    {
        match self {
            Effect::Solid(_) => None,
            Effect::SinePulse(pulse) => pulse.id,
            Effect::FadeTransition(fade) => fade.id,
            Effect::Bundle(_) => None,
        }
    }

    pub fn display_mode(&self) -> (mode: DisplayMode)
        ensures
            mode == self@.mode(),
        decreases self,
    {
        match self {
            Effect::Solid(_) => DisplayMode::Opaque,
            Effect::SinePulse(_) => DisplayMode::Blend,
            Effect::FadeTransition(_) => DisplayMode::Blend,
            Effect::Bundle(members) => stack_display_mode(members),
        }
    }

    /// Advances the effect to the time `now`.
    pub fn update_at(&mut self, now: u64) -> (event: Option<EffectEvent>)
        ensures
            final(self)@ == old(self)@.updated(now).0,
            event_model(event) == old(self)@.updated(now).1,
            old(self)@.wf() ==> final(self)@.wf(),
            old(self)@.wf() ==> (event matches Some(EffectEvent::Replace(next)) ==> next@.wf()),
        decreases *old(self),
    {
        proof {
            if self@.wf() {
                crate::effect::model::lemma_updated_wf(self@, now);
            }
        }
        match self {
            Effect::Solid(_) => None,
            Effect::SinePulse(pulse) => pulse.update_at(now),
            Effect::FadeTransition(fade) => fade.update_at(now),
            Effect::Bundle(members) => {
                update_stack(members, now);
                None
            },
        }
    }
}

/// The display mode of a sequence of effects: opaque where one of them is.
pub fn stack_display_mode(stack: &Vec<Effect>) -> (mode: DisplayMode)
    ensures
        mode == EffectModel::Bundle(stack_model(*stack)).mode(),
    decreases stack,
{
    let mut i: usize = 0;
    while i < stack.len()
        invariant
            i <= stack.len(),
            forall|j: int| 0 <= j < i ==> (#[trigger] stack_model(*stack)[j]).mode() != DisplayMode::Opaque,
        decreases stack.len() - i,
    {
        if stack[i].display_mode() == DisplayMode::Opaque {
            proof {
                let members = stack_model(*stack);
                lemma_bundle_mode(members);
                assert(0 <= i < members.len() && members[i as int].mode() == DisplayMode::Opaque);
            }
            return DisplayMode::Opaque;
        }
        i += 1;
    }
    proof {
        lemma_bundle_mode(stack_model(*stack));
    }
    DisplayMode::Blend
}

/// Advances a wrapped effect to the time `now`. One that hands over to
/// another effect is replaced in place; one that is done is dropped, and
/// the result says so.
pub fn update_wrapped(wrapped: &mut Option<EffectBuffer>, now: u64) -> (removed: bool)
    ensures
        (buffer_model(*final(wrapped)), removed) == scratch_updated(
            buffer_model(*old(wrapped)),
            now,
        ),
    decreases *old(wrapped),
{
    match wrapped {
        None => false,
        Some(scratch) => {
            match scratch.effect.update_at(now) {
                Some(EffectEvent::Replace(next)) => {
                    scratch.effect = next;
                    false
                },
                Some(EffectEvent::Remove) => {
                    *wrapped = None;
                    true
                },
                None => false,
            }
        },
    }
}

/// Advances every member of `stack` to the time `now`: a member that hands
/// over is replaced in place, one that is done is taken out, and the others
/// keep their order.
pub fn update_stack(stack: &mut Vec<Effect>, now: u64)
    ensures
        stack_model(*final(stack)) == members_updated(
            stack_model(*old(stack)),
            old(stack).len() as nat,
            now,
        ),
        final(stack).len() <= old(stack).len(),
        stack_wf(*old(stack)) ==> stack_wf(*final(stack)),
    decreases *old(stack),
{
    proof {
        if stack_wf(*stack) {
            crate::effect::model::lemma_members_updated_wf(
                stack_model(*stack),
                stack.len() as nat,
                now,
            );
        }
    }
    let ghost orig = *stack;
    let ghost models = stack_model(orig);
    let mut i: usize = 0;
    let ghost mut k: nat = 0;
    while i < stack.len()
        invariant
            orig == *old(stack),
            models == stack_model(orig),
            i <= stack.len(),
            i <= k <= orig.len(),
            stack.len() - i == orig.len() - k,
            forall|j: int| i <= j < stack.len() ==> stack[j] == orig[k + j - i],
            members_updated(models, k, now).len() == i,
            forall|j: int|
                0 <= j < i ==> (#[trigger] stack[j]).model() == members_updated(models, k, now)[j],
        decreases stack.len() - i,
    {
        proof {
            broadcast use vstd::std_specs::vec::axiom_vec_index_decreases;
            assert(decreases_to!(orig => orig[k as int]));
        }
        assert(models[k as int] == orig[k as int].model());
        match stack[i].update_at(now) {
            Some(EffectEvent::Replace(next)) => {
                stack[i] = *next;
                i += 1;
            },
            Some(EffectEvent::Remove) => {
                stack.remove(i);
            },
            None => {
                i += 1;
            },
        }
        proof {
            k = k + 1;
        }
    }
    assert(stack_model(*stack) =~= members_updated(models, k, now));
}

impl EffectBuffer {
    /// Wraps `effect` with a scratch buffer of `size` black pixels.
    pub fn new(effect: Box<Effect>, size: usize) -> (out: Self)
        ensures
            out.effect == effect,
            out.buffer@ == Seq::new(size as nat, |i: int| Rgb::black()),
    {
        let buffer = vec![Rgb::black(); size];
        assert(buffer@ =~= Seq::new(size as nat, |i: int| Rgb::black()));
        EffectBuffer { effect, buffer }
    }
}

/// Wraps `effect`, where there is one, with a scratch buffer as long as
/// the strip.
pub fn wrap(effect: Option<Box<Effect>>) -> (wrapped: Option<EffectBuffer>)
    ensures
        buffer_model(wrapped) == match effect {
            Some(inner) => Some(
                ScratchModel {
                    effect: Box::new(inner.model()),
                    buffer: Seq::new(LED_COUNT as nat, |i: int| Rgb::black()),
                },
            ),
            None => None,
        },
{
    match effect {
        Some(inner) => Some(EffectBuffer::new(inner, LED_COUNT)),
        None => None,
    }
}

/// Sets every pixel of `buffer` to `color`.
pub fn fill(buffer: &mut [Rgb], color: Rgb)
    ensures
        final(buffer)@ == Seq::new(old(buffer).len() as nat, |i: int| color),
{
    let n: usize = buffer.len();
    let mut i: usize = 0;
    while i < n
        invariant
            i <= n,
            buffer.len() == n,
            forall|j: int| 0 <= j < i ==> buffer@[j] == color,
        decreases n - i,
    {
        buffer[i] = color;
        i += 1;
    }
    assert(buffer@ =~= Seq::new(n as nat, |i: int| color));
}

/// Blends every pixel of `buffer` towards the pixel at the same place in
/// the scratch buffer of `over`, or towards black where there is none.
pub fn blend_into(buffer: &mut [Rgb], over: &Option<EffectBuffer>, a: i32)
    requires
        over matches Some(scratch) ==> old(buffer).len() <= scratch.buffer.len(),
    ensures
        final(buffer)@ == blend_buffers(old(buffer)@, scratch_pixels(buffer_model(*over)), a as int),
{
    let n: usize = buffer.len();
    let mut i: usize = 0;
    while i < n
        invariant
            i <= n,
            buffer.len() == n,
            n == old(buffer).len(),
            over matches Some(scratch) ==> n <= scratch.buffer.len(),
            forall|j: int|
                0 <= j < i ==> buffer@[j] == blend_buffers(
                    old(buffer)@,
                    scratch_pixels(buffer_model(*over)),
                    a as int,
                )[j],
            forall|j: int| i <= j < n ==> buffer@[j] == old(buffer)@[j],
        decreases n - i,
    {
        let wrapped: Rgb = match over {
            Some(scratch) => scratch.buffer[i],
            None => Rgb::black(),
        };
        let pixel: Rgb = buffer[i];
        buffer[i] = pixel.lerp(wrapped, a);
        i += 1;
    }
    assert(buffer@ =~= blend_buffers(
        old(buffer)@,
        scratch_pixels(buffer_model(*over)),
        a as int,
    ));
}

/// Renders a wrapped effect into its own scratch buffer.
pub fn apply_wrapped(wrapped: &mut Option<EffectBuffer>, now: u64, wave: &SineTable)
    requires
        scratch_wf(buffer_model(*old(wrapped))),
    ensures
        buffer_model(*final(wrapped)) == scratch_applied(buffer_model(*old(wrapped)), now, wave@),
        scratch_wf(buffer_model(*final(wrapped))),
    decreases *old(wrapped),
{
    proof {
        crate::effect::model::lemma_scratch_applied_wf(buffer_model(*wrapped), now, wave@);
    }
    match wrapped {
        None => {},
        Some(scratch) => {
            proof {
                lemma_wf_fits(scratch.effect.model(), LED_COUNT as nat);
            }
            scratch.effect.apply_at(now, scratch.buffer.as_mut_slice(), wave);
        },
    }
}

impl Effect {
    /// Advances the effect to the present time, which it reads from the
    /// clock. The built-in effects keep their own start times and do not
    /// read the time that has passed since the previous update.
    pub fn update(&mut self, _elapsed: u64) -> (event: Option<EffectEvent>)
        ensures
            exists|now: u64|
                final(self)@ == (#[trigger] old(self)@.updated(now)).0 && event_model(event) == old(
                    self,
                )@.updated(now).1,
            old(self)@.wf() ==> final(self)@.wf(),
            old(self)@.wf() ==> (event matches Some(EffectEvent::Replace(next)) ==> next@.wf()),
    {
        self.update_at(now())
    }

    /// Renders the effect onto `buffer` as it stands at the present time,
    /// which it reads from the clock.
    pub fn apply(&mut self, buffer: &mut [Rgb], wave: &SineTable)
        requires
            old(self)@.wf(),
            old(self)@.fits(old(buffer).len() as nat),
        ensures
            exists|now: u64|
                (final(self)@, final(buffer)@) == #[trigger] old(self)@.applied(
                    now,
                    old(buffer)@,
                    wave@,
                ),
            final(self)@.wf(),
            final(buffer).len() == old(buffer).len(),
    {
        self.apply_at(now(), buffer, wave)
    }

    /// Renders the effect onto `buffer` as it stands at the time `now`.
    pub fn apply_at(&mut self, now: u64, buffer: &mut [Rgb], wave: &SineTable)
        requires
            old(self)@.wf(),
            old(self)@.fits(old(buffer).len() as nat),
        ensures
            (final(self)@, final(buffer)@) == old(self)@.applied(now, old(buffer)@, wave@),
            final(self)@.wf(),
            final(buffer).len() == old(buffer).len(),
        decreases *old(self),
    {
        proof {
            lemma_applied_wf(self@, now, buffer@, wave@);
            lemma_applied_len(self@, now, buffer@, wave@);
        }
        match self {
            Effect::Solid(color) => fill(buffer, *color),
            Effect::SinePulse(pulse) => pulse.apply_at(now, buffer, wave),
            Effect::FadeTransition(fade) => fade.apply_at(now, buffer, wave),
            Effect::Bundle(members) => {
                proof {
                    lemma_bundle_wf(stack_model(*members));
                    lemma_bundle_fits(stack_model(*members), buffer.len() as nat);
                }
                apply_stack(members, now, buffer, wave);
            },
        }
    }
}

/// Whether every member of `stack` is well-formed.
pub open spec fn stack_wf(stack: Vec<Effect>) -> bool {
    forall|i: int| 0 <= i < stack.len() ==> (#[trigger] stack_model(stack)[i]).wf()
}

/// Whether the scratch buffer, where there is one, has the length of the
/// strip and holds a well-formed effect.
pub fn wrapped_well_formed(wrapped: &Option<EffectBuffer>) -> (ok: bool)
    ensures
        ok == scratch_wf(buffer_model(*wrapped)),
    decreases wrapped,
{
    match wrapped {
        None => true,
        Some(scratch) => scratch.buffer.len() == LED_COUNT && scratch.effect.well_formed(),
    }
}

/// Whether every member of `stack` is well-formed.
pub fn stack_well_formed(stack: &Vec<Effect>) -> (ok: bool)
    ensures
        ok == stack_wf(*stack),
    decreases stack,
{
    let mut i: usize = 0;
    while i < stack.len()
        invariant
            i <= stack.len(),
            forall|j: int| 0 <= j < i ==> (#[trigger] stack_model(*stack)[j]).wf(),
        decreases stack.len() - i,
    {
        if !stack[i].well_formed() {
            assert(!stack_model(*stack)[i as int].wf());
            return false;
        }
        i += 1;
    }
    true
}

impl Effect {
    /// Whether every scratch buffer in the effect has the length of the
    /// strip, as rendering asks.
    pub fn well_formed(&self) -> (ok: bool)
        ensures
            ok == self@.wf(),
        decreases self,
    {
        match self {
            Effect::Solid(_) => true,
            Effect::SinePulse(pulse) => wrapped_well_formed(&pulse.wrapped),
            Effect::FadeTransition(fade) => wrapped_well_formed(&fade.wrapped),
            Effect::Bundle(members) => {
                proof {
                    lemma_bundle_wf(stack_model(*members));
                }
                stack_well_formed(members)
            },
        }
    }
}

/// Renders a sequence of effects onto `buffer`, bottom first. Only the
/// topmost opaque member and those above it are rendered; where no member
/// is opaque, all are. The frame may not be longer than the scratch buffer
/// of a member that is rendered.
pub fn apply_stack(stack: &mut Vec<Effect>, now: u64, buffer: &mut [Rgb], wave: &SineTable)
    requires
        stack_wf(*old(stack)),
        members_fit(stack_model(*old(stack)), old(buffer).len() as nat),
    ensures
        (stack_model(*final(stack)), final(buffer)@) == members_applied(
            stack_model(*old(stack)),
            render_start(stack_model(*old(stack)), old(stack).len() as nat),
            old(stack).len() as nat,
            now,
            old(buffer)@,
            wave@,
        ),
        stack_wf(*final(stack)),
        final(stack).len() == old(stack).len(),
        final(buffer).len() == old(buffer).len(),
    decreases *old(stack),
{
    let ghost orig = *stack;
    let ghost models = stack_model(orig);
    let ghost pixels = buffer@;
    let n: usize = stack.len();
    let mut first: usize = n;
    let mut found: bool = false;
    while first > 0 && !found
        invariant
            first <= n,
            n == stack.len(),
            *stack == orig,
            models == stack_model(orig),
            render_start(models, n as nat) == if found {
                first as nat
            } else {
                render_start(models, first as nat)
            },
        decreases first + if found { 0int } else { 1int },
    {
        assert(models[first - 1] == orig[first - 1].model());
        if stack[first - 1].display_mode() == DisplayMode::Opaque {
            found = true;
        }
        first -= 1;
    }
    let ghost start = first as nat;
    assert(start == render_start(models, n as nat));
    let mut i: usize = first;
    while i < n
        invariant
            first <= i <= n,
            n == stack.len(),
            n == orig.len(),
            orig == *old(stack),
            models == stack_model(orig),
            stack_wf(orig),
            start == first,
            members_fit(models, pixels.len()),
            models.len() == n,
            start == render_start(models, models.len()),
            buffer.len() == pixels.len(),
            forall|j: int| i <= j < n ==> stack[j] == orig[j],
            (stack_model(*stack), buffer@) == members_applied(
                models,
                start,
                i as nat,
                now,
                pixels,
                wave@,
            ),
        decreases n - i,
    {
        proof {
            broadcast use vstd::std_specs::vec::axiom_vec_index_decreases;
            assert(decreases_to!(orig => orig[i as int]));
            assert(models[i as int] == orig[i as int].model());
            assert(models[i as int].wf());
            assert(models[i as int].fits(pixels.len()));
            lemma_members_applied_len(models, start, i as nat, now, pixels, wave@);
        }
        let ghost before = stack_model(*stack);
        stack[i].apply_at(now, buffer, wave);
        proof {
            assert(stack_model(*stack) =~= before.update(i as int, stack[i as int].model()));
        }
        i += 1;
    }
    proof {
        lemma_members_applied_wf(models, start, n as nat, now, pixels, wave@);
        lemma_members_applied_len(models, start, n as nat, now, pixels, wave@);
    }
}

} // verus!

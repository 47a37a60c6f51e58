//! The mathematical model of effects: what an update and a rendering are.

use vstd::prelude::*;

use crate::effect::fade_transition::fade_factor;
use crate::effect::sine_pulse::{
    lemma_pulse_crossings, lemma_pulse_range, period_start, pulse_factor, valid_samples,
};
use crate::effect::{DisplayMode, EffectId, FadeCurve, FadeDirection};
use crate::render::rgb::{lemma_mix_ends, Rgb, FULL};
use crate::render::LED_COUNT;
use crate::time::ticks_since;

verus! {

/// A wrapped effect and the scratch pixels it is rendered into.
pub struct ScratchModel {
    pub effect: Box<EffectModel>,
    pub buffer: Seq<Rgb>,
}

pub struct SinePulseModel {
    pub id: Option<EffectId>,
    pub start: u64,
    pub period: u64,
    pub amplitude: i32,
    pub offset: i32,
    pub wrapped: Option<ScratchModel>,
}

pub struct FadeModel {
    pub id: Option<EffectId>,
    pub start: u64,
    pub duration: u64,
    pub curve: FadeCurve,
    pub direction: FadeDirection,
    pub wrapped: Option<ScratchModel>,
}

/// An effect as a plain value.
pub enum EffectModel {
    Solid(Rgb),
    SinePulse(SinePulseModel),
    FadeTransition(FadeModel),
    Bundle(Seq<EffectModel>),
}

/// A lifecycle event as a plain value.
pub enum EventModel {
    Replace(EffectModel),
    Remove,
}

/// `under` with every pixel blended towards the pixel of `over` at the same
/// place, or towards black where there is no `over`.
pub open spec fn blend_buffers(under: Seq<Rgb>, over: Option<Seq<Rgb>>, a: int) -> Seq<Rgb> {
    Seq::new(
        under.len(),
        |i: int|
            under[i].blend(
                match over {
                    Some(pixels) => pixels[i],
                    None => Rgb::black(),
                },
                a,
            ),
    )
}

/// The pixels of a scratch buffer, where there is one.
pub open spec fn scratch_pixels(wrapped: Option<ScratchModel>) -> Option<Seq<Rgb>> {
    match wrapped {
        Some(scratch) => Some(scratch.buffer),
        None => None,
    }
}

/// The place from which a sequence of effects is rendered: that of its
/// topmost opaque member among the first `n`, or zero where none is opaque.
pub open spec fn render_start(members: Seq<EffectModel>, n: nat) -> nat
    decreases n,
{
    if n == 0 {
        0
    } else if members[n - 1].mode() == DisplayMode::Opaque {
        (n - 1) as nat
    } else {
        render_start(members, (n - 1) as nat)
    }
}

impl EffectModel {
    /// The display mode: a bundle is opaque where one of its members is.
    pub open spec fn mode(self) -> DisplayMode
        decreases self,
    {
        match self {
            EffectModel::Solid(_) => DisplayMode::Opaque,
            EffectModel::SinePulse(_) => DisplayMode::Blend,
            EffectModel::FadeTransition(_) => DisplayMode::Blend,
            EffectModel::Bundle(members) => if exists|i: int|
                0 <= i < members.len() && (#[trigger] members[i]).mode() == DisplayMode::Opaque {
                DisplayMode::Opaque
            } else {
                DisplayMode::Blend
            },
        }
    }

    /// The identity under which the effect can be addressed.
    pub open spec fn id(self) -> Option<EffectId> {
        match self {
            EffectModel::Solid(_) => None,
            EffectModel::SinePulse(pulse) => pulse.id,
            EffectModel::FadeTransition(fade) => fade.id,
            EffectModel::Bundle(_) => None,
        }
    }

    /// Every scratch buffer in the effect has the length of the strip.
    pub open spec fn wf(self) -> bool
        decreases self,
    {
        match self {
            EffectModel::Solid(_) => true,
            EffectModel::SinePulse(pulse) => scratch_wf(pulse.wrapped),
            EffectModel::FadeTransition(fade) => scratch_wf(fade.wrapped),
            EffectModel::Bundle(members) => forall|i: int|
                0 <= i < members.len() ==> (#[trigger] members[i]).wf(),
        }
    }

    /// Whether the effect can be rendered onto `width` pixels: a wrapped
    /// effect is blended in from a scratch buffer, which must not be
    /// shorter than the frame. An effect that wraps nothing takes a frame
    /// of any length, and a bundle asks of the members that it renders.
    pub open spec fn fits(self, width: nat) -> bool
        decreases self,
    {
        match self {
            EffectModel::Solid(_) => true,
            EffectModel::SinePulse(pulse) => scratch_fits(pulse.wrapped, width),
            EffectModel::FadeTransition(fade) => scratch_fits(fade.wrapped, width),
            EffectModel::Bundle(members) => forall|i: int|
                render_start(members, members.len()) <= i < members.len() ==> (
                #[trigger] members[i]).fits(width),
        }
    }

    /// The effect after an update at the time `now`, and the event that the
    /// update hands back.
    pub open spec fn updated(self, now: u64) -> (EffectModel, Option<EventModel>)
        decreases self,
    {
        match self {
            EffectModel::Solid(_) => (self, None),
            EffectModel::SinePulse(pulse) => {
                let (wrapped, removed) = scratch_updated(pulse.wrapped, now);
                if removed {
                    (
                        EffectModel::SinePulse(SinePulseModel { wrapped: None, ..pulse }),
                        Some(EventModel::Remove),
                    )
                } else {
                    let start = period_start(pulse.start, pulse.period, now);
                    (EffectModel::SinePulse(SinePulseModel { start, wrapped, ..pulse }), None)
                }
            },
            EffectModel::FadeTransition(fade) => {
                let wrapped = scratch_updated(fade.wrapped, now).0;
                if ticks_since(fade.start, now) >= fade.duration {
                    (
                        EffectModel::FadeTransition(FadeModel { wrapped: None, ..fade }),
                        Some(
                            match (wrapped, fade.direction) {
                                (Some(scratch), FadeDirection::In) => EventModel::Replace(
                                    *scratch.effect,
                                ),
                                _ => EventModel::Remove,
                            },
                        ),
                    )
                } else {
                    (EffectModel::FadeTransition(FadeModel { wrapped, ..fade }), None)
                }
            },
            EffectModel::Bundle(members) => (
                EffectModel::Bundle(members_updated(members, members.len(), now)),
                None,
            ),
        }
    }

    /// The effect after it was rendered onto `pixels` at the time `now`, and
    /// the pixels that the rendering leaves.
    pub open spec fn applied(self, now: u64, pixels: Seq<Rgb>, wave: Seq<i32>) -> (
        EffectModel,
        Seq<Rgb>,
    )
        decreases self,
    {
        match self {
            EffectModel::Solid(color) => (self, Seq::new(pixels.len(), |i: int| color)),
            EffectModel::SinePulse(pulse) => {
                let wrapped = scratch_applied(pulse.wrapped, now, wave);
                let a = pulse_factor(
                    pulse.amplitude,
                    pulse.offset,
                    ticks_since(pulse.start, now),
                    pulse.period,
                    wave,
                );
                (
                    EffectModel::SinePulse(SinePulseModel { wrapped, ..pulse }),
                    blend_buffers(pixels, scratch_pixels(wrapped), a),
                )
            },
            EffectModel::FadeTransition(fade) => {
                let wrapped = scratch_applied(fade.wrapped, now, wave);
                let a = fade_factor(
                    fade.curve,
                    fade.direction,
                    ticks_since(fade.start, now),
                    fade.duration,
                );
                (
                    EffectModel::FadeTransition(FadeModel { wrapped, ..fade }),
                    blend_buffers(pixels, scratch_pixels(wrapped), a),
                )
            },
            EffectModel::Bundle(members) => {
                let (rendered, out) = members_applied(
                    members,
                    render_start(members, members.len()),
                    members.len(),
                    now,
                    pixels,
                    wave,
                );
                (EffectModel::Bundle(rendered), out)
            },
        }
    }
}

/// The scratch buffer, where there is one, is not shorter than `width`.
pub open spec fn scratch_fits(wrapped: Option<ScratchModel>, width: nat) -> bool {
    match wrapped {
        None => true,
        Some(scratch) => width <= scratch.buffer.len(),
    }
}

/// Whether the members of a sequence that are rendered can be rendered
/// onto `width` pixels.
pub open spec fn members_fit(members: Seq<EffectModel>, width: nat) -> bool {
    forall|i: int|
        render_start(members, members.len()) <= i < members.len() ==> (#[trigger] members[i]).fits(
            width,
        )
}

/// The scratch buffer, where there is one, has the length of the strip and
/// holds a well-formed effect.
pub open spec fn scratch_wf(wrapped: Option<ScratchModel>) -> bool
    decreases wrapped,
{
    match wrapped {
        None => true,
        Some(scratch) => scratch.buffer.len() == LED_COUNT && scratch.effect.wf(),
    }
}

/// A wrapped effect after an update, and whether it asked to be removed.
/// One that hands over to another effect is replaced in place.
pub open spec fn scratch_updated(wrapped: Option<ScratchModel>, now: u64) -> (
    Option<ScratchModel>,
    bool,
)
    decreases wrapped,
{
    match wrapped {
        None => (None, false),
        Some(scratch) => match scratch.effect.updated(now) {
            (_, Some(EventModel::Remove)) => (None, true),
            (_, Some(EventModel::Replace(next))) => (
                Some(ScratchModel { effect: Box::new(next), buffer: scratch.buffer }),
                false,
            ),
            (effect, None) => (
                Some(ScratchModel { effect: Box::new(effect), buffer: scratch.buffer }),
                false,
            ),
        },
    }
}

/// The first `n` of `members` after an update: those that ask to be removed
/// are left out, those that hand over are replaced, and the order stays.
pub open spec fn members_updated(members: Seq<EffectModel>, n: nat, now: u64) -> Seq<EffectModel>
    decreases members, n,
{
    if n == 0 || n > members.len() {
        Seq::empty()
    } else {
        let before = members_updated(members, (n - 1) as nat, now);
        match members[n - 1].updated(now) {
            (_, Some(EventModel::Remove)) => before,
            (_, Some(EventModel::Replace(next))) => before.push(next),
            (effect, None) => before.push(effect),
        }
    }
}

/// A wrapped effect after it was rendered into its own scratch buffer.
pub open spec fn scratch_applied(wrapped: Option<ScratchModel>, now: u64, wave: Seq<i32>) -> Option<
    ScratchModel,
>
    decreases wrapped,
{
    match wrapped {
        None => None,
        Some(scratch) => {
            let (effect, buffer) = scratch.effect.applied(now, scratch.buffer, wave);
            Some(ScratchModel { effect: Box::new(effect), buffer })
        },
    }
}

/// `members` after those from `first` up to `n` were rendered onto `pixels`
/// in turn, and the pixels that this leaves. Members outside that range
/// stay as they are.
pub open spec fn members_applied(
    members: Seq<EffectModel>,
    first: nat,
    n: nat,
    now: u64,
    pixels: Seq<Rgb>,
    wave: Seq<i32>,
) -> (Seq<EffectModel>, Seq<Rgb>)
    decreases members, n,
{
    if n <= first || n > members.len() {
        (members, pixels)
    } else {
        let (before, under) = members_applied(members, first, (n - 1) as nat, now, pixels, wave);
        let (effect, out) = members[n - 1].applied(now, under, wave);
        (before.update(n - 1, effect), out)
    }
}


/// A bundle is opaque exactly where one of its members is.
pub proof fn lemma_bundle_mode(members: Seq<EffectModel>)
    ensures
        EffectModel::Bundle(members).mode() == DisplayMode::Opaque <==> exists|i: int|
            0 <= i < members.len() && (#[trigger] members[i]).mode() == DisplayMode::Opaque,
        EffectModel::Bundle(members).mode() == DisplayMode::Blend <==> forall|i: int|
            0 <= i < members.len() ==> (#[trigger] members[i]).mode() != DisplayMode::Opaque,
{
    reveal_with_fuel(EffectModel::mode, 2);
    assert(EffectModel::Bundle(members)->Bundle_0 == members);
}

/// A bundle is well-formed exactly where all of its members are.
pub proof fn lemma_bundle_wf(members: Seq<EffectModel>)
    ensures
        EffectModel::Bundle(members).wf() <==> forall|i: int|
            0 <= i < members.len() ==> (#[trigger] members[i]).wf(),
{
    reveal_with_fuel(EffectModel::wf, 2);
    assert(EffectModel::Bundle(members)->Bundle_0 == members);
}

/// A bundle can be rendered onto a frame exactly where the members that it
/// renders can.
pub proof fn lemma_bundle_fits(members: Seq<EffectModel>, width: nat)
    ensures
        EffectModel::Bundle(members).fits(width) <==> members_fit(members, width),
{
    reveal_with_fuel(EffectModel::fits, 2);
    assert(EffectModel::Bundle(members)->Bundle_0 == members);
}

/// A well-formed effect can be rendered onto any frame that is not longer
/// than the strip.
pub proof fn lemma_wf_fits(effect: EffectModel, width: nat)
    requires
        effect.wf(),
        width <= LED_COUNT,
    ensures
        effect.fits(width),
    decreases effect,
{
    match effect {
        EffectModel::Bundle(members) => {
            lemma_bundle_wf(members);
            assert forall|i: int| 0 <= i < members.len() implies (#[trigger] members[i]).fits(
                width,
            ) by {
                lemma_wf_fits(members[i], width);
            }
            lemma_bundle_fits(members, width);
        },
        EffectModel::SinePulse(pulse) => {
            assert(scratch_wf(pulse.wrapped));
            assert(scratch_fits(pulse.wrapped, width));
        },
        EffectModel::FadeTransition(fade) => {
            assert(scratch_wf(fade.wrapped));
            assert(scratch_fits(fade.wrapped, width));
        },
        EffectModel::Solid(_) => {},
    }
}

/// Rendering keeps the number of pixels.
pub proof fn lemma_applied_len(effect: EffectModel, now: u64, pixels: Seq<Rgb>, wave: Seq<i32>)
    ensures
        effect.applied(now, pixels, wave).1.len() == pixels.len(),
    decreases effect,
{
    match effect {
        EffectModel::Bundle(members) => {
            lemma_members_applied_len(
                members,
                render_start(members, members.len()),
                members.len(),
                now,
                pixels,
                wave,
            );
        },
        _ => {},
    }
}

/// Rendering a sequence keeps the number of its members and of the pixels.
pub proof fn lemma_members_applied_len(
    members: Seq<EffectModel>,
    first: nat,
    n: nat,
    now: u64,
    pixels: Seq<Rgb>,
    wave: Seq<i32>,
)
    ensures
        members_applied(members, first, n, now, pixels, wave).0.len() == members.len(),
        members_applied(members, first, n, now, pixels, wave).1.len() == pixels.len(),
    decreases members, n,
{
    if n <= first || n > members.len() {
    } else {
        lemma_members_applied_len(members, first, (n - 1) as nat, now, pixels, wave);
        let under = members_applied(members, first, (n - 1) as nat, now, pixels, wave).1;
        lemma_applied_len(members[n - 1], now, under, wave);
    }
}

/// Rendering a well-formed effect leaves it well-formed.
pub proof fn lemma_applied_wf(effect: EffectModel, now: u64, pixels: Seq<Rgb>, wave: Seq<i32>)
    requires
        effect.wf(),
    ensures
        effect.applied(now, pixels, wave).0.wf(),
    decreases effect,
{
    match effect {
        EffectModel::Solid(_) => {},
        EffectModel::SinePulse(pulse) => {
            lemma_scratch_applied_wf(pulse.wrapped, now, wave);
        },
        EffectModel::FadeTransition(fade) => {
            lemma_scratch_applied_wf(fade.wrapped, now, wave);
        },
        EffectModel::Bundle(members) => {
            let first = render_start(members, members.len());
            lemma_bundle_wf(members);
            lemma_members_applied_wf(members, first, members.len(), now, pixels, wave);
            lemma_members_applied_len(members, first, members.len(), now, pixels, wave);
            lemma_bundle_wf(members_applied(members, first, members.len(), now, pixels, wave).0);
        },
    }
}

/// Rendering a wrapped effect keeps its scratch buffer well-formed.
pub proof fn lemma_scratch_applied_wf(wrapped: Option<ScratchModel>, now: u64, wave: Seq<i32>)
    requires
        scratch_wf(wrapped),
    ensures
        scratch_wf(scratch_applied(wrapped, now, wave)),
    decreases wrapped,
{
    match wrapped {
        None => {},
        Some(scratch) => {
            lemma_applied_wf(*scratch.effect, now, scratch.buffer, wave);
            lemma_applied_len(*scratch.effect, now, scratch.buffer, wave);
        },
    }
}

/// Rendering a sequence of well-formed effects leaves them well-formed.
pub proof fn lemma_members_applied_wf(
    members: Seq<EffectModel>,
    first: nat,
    n: nat,
    now: u64,
    pixels: Seq<Rgb>,
    wave: Seq<i32>,
)
    requires
        forall|i: int| 0 <= i < members.len() ==> (#[trigger] members[i]).wf(),
    ensures
        forall|i: int|
            0 <= i < members.len() ==> (#[trigger] members_applied(
                members,
                first,
                n,
                now,
                pixels,
                wave,
            ).0[i]).wf(),
    decreases members, n,
{
    lemma_members_applied_len(members, first, n, now, pixels, wave);
    if n <= first || n > members.len() {
    } else {
        lemma_members_applied_wf(members, first, (n - 1) as nat, now, pixels, wave);
        lemma_members_applied_len(members, first, (n - 1) as nat, now, pixels, wave);
        let under = members_applied(members, first, (n - 1) as nat, now, pixels, wave).1;
        lemma_applied_wf(members[n - 1], now, under, wave);
    }
}

/// Updating a well-formed effect leaves it well-formed, and so is the
/// effect that it hands over to.
pub proof fn lemma_updated_wf(effect: EffectModel, now: u64)
    requires
        effect.wf(),
    ensures
        effect.updated(now).0.wf(),
        effect.updated(now).1 matches Some(EventModel::Replace(next)) ==> next.wf(),
    decreases effect,
{
    match effect {
        EffectModel::Solid(_) => {},
        EffectModel::SinePulse(pulse) => {
            lemma_scratch_updated_wf(pulse.wrapped, now);
        },
        EffectModel::FadeTransition(fade) => {
            lemma_scratch_updated_wf(fade.wrapped, now);
            let wrapped = scratch_updated(fade.wrapped, now).0;
            let after = effect.updated(now).0;
            if ticks_since(fade.start, now) >= fade.duration {
                assert(after == EffectModel::FadeTransition(FadeModel { wrapped: None, ..fade }));
                assert(scratch_wf(None));
            } else {
                assert(after == EffectModel::FadeTransition(FadeModel { wrapped, ..fade }));
                assert(scratch_wf(wrapped));
            }
            assert(after.wf());
        },
        EffectModel::Bundle(members) => {
            lemma_bundle_wf(members);
            lemma_members_updated_wf(members, members.len(), now);
            lemma_bundle_wf(members_updated(members, members.len(), now));
        },
    }
}

/// Updating a wrapped effect keeps its scratch buffer well-formed.
pub proof fn lemma_scratch_updated_wf(wrapped: Option<ScratchModel>, now: u64)
    requires
        scratch_wf(wrapped),
    ensures
        scratch_wf(scratch_updated(wrapped, now).0),
    decreases wrapped,
{
    match wrapped {
        None => {},
        Some(scratch) => {
            lemma_updated_wf(*scratch.effect, now);
        },
    }
}

/// Updating a sequence of well-formed effects leaves well-formed effects,
/// and no more of them than before.
pub proof fn lemma_members_updated_wf(members: Seq<EffectModel>, n: nat, now: u64)
    requires
        forall|i: int| 0 <= i < members.len() ==> (#[trigger] members[i]).wf(),
    ensures
        members_updated(members, n, now).len() <= n,
        forall|i: int|
            0 <= i < members_updated(members, n, now).len() ==> (#[trigger] members_updated(
                members,
                n,
                now,
            )[i]).wf(),
    decreases members, n,
{
    if n == 0 || n > members.len() {
    } else {
        lemma_members_updated_wf(members, (n - 1) as nat, now);
        lemma_updated_wf(members[n - 1], now);
    }
}

/// Rendering starts at the topmost opaque member: nothing above the start
/// is opaque, and the member at the start is, unless no member is opaque
/// at all, in which case rendering starts at the bottom.
pub proof fn lemma_render_start(members: Seq<EffectModel>, n: nat)
    requires
        n <= members.len(),
    ensures
        render_start(members, n) <= n,
        n > 0 ==> render_start(members, n) < n,
        forall|i: int|
            render_start(members, n) < i < n ==> (#[trigger] members[i]).mode()
                != DisplayMode::Opaque,
        (exists|i: int| 0 <= i < n && (#[trigger] members[i]).mode() == DisplayMode::Opaque)
            ==> members[render_start(members, n) as int].mode() == DisplayMode::Opaque,
        (forall|i: int| 0 <= i < n ==> (#[trigger] members[i]).mode() != DisplayMode::Opaque)
            ==> render_start(members, n) == 0,
    decreases n,
{
    if n > 0 && members[n - 1].mode() != DisplayMode::Opaque {
        lemma_render_start(members, (n - 1) as nat);
    }
}

/// Rendering starts at an opaque member above which no member is opaque.
pub proof fn lemma_render_start_at(members: Seq<EffectModel>, first: nat)
    requires
        first < members.len(),
        members[first as int].mode() == DisplayMode::Opaque,
        forall|i: int|
            first < i < members.len() ==> (#[trigger] members[i]).mode() != DisplayMode::Opaque,
    ensures
        render_start(members, members.len()) == first,
{
    lemma_render_start(members, members.len());
}

/// Of four effects of which the third is opaque and the fourth is not,
/// only the third and the fourth are rendered, in that order and onto the
/// pixels that were handed in: the first two stay as they were, whatever
/// they are.
pub proof fn lemma_two_layers_are_rendered(
    a: EffectModel,
    b: EffectModel,
    c: EffectModel,
    d: EffectModel,
    now: u64,
    pixels: Seq<Rgb>,
    wave: Seq<i32>,
)
    requires
        c.mode() == DisplayMode::Opaque,
        d.mode() == DisplayMode::Blend,
    ensures
        ({
            let members = seq![a, b, c, d];
            let (third, under) = c.applied(now, pixels, wave);
            let (fourth, out) = d.applied(now, under, wave);
            &&& render_start(members, 4) == 2
            &&& members_applied(members, 2, 4, now, pixels, wave) == (
                seq![a, b, third, fourth],
                out,
            )
        }),
{
    let members = seq![a, b, c, d];
    let (third, under) = c.applied(now, pixels, wave);
    let (fourth, out) = d.applied(now, under, wave);
    assert(members[2] == c && members[3] == d);
    lemma_render_start_at(members, 2);
    assert(members_applied(members, 2, 2, now, pixels, wave) == (members, pixels));
    assert(members_applied(members, 2, 3, now, pixels, wave) == (members.update(2, third), under));
    assert(members_applied(members, 2, 4, now, pixels, wave) == (
        members.update(2, third).update(3, fourth),
        out,
    ));
    assert(members.update(2, third).update(3, fourth) =~= seq![a, b, third, fourth]);
}

/// A fade-out whose duration has passed leaves the stack at the next
/// update, with all that it wrapped; the member above it stays, or hands
/// over, or leaves as well, as its own update says.
pub proof fn lemma_finished_fade_out_leaves(fade: FadeModel, other: EffectModel, now: u64)
    requires
        fade.direction == FadeDirection::Out,
        ticks_since(fade.start, now) >= fade.duration,
    ensures
        members_updated(seq![EffectModel::FadeTransition(fade), other], 2, now) == match other.updated(
            now,
        ) {
            (_, Some(EventModel::Remove)) => Seq::<EffectModel>::empty(),
            (_, Some(EventModel::Replace(next))) => seq![next],
            (after, None) => seq![after],
        },
{
    let members = seq![EffectModel::FadeTransition(fade), other];
    assert(members[0] == EffectModel::FadeTransition(fade) && members[1] == other);
    lemma_fade_ends_on_time(fade, now);
    assert(members_updated(members, 0, now) == Seq::<EffectModel>::empty());
    assert(members_updated(members, 1, now) == Seq::<EffectModel>::empty());
    let rest = members_updated(members, 2, now);
    match other.updated(now) {
        (_, Some(EventModel::Remove)) => {
            assert(rest == Seq::<EffectModel>::empty());
        },
        (_, Some(EventModel::Replace(next))) => {
            assert(rest == Seq::<EffectModel>::empty().push(next));
            assert(rest =~= seq![next]);
        },
        (after, None) => {
            assert(rest == Seq::<EffectModel>::empty().push(after));
            assert(rest =~= seq![after]);
        },
    }
}

/// A pulse blends every pixel by one factor, which stays within the
/// amplitude of the offset, and which is the offset itself after any
/// number of half periods: at the start of every period and in the middle
/// of it.
pub proof fn lemma_pulse_blends_within_range(
    pulse: SinePulseModel,
    now: u64,
    halves: nat,
    pixels: Seq<Rgb>,
    wave: Seq<i32>,
)
    requires
        valid_samples(wave),
        0 <= pulse.amplitude,
        0 <= pulse.offset - pulse.amplitude,
        pulse.offset + pulse.amplitude <= FULL,
    ensures
        ({
            let elapsed = ticks_since(pulse.start, now);
            let a = pulse_factor(pulse.amplitude, pulse.offset, elapsed, pulse.period, wave);
            &&& EffectModel::SinePulse(pulse).applied(now, pixels, wave).1 == blend_buffers(
                pixels,
                scratch_pixels(scratch_applied(pulse.wrapped, now, wave)),
                a,
            )
            &&& pulse.offset - pulse.amplitude <= a <= pulse.offset + pulse.amplitude
            &&& pulse.period > 0 && 2 * elapsed == halves * pulse.period ==> a == pulse.offset
        }),
{
    let elapsed = ticks_since(pulse.start, now);
    lemma_pulse_range(pulse.amplitude, pulse.offset, elapsed, pulse.period, wave);
    if pulse.period > 0 && 2 * elapsed == halves * pulse.period {
        lemma_pulse_crossings(
            pulse.amplitude,
            pulse.offset,
            halves,
            elapsed,
            pulse.period,
            wave,
        );
    }
}

/// Rendering a sequence touches no member below the place where it starts.
pub proof fn lemma_members_below_untouched(
    members: Seq<EffectModel>,
    first: nat,
    n: nat,
    now: u64,
    pixels: Seq<Rgb>,
    wave: Seq<i32>,
)
    ensures
        forall|i: int|
            0 <= i < first && i < members.len() ==> (#[trigger] members_applied(
                members,
                first,
                n,
                now,
                pixels,
                wave,
            ).0[i]) == members[i],
    decreases n,
{
    if n <= first || n > members.len() {
    } else {
        lemma_members_below_untouched(members, first, (n - 1) as nat, now, pixels, wave);
        lemma_members_applied_len(members, first, (n - 1) as nat, now, pixels, wave);
    }
}

/// An opaque effect covers what lies beneath it: the pixels that its
/// rendering leaves do not depend on the pixels that it was rendered onto.
pub proof fn lemma_opaque_covers(
    effect: EffectModel,
    now: u64,
    pixels: Seq<Rgb>,
    others: Seq<Rgb>,
    wave: Seq<i32>,
)
    requires
        effect.mode() == DisplayMode::Opaque,
        pixels.len() == others.len(),
    ensures
        effect.applied(now, pixels, wave).1 == effect.applied(now, others, wave).1,
    decreases effect,
{
    match effect {
        EffectModel::Solid(color) => {
            assert(Seq::new(pixels.len(), |i: int| color) =~= Seq::new(
                others.len(),
                |i: int| color,
            ));
        },
        EffectModel::Bundle(members) => {
            lemma_bundle_mode(members);
            lemma_render_start(members, members.len());
            lemma_members_cover(
                members,
                render_start(members, members.len()),
                members.len(),
                now,
                pixels,
                others,
                wave,
            );
        },
        _ => {},
    }
}

/// A rendering that starts at an opaque member leaves pixels that do not
/// depend on the pixels that it started from.
pub proof fn lemma_members_cover(
    members: Seq<EffectModel>,
    first: nat,
    n: nat,
    now: u64,
    pixels: Seq<Rgb>,
    others: Seq<Rgb>,
    wave: Seq<i32>,
)
    requires
        first < n <= members.len(),
        members[first as int].mode() == DisplayMode::Opaque,
        pixels.len() == others.len(),
    ensures
        members_applied(members, first, n, now, pixels, wave).1 == members_applied(
            members,
            first,
            n,
            now,
            others,
            wave,
        ).1,
    decreases members, n,
{
    if n == first + 1 {
        assert(members_applied(members, first, first, now, pixels, wave).1 == pixels);
        assert(members_applied(members, first, first, now, others, wave).1 == others);
        lemma_opaque_covers(members[first as int], now, pixels, others, wave);
    } else {
        lemma_members_cover(members, first, (n - 1) as nat, now, pixels, others, wave);
    }
}

/// Leaving out what lies beneath the topmost opaque member changes no
/// pixel: a rendering that starts there leaves the same pixels as one that
/// starts at the bottom.
pub proof fn lemma_culling_changes_no_pixel(
    members: Seq<EffectModel>,
    n: nat,
    now: u64,
    pixels: Seq<Rgb>,
    wave: Seq<i32>,
)
    requires
        n <= members.len(),
    ensures
        members_applied(members, render_start(members, members.len()), n, now, pixels, wave).1
            == if n > render_start(members, members.len()) {
            members_applied(members, 0, n, now, pixels, wave).1
        } else {
            pixels
        },
    decreases n,
{
    let first = render_start(members, members.len());
    lemma_render_start(members, members.len());
    if n > first {
        if first == 0 {
        } else if n == first + 1 {
            let under = members_applied(members, 0, first, now, pixels, wave).1;
            lemma_members_applied_len(members, 0, first, now, pixels, wave);
            assert(members[first as int].mode() == DisplayMode::Opaque);
            lemma_opaque_covers(members[first as int], now, pixels, under, wave);
            assert(members_applied(members, first, first, now, pixels, wave).1 == pixels);
        } else {
            lemma_culling_changes_no_pixel(members, (n - 1) as nat, now, pixels, wave);
        }
    }
}

/// A blend by the factor zero leaves the pixels as they were.
pub proof fn lemma_blend_nothing(under: Seq<Rgb>, over: Option<Seq<Rgb>>)
    ensures
        blend_buffers(under, over, 0) == under,
{
    assert forall|i: int| 0 <= i < under.len() implies blend_buffers(under, over, 0)[i]
        == under[i] by {
        let top = match over {
            Some(pixels) => pixels[i],
            None => Rgb::black(),
        };
        lemma_mix_ends(under[i].r as int, top.r as int);
        lemma_mix_ends(under[i].g as int, top.g as int);
        lemma_mix_ends(under[i].b as int, top.b as int);
    }
    assert(blend_buffers(under, over, 0) =~= under);
}

/// A blend by the factor one puts the pixels of `over` in the place of
/// those beneath.
pub proof fn lemma_blend_all(under: Seq<Rgb>, over: Seq<Rgb>)
    requires
        under.len() <= over.len(),
    ensures
        blend_buffers(under, Some(over), FULL as int) == over.subrange(0, under.len() as int),
{
    assert forall|i: int| 0 <= i < under.len() implies blend_buffers(
        under,
        Some(over),
        FULL as int,
    )[i] == over[i] by {
        lemma_mix_ends(under[i].r as int, over[i].r as int);
        lemma_mix_ends(under[i].g as int, over[i].g as int);
        lemma_mix_ends(under[i].b as int, over[i].b as int);
    }
    assert(blend_buffers(under, Some(over), FULL as int) =~= over.subrange(
        0,
        under.len() as int,
    ));
}

/// A fade neither ends early nor late: an update hands back an event
/// exactly where the duration of the fade has passed. A fade out, or a fade
/// that has nothing left to show, is then done; a fade in hands over to
/// what it wrapped.
pub proof fn lemma_fade_ends_on_time(fade: FadeModel, now: u64)
    ensures
        EffectModel::FadeTransition(fade).updated(now).1 is Some <==> ticks_since(fade.start, now)
            >= fade.duration,
        fade.direction == FadeDirection::Out ==> EffectModel::FadeTransition(fade).updated(now).1
            == if ticks_since(fade.start, now) >= fade.duration {
            Some(EventModel::Remove)
        } else {
            None
        },
        fade.direction == FadeDirection::In && ticks_since(fade.start, now) >= fade.duration
            ==> EffectModel::FadeTransition(fade).updated(now).1 == match scratch_updated(
            fade.wrapped,
            now,
        ).0 {
            Some(scratch) => Some(EventModel::Replace(*scratch.effect)),
            None => Some(EventModel::Remove),
        },
{
}

/// A fade in whose duration has passed hands over to what it wraps, as
/// the same update leaves it: to the wrapped effect brought up to date, or
/// to the effect that this one handed over to. Where the wrapped effect is
/// done in that very update, nothing is left to hand over to, and the fade
/// is done as well.
pub proof fn lemma_fade_in_hands_over(fade: FadeModel, scratch: ScratchModel, now: u64)
    requires
        fade.direction == FadeDirection::In,
        fade.wrapped == Some(scratch),
        ticks_since(fade.start, now) >= fade.duration,
    ensures
        EffectModel::FadeTransition(fade).updated(now).1 == Some(
            match scratch.effect.updated(now) {
                (_, Some(EventModel::Remove)) => EventModel::Remove,
                (_, Some(EventModel::Replace(next))) => EventModel::Replace(next),
                (after, None) => EventModel::Replace(after),
            },
        ),
        EffectModel::FadeTransition(fade).updated(now).0 == EffectModel::FadeTransition(
            FadeModel { wrapped: None, ..fade },
        ),
{
}

/// A linear fade in begins at what lies beneath and ends at what it wraps:
/// rendered at its start it leaves the pixels as they were, and rendered
/// once its duration has passed it puts the rendering of the wrapped
/// effect in their place.
pub proof fn lemma_linear_fade_in(
    fade: FadeModel,
    scratch: ScratchModel,
    now: u64,
    pixels: Seq<Rgb>,
    wave: Seq<i32>,
)
    requires
        fade.curve == FadeCurve::Linear,
        fade.direction == FadeDirection::In,
        fade.wrapped == Some(scratch),
        pixels.len() <= scratch.buffer.len(),
    ensures
        fade.duration > 0 && now <= fade.start ==> EffectModel::FadeTransition(fade).applied(
            now,
            pixels,
            wave,
        ).1 == pixels,
        ticks_since(fade.start, now) >= fade.duration ==> EffectModel::FadeTransition(
            fade,
        ).applied(now, pixels, wave).1 == scratch.effect.applied(
            now,
            scratch.buffer,
            wave,
        ).1.subrange(0, pixels.len() as int),
{
    let rendered = scratch.effect.applied(now, scratch.buffer, wave).1;
    lemma_applied_len(*scratch.effect, now, scratch.buffer, wave);
    lemma_blend_nothing(pixels, Some(rendered));
    lemma_blend_all(pixels, rendered);
    crate::effect::fade_transition::lemma_linear_factor(fade.duration);
}

} // verus!

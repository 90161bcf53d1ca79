//! The animation played when the screen changes: one effect picked at random
//! from ten.

use vstd::prelude::*;

verus! {

/// The transition effects.
#[derive(Clone, Copy, Debug, PartialEq, Eq, Structural)]
pub enum EffectType {
    LeftToRight,
    RightToLeft,
    TopToBottom,
    BottomToTop,
    FadeIn,
    ZoomOut,
    ZoomIn,
    Bounce,
    Pop,
    Corner,
}

/// Every effect, in a fixed order.
pub open spec fn spec_all_effects() -> Seq<EffectType> {
    seq![
        EffectType::LeftToRight,
        EffectType::RightToLeft,
        EffectType::TopToBottom,
        EffectType::BottomToTop,
        EffectType::FadeIn,
        EffectType::ZoomOut,
        EffectType::ZoomIn,
        EffectType::Bounce,
        EffectType::Pop,
        EffectType::Corner,
    ]
}

/// Every effect, in a fixed order.
pub fn all_effects() -> (effects: Vec<EffectType>)
    ensures
        effects@ == spec_all_effects(),
{
    let effects = vec![
        EffectType::LeftToRight,
        EffectType::RightToLeft,
        EffectType::TopToBottom,
        EffectType::BottomToTop,
        EffectType::FadeIn,
        EffectType::ZoomOut,
        EffectType::ZoomIn,
        EffectType::Bounce,
        EffectType::Pop,
        EffectType::Corner,
    ];
    assert(effects@ =~= spec_all_effects());
    effects
}

/// `rand::seq::SliceRandom::choose` on the thread's random generator: no
/// element for an empty slice, else one of its elements, picked at random
/// (nothing is claimed of which).
#[verifier::external_body]
fn choose_effect(effects: &[EffectType]) -> (chosen: Option<EffectType>)
    ensures
        effects@.len() == 0 <==> chosen is None,
        chosen matches Some(e) ==> effects@.contains(e),
{
    rand::seq::SliceRandom::choose(effects, &mut rand::thread_rng()).copied()
}

/// Which edge sliding content enters from.
#[derive(Clone, Copy, Debug, PartialEq, Eq, Structural)]
pub enum SlideFrom {
    Left,
    Right,
    Top,
    Bottom,
}

/// What an effect does to the screen.
#[derive(Clone, Copy, Debug, PartialEq, Eq, Structural)]
pub enum Animation {
    /// Slides in from an edge.
    Slide(SlideFrom),
    /// Fades in from transparent.
    FadeIn,
    /// Shrinks from one and a half times its size.
    ZoomOut,
    /// Grows from half its size.
    ZoomIn,
    /// Slides in from the right, overshooting and springing back.
    Bounce,
    /// Grows past its size and settles back, fading in.
    Pop,
    /// Flies in from the top-right corner while growing.
    Corner,
}

impl EffectType {
    /// An effect picked at random.
    pub fn random() -> (effect: Self)
        ensures
            spec_all_effects().contains(effect),
    {
        let effects = all_effects();
        match choose_effect(effects.as_slice()) {
            Some(effect) => effect,
            None => EffectType::LeftToRight,
        }
    }

    /// What the effect does: a left-to-right effect slides the page in from
    /// the right edge, and so on.
    pub fn animation(self) -> (animation: Animation)
        ensures
            animation == match self {
                EffectType::LeftToRight => Animation::Slide(SlideFrom::Right),
                EffectType::RightToLeft => Animation::Slide(SlideFrom::Left),
                EffectType::TopToBottom => Animation::Slide(SlideFrom::Bottom),
                EffectType::BottomToTop => Animation::Slide(SlideFrom::Top),
                EffectType::FadeIn => Animation::FadeIn,
                EffectType::ZoomOut => Animation::ZoomOut,
                EffectType::ZoomIn => Animation::ZoomIn,
                EffectType::Bounce => Animation::Bounce,
                EffectType::Pop => Animation::Pop,
                EffectType::Corner => Animation::Corner,
            },
    {
        match self {
            EffectType::LeftToRight => Animation::Slide(SlideFrom::Right),
            EffectType::RightToLeft => Animation::Slide(SlideFrom::Left),
            EffectType::TopToBottom => Animation::Slide(SlideFrom::Bottom),
            EffectType::BottomToTop => Animation::Slide(SlideFrom::Top),
            EffectType::FadeIn => Animation::FadeIn,
            EffectType::ZoomOut => Animation::ZoomOut,
            EffectType::ZoomIn => Animation::ZoomIn,
            EffectType::Bounce => Animation::Bounce,
            EffectType::Pop => Animation::Pop,
            EffectType::Corner => Animation::Corner,
        }
    }
}

impl SlideFrom {
    /// Whether the slide runs along the horizontal axis.
    pub fn is_horizontal(self) -> (horizontal: bool)
        ensures
            horizontal == (self == SlideFrom::Left || self == SlideFrom::Right),
    {
        match self {
            SlideFrom::Left | SlideFrom::Right => true,
            SlideFrom::Top | SlideFrom::Bottom => false,
        }
    }

    /// Whether the content starts on the negative side of its axis (left or
    /// above), so that its offset is negative.
    pub fn from_negative_side(self) -> (negative: bool)
        ensures
            negative == (self == SlideFrom::Left || self == SlideFrom::Top),
    {
        match self {
            SlideFrom::Left | SlideFrom::Top => true,
            SlideFrom::Right | SlideFrom::Bottom => false,
        }
    }
}

} // verus!

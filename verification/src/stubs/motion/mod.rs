//! A motion handle that jumps straight to its target: animating to a value,
//! or through a sequence of steps, sets the value at once. The animation
//! mode (tween or spring timing) is a type parameter `M`, so that this
//! module holds no timing arithmetic.
use vstd::prelude::*;

pub mod animations;
pub mod prelude;

verus! {

#[derive(Clone, Copy, Debug, PartialEq, Eq, Structural)]
pub enum LoopMode {
    NoLoop,
    Infinite,
}

impl Default for LoopMode {
    fn default() -> (mode: Self)
        ensures
            mode == LoopMode::NoLoop,
    {
        LoopMode::NoLoop
    }
}

/// How to animate: a mode and an optional loop.
#[derive(Clone, Copy, Debug, Default)]
pub struct AnimationConfig<M> {
    pub mode: M,
    pub loop_mode: Option<LoopMode>,
}

impl<M> AnimationConfig<M> {
    pub fn new(mode: M) -> (config: Self)
        ensures
            config.mode == mode,
            config.loop_mode is None,
    {
        Self { mode, loop_mode: None }
    }

    pub fn with_loop(self, loop_mode: LoopMode) -> (config: Self)
        ensures
            config.mode == self.mode,
            config.loop_mode == Some(loop_mode),
    {
        Self { mode: self.mode, loop_mode: Some(loop_mode) }
    }
}

/// Something whose value can be animated towards a target and read back.
pub trait AnimationManager<T> {
    fn animate_to<M>(&mut self, target: T, config: AnimationConfig<M>);

    fn get_value(&self) -> T;
}

/// A sequence of animation steps, each a target value with its config.
#[derive(Clone, Debug, Default)]
pub struct AnimationSequence<T, M> {
    steps: Vec<(T, AnimationConfig<M>)>,
}

impl<T, M> View for AnimationSequence<T, M> {
    type V = Seq<(T, AnimationConfig<M>)>;

    closed spec fn view(&self) -> Seq<(T, AnimationConfig<M>)> {
        self.steps@
    }
}

impl<T, M> AnimationSequence<T, M> {
    pub fn new() -> (sequence: Self)
        ensures
            sequence@ == Seq::<(T, AnimationConfig<M>)>::empty(),
    {
        Self { steps: Vec::new() }
    }

    /// Appends one step.
    pub fn then(self, value: T, config: AnimationConfig<M>) -> (sequence: Self)
        ensures
            sequence@ == self@.push((value, config)),
    {
        let mut steps = self.steps;
        steps.push((value, config));
        Self { steps }
    }
}

/// A handle on an animated value.
#[derive(Clone, Copy, Debug)]
pub struct MotionHandle<T> {
    value: T,
}

impl<T> View for MotionHandle<T> {
    type V = T;

    closed spec fn view(&self) -> T {
        self.value
    }
}

/// Starts a handle at `initial`.
pub fn use_motion<T: Copy>(initial: T) -> (handle: MotionHandle<T>)
    ensures
        handle@ == initial,
{
    MotionHandle { value: initial }
}

/// The value a handle holds after running through `steps` from `current`:
/// the target of the last step, or `current` when there is no step.
pub open spec fn sequence_end<T, M>(steps: Seq<(T, AnimationConfig<M>)>, current: T) -> T {
    if steps.len() == 0 {
        current
    } else {
        steps.last().0
    }
}

impl<T: Copy> MotionHandle<T> {
    /// Runs through a sequence: the handle ends at the last step's target.
    pub fn animate_sequence<M>(&mut self, sequence: AnimationSequence<T, M>)
        ensures
            final(self)@ == sequence_end(sequence@, old(self)@),
    {
        let n = sequence.steps.len();
        if n > 0 {
            self.value = sequence.steps[n - 1].0;
        }
    }
}

impl<T: Copy> AnimationManager<T> for MotionHandle<T> {
    fn animate_to<M>(&mut self, target: T, _config: AnimationConfig<M>)
        ensures
            final(self)@ == target,
    {
        self.value = target;
    }

    fn get_value(&self) -> (value: T)
        ensures
            value == self@,
    {
        self.value
    }
}

/// The last appended step decides where a sequence ends, whatever came
/// before it and wherever the handle started; an empty sequence leaves the
/// handle where it is.
pub proof fn lemma_last_step_wins<T, M>(
    steps: Seq<(T, AnimationConfig<M>)>,
    value: T,
    config: AnimationConfig<M>,
    current: T,
)
    ensures
        sequence_end(steps.push((value, config)), current) == value,
        sequence_end(Seq::<(T, AnimationConfig<M>)>::empty(), current) == current,
{
}

} // verus!

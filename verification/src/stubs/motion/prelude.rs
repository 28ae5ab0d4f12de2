pub use crate::stubs::motion::{
    use_motion, AnimationConfig, AnimationManager, AnimationSequence, MotionHandle,
};

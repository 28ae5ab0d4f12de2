pub use crate::stubs::motion::LoopMode;

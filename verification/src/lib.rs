//! Decision core of a bridge between a desktop shell and a bundled video
//! processing script: where the bundled files live, which checks precede the
//! launch, how the child is invoked and how its exit is turned into a reply.

pub mod bridge;
pub mod failure;
pub mod layout;
pub mod text;
pub mod world;

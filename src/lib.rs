pub mod poison;
pub mod stream;

pub use stream::ClonableStream;

pub mod batch;
pub mod bitstream;
pub mod channel;
pub mod cli;
pub mod convert;
pub mod converters;
pub mod decoders;
pub mod engine;
pub mod frame;
pub mod pipeline;
pub mod pixel;
pub mod pool;
pub mod sampler;


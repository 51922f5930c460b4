mod buffer;
mod engine;
mod halves;

pub use buffer::{lemma_drains_partition, lemma_stream_conserved, BufCfg, ReadBuffer, WriteBuffer};
pub use halves::{
    buffers_for_split, check_split, closes_session, drain_engine, drain_step, feed_engine,
    offer_plaintext, pull_engine, pump_read, read_step, settle_read, shutdown_result, start_close,
    start_flush, take_plaintext, Direction, DrainProgress, DrainStep, ReadError, ReadProgress,
    ReadStep, SplitError, WriteProgress,
};

pub mod bytes;
pub mod cdrom;
pub mod cpu;
pub mod dma;
pub mod gte;
pub mod irq;
pub mod mdec;
pub mod sched;
pub mod spu;
pub mod timers;
pub mod gpu;
pub mod cue;
pub mod laws;
pub mod exe;
pub mod memory;
pub mod sio;

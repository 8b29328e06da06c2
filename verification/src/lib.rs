//! Core of a host-facing network I/O bridge: byte-buffer views that may span
//! non-contiguous allocations, and per-descriptor pumps that move bytes between
//! a host socket and a shared guest-visible buffer under edge-triggered
//! readiness notifications.
#![allow(non_snake_case)]

pub mod buffer;
pub mod rdma_socket;
pub mod socket_buf;
pub mod sys_info;
